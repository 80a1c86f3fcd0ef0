//! What differs between the platforms the launcher runs on.

use crate::dirs_paths_helper::{config_dir_from, is_dir, xdg_config_dir, ICEDTEA_WEB};
use crate::facts::{
    asks_what_is_missing, lemma_answers_stay, seen, stays, Facts, Knowledge, Query, QueryView,
    Topic,
};
use crate::log_helper::{AdvancedLogging, LoggingView};
use crate::paths::{join, path_join};
use crate::registry::{
    java_registry_path, lemma_registry_asks_what_is_missing, lemma_registry_stays, registry_path,
};
use vstd::prelude::*;
use vstd::string::*;

verus! {

/// The home directory: the value of `variable`, provided that it names a directory.
pub open spec fn home_from(variable: Seq<char>, k: Knowledge) -> Result<
    Option<Seq<char>>,
    QueryView,
> {
    match k.text(Topic::EnvVar, variable) {
        Err(q) => Err(q),
        Ok(None) => Ok(None),
        Ok(Some(dir)) => match k.flag(Topic::IsDir, dir) {
            Err(q) => Err(q),
            Ok(true) => Ok(Some(dir)),
            Ok(false) => Ok(None),
        },
    }
}

/// Reads the home directory from the environment variable `variable`.
pub fn home_dir(variable: &str, facts: &Facts) -> (r: Result<Option<String>, Query>)
    ensures
        seen(r) == home_from(variable@, facts@),
{
    match facts.text(Topic::EnvVar, variable)? {
        Some(war) => {
            if is_dir(war.as_str(), facts)? {
                Ok(Some(war))
            } else {
                Ok(None)
            }
        },
        None => Ok(None),
    }
}

/// `dir` with `part` adjoined, where there is a `dir`.
pub open spec fn extended(dir: Option<Seq<char>>, part: Seq<char>) -> Option<Seq<char>> {
    match dir {
        Some(d) => Some(path_join(d, part)),
        None => None,
    }
}

/// Adjoins `part` to `dir`, where there is a `dir`.
pub fn extend(dir: Option<String>, part: &str) -> (r: Option<String>)
    ensures
        r.deep_view() == extended(dir.deep_view(), part@),
{
    match dir {
        Some(p) => Some(join(p.as_str(), part)),
        None => None,
    }
}

/// A platform. The methods say where the platform keeps things and how it writes them;
/// what they find on the machine they take from the facts.
pub trait Os {
    /// Whether notes for debugging are shown.
    spec fn verbose(&self) -> bool;

    /// Whether the launcher was started from a console.
    spec fn console(&self) -> bool;

    /// The logging set-up.
    spec fn logging(&self) -> LoggingView;

    /// The character between the entries of a class path.
    spec fn separator(&self) -> char;

    /// The endings that the name of an executable may have.
    spec fn suffixes(&self) -> Seq<Seq<char>>;

    /// The user's home directory.
    spec fn home(&self, k: Knowledge) -> Result<Option<Seq<char>>, QueryView>;

    /// The directory of the user's configuration.
    spec fn user_config_dir(&self, k: Knowledge) -> Result<Option<Seq<char>>, QueryView>;

    /// The directory in which older versions kept the user's configuration.
    spec fn legacy_user_config_dir(&self, k: Knowledge) -> Result<Option<Seq<char>>, QueryView>;

    /// The directory of the configuration of the whole system.
    spec fn system_config_javadir(&self) -> Option<Seq<char>>;

    /// The directory in which older versions kept the configuration of the whole system.
    spec fn legacy_system_config_javadir(&self) -> Option<Seq<char>>;

    /// The runtime that the platform's registry names.
    spec fn registry_java(&self, k: Knowledge) -> Result<Option<Seq<char>>, QueryView>;

    /// Whether notes for debugging are shown.
    fn is_verbose(&self) -> (r: bool)
        ensures
            r == self.verbose(),
    ;

    /// Whether the launcher was started from a console.
    fn inside_console(&self) -> (r: bool)
        ensures
            r == self.console(),
    ;

    /// The logging set-up.
    fn advanced_logging(&self) -> (r: &AdvancedLogging)
        ensures
            r@ == self.logging(),
    ;

    /// The character between the entries of a class path.
    fn get_classpath_separator(&self) -> (r: char)
        ensures
            r == self.separator(),
    ;

    /// The endings that the name of an executable may have.
    fn get_exec_suffixes(&self) -> (r: Vec<String>)
        ensures
            r.deep_view() == self.suffixes(),
    ;

    /// The user's home directory, where the environment names one that exists.
    fn get_home(&self, facts: &Facts) -> (r: Result<Option<String>, Query>)
        ensures
            seen(r) == self.home(facts@),
    ;

    /// The directory of the user's configuration.
    fn get_user_config_dir(&self, facts: &Facts) -> (r: Result<Option<String>, Query>)
        ensures
            seen(r) == self.user_config_dir(facts@),
    ;

    /// The directory in which older versions kept the user's configuration.
    fn get_legacy_user_config_dir(&self, facts: &Facts) -> (r: Result<Option<String>, Query>)
        ensures
            seen(r) == self.legacy_user_config_dir(facts@),
    ;

    /// The directory of the configuration of the whole system.
    fn get_system_config_javadir(&self) -> (r: Option<String>)
        ensures
            r.deep_view() == self.system_config_javadir(),
    ;

    /// The directory in which older versions kept the configuration of the whole system.
    fn get_legacy_system_config_javadir(&self) -> (r: Option<String>)
        ensures
            r.deep_view() == self.legacy_system_config_javadir(),
    ;

    /// The runtime that the platform's registry names.
    fn get_registry_java(&self, facts: &Facts) -> (r: Result<Option<String>, Query>)
        ensures
            seen(r) == self.registry_java(facts@),
    ;

    /// A platform asks only for what is missing: where it cannot name one of its places,
    /// it names a question to which the table has no usable answer.
    proof fn law_asks_what_is_missing(&self, k: Knowledge)
        ensures
            asks_what_is_missing(self.home(k), k),
            asks_what_is_missing(self.user_config_dir(k), k),
            asks_what_is_missing(self.legacy_user_config_dir(k), k),
            asks_what_is_missing(self.registry_java(k), k),
    ;

    /// The places that a platform names stay when the table learns more.
    proof fn law_stays_when_more_is_known(&self, k: Knowledge, more: Knowledge)
        requires
            k.within(more),
        ensures
            stays(self.home(k), self.home(more)),
            stays(self.user_config_dir(k), self.user_config_dir(more)),
            stays(self.legacy_user_config_dir(k), self.legacy_user_config_dir(more)),
            stays(self.registry_java(k), self.registry_java(more)),
    ;
}

/// The home directory stays when the table learns more.
pub proof fn lemma_home_stays(variable: Seq<char>, k: Knowledge, more: Knowledge)
    requires
        k.within(more),
    ensures
        stays(home_from(variable, k), home_from(variable, more)),
{
    lemma_answers_stay(k, more, Topic::EnvVar, variable);
    match k.text(Topic::EnvVar, variable) {
        Ok(Some(dir)) => {
            lemma_answers_stay(k, more, Topic::IsDir, dir);
        },
        _ => {},
    }
}

/// Linux and the systems that resemble it.
#[derive(Debug)]
pub struct Linux {
    pub verbose: bool,
    pub al: AdvancedLogging,
}

impl Linux {
    /// A Linux with the logging set-up that holds before any configuration is read.
    pub fn new(debug: bool) -> (r: Linux)
        ensures
            r.verbose == debug,
            r.al@ == crate::log_helper::default_logging(),
    {
        Linux { verbose: debug, al: AdvancedLogging::default() }
    }

    /// A Linux with a logging set-up that was read from the configuration.
    pub fn with_logging(debug: bool, al: AdvancedLogging) -> (r: Linux)
        ensures
            r.verbose == debug,
            r.al == al,
    {
        Linux { verbose: debug, al }
    }
}

impl Os for Linux {
    open spec fn verbose(&self) -> bool {
        self.verbose
    }

    open spec fn console(&self) -> bool {
        true
    }

    open spec fn logging(&self) -> LoggingView {
        self.al@
    }

    open spec fn separator(&self) -> char {
        ':'
    }

    open spec fn suffixes(&self) -> Seq<Seq<char>> {
        seq![""@]
    }

    open spec fn home(&self, k: Knowledge) -> Result<Option<Seq<char>>, QueryView> {
        home_from("HOME"@, k)
    }

    open spec fn user_config_dir(&self, k: Knowledge) -> Result<Option<Seq<char>>, QueryView> {
        match xdg_config_dir(home_from("HOME"@, k), k) {
            Err(q) => Err(q),
            Ok(dir) => Ok(extended(dir, "icedtea-web"@)),
        }
    }

    open spec fn legacy_user_config_dir(&self, k: Knowledge) -> Result<
        Option<Seq<char>>,
        QueryView,
    > {
        match home_from("HOME"@, k) {
            Err(q) => Err(q),
            Ok(dir) => Ok(extended(dir, ".icedtea"@)),
        }
    }

    open spec fn system_config_javadir(&self) -> Option<Seq<char>> {
        Some("/etc/.java/deployment"@)
    }

    open spec fn legacy_system_config_javadir(&self) -> Option<Seq<char>> {
        Some("/etc/.java/.deploy"@)
    }

    open spec fn registry_java(&self, k: Knowledge) -> Result<Option<Seq<char>>, QueryView> {
        Ok(None)
    }

    fn is_verbose(&self) -> (r: bool) {
        self.verbose
    }

    fn inside_console(&self) -> (r: bool) {
        true
    }

    fn advanced_logging(&self) -> (r: &AdvancedLogging) {
        &self.al
    }

    fn get_classpath_separator(&self) -> (r: char) {
        ':'
    }

    fn get_exec_suffixes(&self) -> (r: Vec<String>) {
        let mut v: Vec<String> = Vec::new();
        v.push(String::from_str(""));
        assert(v.deep_view() =~= seq![""@]);
        v
    }

    fn get_home(&self, facts: &Facts) -> (r: Result<Option<String>, Query>) {
        home_dir("HOME", facts)
    }

    fn get_user_config_dir(&self, facts: &Facts) -> (r: Result<Option<String>, Query>) {
        let dir = config_dir_from("HOME", facts)?;
        Ok(extend(dir, ICEDTEA_WEB))
    }

    fn get_legacy_user_config_dir(&self, facts: &Facts) -> (r: Result<Option<String>, Query>) {
        let home = home_dir("HOME", facts)?;
        Ok(extend(home, ".icedtea"))
    }

    fn get_system_config_javadir(&self) -> (r: Option<String>) {
        Some(String::from_str("/etc/.java/deployment"))
    }

    fn get_legacy_system_config_javadir(&self) -> (r: Option<String>) {
        Some(String::from_str("/etc/.java/.deploy"))
    }

    fn get_registry_java(&self, facts: &Facts) -> (r: Result<Option<String>, Query>) {
        Ok(None)
    }

    proof fn law_asks_what_is_missing(&self, k: Knowledge) {
    }

    proof fn law_stays_when_more_is_known(&self, k: Knowledge, more: Knowledge) {
        lemma_home_stays("HOME"@, k, more);
        lemma_answers_stay(k, more, Topic::EnvVar, "XDG_CONFIG_HOME"@);
    }
}

/// Windows.
#[derive(Debug)]
pub struct Windows {
    pub verbose: bool,
    pub al: AdvancedLogging,
    pub ic: bool,
}

impl Windows {
    /// A Windows with the logging set-up that holds before any configuration is read;
    /// `ic` says whether the launcher is attached to a console.
    pub fn new(debug: bool, ic: bool) -> (r: Windows)
        ensures
            r.verbose == debug,
            r.ic == ic,
            r.al@ == crate::log_helper::default_logging(),
    {
        Windows { verbose: debug, al: AdvancedLogging::default(), ic }
    }

    /// A Windows with a logging set-up that was read from the configuration.
    pub fn with_logging(debug: bool, al: AdvancedLogging, ic: bool) -> (r: Windows)
        ensures
            r.verbose == debug,
            r.ic == ic,
            r.al == al,
    {
        Windows { verbose: debug, al, ic }
    }
}

impl Os for Windows {
    open spec fn verbose(&self) -> bool {
        self.verbose
    }

    open spec fn console(&self) -> bool {
        self.ic
    }

    open spec fn logging(&self) -> LoggingView {
        self.al@
    }

    open spec fn separator(&self) -> char {
        ';'
    }

    open spec fn suffixes(&self) -> Seq<Seq<char>> {
        seq![".exe"@]
    }

    open spec fn home(&self, k: Knowledge) -> Result<Option<Seq<char>>, QueryView> {
        home_from("USERPROFILE"@, k)
    }

    open spec fn user_config_dir(&self, k: Knowledge) -> Result<Option<Seq<char>>, QueryView> {
        match home_from("USERPROFILE"@, k) {
            Err(q) => Err(q),
            Ok(dir) => Ok(extended(extended(dir, ".config"@), "icedtea-web"@)),
        }
    }

    open spec fn legacy_user_config_dir(&self, k: Knowledge) -> Result<
        Option<Seq<char>>,
        QueryView,
    > {
        Ok(None)
    }

    open spec fn system_config_javadir(&self) -> Option<Seq<char>> {
        None
    }

    open spec fn legacy_system_config_javadir(&self) -> Option<Seq<char>> {
        None
    }

    open spec fn registry_java(&self, k: Knowledge) -> Result<Option<Seq<char>>, QueryView> {
        registry_path(k)
    }

    fn is_verbose(&self) -> (r: bool) {
        self.verbose
    }

    fn inside_console(&self) -> (r: bool) {
        self.ic
    }

    fn advanced_logging(&self) -> (r: &AdvancedLogging) {
        &self.al
    }

    fn get_classpath_separator(&self) -> (r: char) {
        ';'
    }

    fn get_exec_suffixes(&self) -> (r: Vec<String>) {
        let mut v: Vec<String> = Vec::new();
        v.push(String::from_str(".exe"));
        assert(v.deep_view() =~= seq![".exe"@]);
        v
    }

    fn get_home(&self, facts: &Facts) -> (r: Result<Option<String>, Query>) {
        home_dir("USERPROFILE", facts)
    }

    fn get_user_config_dir(&self, facts: &Facts) -> (r: Result<Option<String>, Query>) {
        let home = home_dir("USERPROFILE", facts)?;
        Ok(extend(extend(home, ".config"), ICEDTEA_WEB))
    }

    fn get_legacy_user_config_dir(&self, facts: &Facts) -> (r: Result<Option<String>, Query>) {
        Ok(None)
    }

    fn get_system_config_javadir(&self) -> (r: Option<String>) {
        None
    }

    fn get_legacy_system_config_javadir(&self) -> (r: Option<String>) {
        None
    }

    fn get_registry_java(&self, facts: &Facts) -> (r: Result<Option<String>, Query>) {
        java_registry_path(facts)
    }

    proof fn law_asks_what_is_missing(&self, k: Knowledge) {
        lemma_registry_asks_what_is_missing(k);
    }

    proof fn law_stays_when_more_is_known(&self, k: Knowledge, more: Knowledge) {
        lemma_home_stays("USERPROFILE"@, k, more);
        lemma_registry_stays(k, more);
    }
}

} // verus!
