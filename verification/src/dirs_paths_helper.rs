//! Where the configuration files are, and what the facts say of a path.

use crate::facts::{
    asks_what_is_missing, lemma_answers_stay, seen, stays, Facts, Knowledge, Query, QueryView,
    Topic,
};
use crate::os_access::{extend, extended, home_dir, home_from, Os};
use crate::paths::{file_name, parent, path_file_name, path_parent};
use vstd::prelude::*;
use vstd::string::*;

verus! {

/// Name of the directory that holds the launcher's configuration.
pub const ICEDTEA_WEB: &'static str = "icedtea-web";

/// Name of the configuration file.
pub const DEPLOYMENT_PROPERTIES: &'static str = "deployment.properties";

/// The directory for configuration: what `XDG_CONFIG_HOME` names, or else `.config` in
/// the home directory.
pub open spec fn xdg_config_dir(home: Result<Option<Seq<char>>, QueryView>, k: Knowledge) -> Result<
    Option<Seq<char>>,
    QueryView,
> {
    match k.text(Topic::EnvVar, "XDG_CONFIG_HOME"@) {
        Err(q) => Err(q),
        Ok(Some(dir)) => Ok(Some(dir)),
        Ok(None) => match home {
            Err(q) => Err(q),
            Ok(h) => Ok(extended(h, ".config"@)),
        },
    }
}

/// The directory for configuration where the home directory is named by `home_variable`.
pub fn config_dir_from(home_variable: &str, facts: &Facts) -> (r: Result<Option<String>, Query>)
    ensures
        seen(r) == xdg_config_dir(home_from(home_variable@, facts@), facts@),
{
    match facts.text(Topic::EnvVar, "XDG_CONFIG_HOME")? {
        Some(war) => Ok(Some(war)),
        None => {
            let home = home_dir(home_variable, facts)?;
            Ok(extend(home, ".config"))
        },
    }
}

/// The directory under which the user's configuration lives.
pub fn get_xdg_config_dir<O: Os>(os: &O, facts: &Facts) -> (r: Result<Option<String>, Query>)
    ensures
        seen(r) == xdg_config_dir(os.home(facts@), facts@),
{
    match facts.text(Topic::EnvVar, "XDG_CONFIG_HOME")? {
        Some(war) => Ok(Some(war)),
        None => {
            let home = os.get_home(facts)?;
            Ok(extend(home, ".config"))
        },
    }
}

/// The configuration file in a directory, where there is a directory.
pub fn append_deployment_file(dir: Option<String>) -> (r: Option<String>)
    ensures
        r.deep_view() == extended(dir.deep_view(), "deployment.properties"@),
{
    extend(dir, DEPLOYMENT_PROPERTIES)
}

/// The four places where a configuration file may be, in the order in which they are
/// read: the user's, the user's of older versions, the system's of older versions, the
/// system's. A place that the platform does not have is `None`.
pub open spec fn config_files<O: Os>(os: &O, k: Knowledge) -> Result<
    Seq<Option<Seq<char>>>,
    QueryView,
> {
    match os.user_config_dir(k) {
        Err(q) => Err(q),
        Ok(user) => match os.legacy_user_config_dir(k) {
            Err(q) => Err(q),
            Ok(legacy_user) => Ok(
                seq![
                    extended(user, "deployment.properties"@),
                    extended(legacy_user, "deployment.properties"@),
                    extended(os.legacy_system_config_javadir(), "deployment.properties"@),
                    extended(os.system_config_javadir(), "deployment.properties"@),
                ],
            ),
        },
    }
}

/// The list of the configuration files asks only for what is missing.
pub proof fn lemma_config_files_ask_what_is_missing<O: Os>(os: &O, k: Knowledge)
    ensures
        asks_what_is_missing(config_files(os, k), k),
{
    os.law_asks_what_is_missing(k);
}

/// The directory of the user's configuration.
pub fn get_itw_config_dir<O: Os>(os: &O, facts: &Facts) -> (r: Result<Option<String>, Query>)
    ensures
        seen(r) == os.user_config_dir(facts@),
{
    os.get_user_config_dir(facts)
}

/// The directory in which older versions kept the user's configuration.
pub fn get_itw_legacy_config_dir<O: Os>(os: &O, facts: &Facts) -> (r: Result<
    Option<String>,
    Query,
>)
    ensures
        seen(r) == os.legacy_user_config_dir(facts@),
{
    os.get_legacy_user_config_dir(facts)
}

/// The user's configuration file.
pub fn get_itw_config_file<O: Os>(os: &O, facts: &Facts) -> (r: Result<Option<String>, Query>)
    ensures
        seen(r) == match os.user_config_dir(facts@) {
            Err(q) => Err(q),
            Ok(dir) => Ok(extended(dir, "deployment.properties"@)),
        },
{
    let dir = get_itw_config_dir(os, facts)?;
    Ok(append_deployment_file(dir))
}

/// The user's configuration file as older versions placed it.
pub fn get_itw_legacy_config_file<O: Os>(os: &O, facts: &Facts) -> (r: Result<
    Option<String>,
    Query,
>)
    ensures
        seen(r) == match os.legacy_user_config_dir(facts@) {
            Err(q) => Err(q),
            Ok(dir) => Ok(extended(dir, "deployment.properties"@)),
        },
{
    let dir = get_itw_legacy_config_dir(os, facts)?;
    Ok(append_deployment_file(dir))
}

/// The system's configuration file as older versions placed it.
pub fn get_itw_legacy_global_config_file<O: Os>(os: &O) -> (r: Option<String>)
    ensures
        r.deep_view() == extended(os.legacy_system_config_javadir(), "deployment.properties"@),
{
    append_deployment_file(os.get_legacy_system_config_javadir())
}

/// The system's configuration file.
pub fn get_itw_global_config_file<O: Os>(os: &O) -> (r: Option<String>)
    ensures
        r.deep_view() == extended(os.system_config_javadir(), "deployment.properties"@),
{
    append_deployment_file(os.get_system_config_javadir())
}

/// Whether the facts say that `path` is a regular file.
pub fn is_file(path: &str, facts: &Facts) -> (r: Result<bool, Query>)
    ensures
        seen(r) == facts@.flag(Topic::IsFile, path@),
{
    facts.flag(Topic::IsFile, path)
}

/// Whether the facts say that `path` is a directory.
pub fn is_dir(path: &str, facts: &Facts) -> (r: Result<bool, Query>)
    ensures
        seen(r) == facts@.flag(Topic::IsDir, path@),
{
    facts.flag(Topic::IsDir, path)
}

/// Whether the facts say that `path` exists.
pub fn is_present(path: &str, facts: &Facts) -> (r: Result<bool, Query>)
    ensures
        seen(r) == facts@.flag(Topic::Exists, path@),
{
    facts.flag(Topic::Exists, path)
}

/// `path` with its links resolved, as the facts have it; `None` where it could not be
/// resolved.
pub fn canonicalize(full_path: &str, facts: &Facts) -> (r: Result<Option<String>, Query>)
    ensures
        seen(r) == facts@.text(Topic::Canonical, full_path@),
{
    facts.text(Topic::Canonical, full_path)
}

/// The path of the running program. A table that records no path for it counts as a
/// table that does not know it yet.
pub open spec fn program(k: Knowledge) -> Result<Seq<char>, QueryView> {
    match k.text(Topic::CurrentProgram, ""@) {
        Ok(Some(p)) => Ok(p),
        _ => Err((Topic::CurrentProgram, ""@)),
    }
}

/// The directory of a program: its path without the last component, or the path itself
/// where it has no more than one.
pub open spec fn directory_of(p: Seq<char>) -> Seq<char> {
    match path_parent(p) {
        Some(d) => d,
        None => p,
    }
}

/// The name of a program: the last component of its path, or the path itself where it
/// does not end in a name.
pub open spec fn name_of(p: Seq<char>) -> Seq<char> {
    match path_file_name(p) {
        Some(n) => n,
        None => p,
    }
}

/// The path of the running program.
pub fn current_program(facts: &Facts) -> (r: Result<String, Query>)
    ensures
        seen(r) == program(facts@),
{
    match facts.text(Topic::CurrentProgram, "")? {
        Some(p) => Ok(p),
        None => Err(Query::new(Topic::CurrentProgram, "")),
    }
}

/// The directory of `path`.
pub fn directory(path: &str) -> (r: String)
    ensures
        r@ == directory_of(path@),
{
    match parent(path) {
        Some(d) => d,
        None => String::from_str(path),
    }
}

/// The directory that holds the running program.
pub fn current_program_parent(facts: &Facts) -> (r: Result<String, Query>)
    ensures
        seen(r) == match program(facts@) {
            Err(q) => Err(q),
            Ok(p) => Ok(directory_of(p)),
        },
{
    let p = current_program(facts)?;
    Ok(directory(p.as_str()))
}

/// The file name of the running program.
pub fn current_program_name(facts: &Facts) -> (r: Result<String, Query>)
    ensures
        seen(r) == match program(facts@) {
            Err(q) => Err(q),
            Ok(p) => Ok(name_of(p)),
        },
{
    let p = current_program(facts)?;
    match file_name(p.as_str()) {
        Some(n) => Ok(n),
        None => Ok(p),
    }
}

/// The list of the configuration files stays when the table learns more.
pub proof fn lemma_config_files_stay<O: Os>(os: &O, k: Knowledge, more: Knowledge)
    requires
        k.within(more),
    ensures
        stays(config_files(os, k), config_files(os, more)),
{
    os.law_stays_when_more_is_known(k, more);
}

/// The path of the running program stays when the table learns more.
pub proof fn lemma_program_stays(k: Knowledge, more: Knowledge)
    requires
        k.within(more),
    ensures
        stays(program(k), program(more)),
{
    lemma_answers_stay(k, more, Topic::CurrentProgram, ""@);
}

} // verus!
