//! Values read from one configuration file, and the tests that a value has to pass.

use crate::facts::{
    asks_what_is_missing, lemma_answers_stay, seen, stays, Facts, Knowledge, Query, QueryView,
    Topic,
};
use crate::dirs_paths_helper::is_file;
use crate::hardcoded_paths::{get_jre, JRE};
use crate::journal::glue;
use crate::os_access::Os;
use crate::paths::{join, path_join};
use crate::property::{check_file_for_property, lookup};
use crate::text::{eq_ignore_case, same_ignoring_case, trim, trimmed};
use vstd::prelude::*;
use vstd::string::*;

verus! {

/// Key of the directory of the runtime to use.
pub const JRE_PROPERTY_NAME: &'static str = "deployment.jre.dir";

/// Key that switches the notes for debugging on.
pub const VERBOSE_PROPERTY_NAME: &'static str = "deployment.log";

/// Key of the directory for log files.
pub const KEY_USER_LOG_DIR: &'static str = "deployment.user.logdir";

/// Key that switches logging to a file on.
pub const KEY_ENABLE_LOGGING_TOFILE: &'static str = "deployment.log.file";

/// Key that switches logging to the standard streams on or off.
pub const KEY_ENABLE_LOGGING_TOSTREAMS: &'static str = "deployment.log.stdstreams";

/// Key that switches logging to the system log on or off.
pub const KEY_ENABLE_LOGGING_TOSYSTEMLOG: &'static str = "deployment.log.system";

/// Whether a value says "true", in any mix of capital and small letters.
pub open spec fn says_true(val: Seq<char>) -> bool {
    same_ignoring_case(trimmed(val), "true"@)
}

/// Whether a value says "false", in any mix of capital and small letters.
pub open spec fn says_false(val: Seq<char>) -> bool {
    same_ignoring_case(trimmed(val), "false"@)
}

/// Whether a value is a boolean.
pub fn verify_bool_string(val: &String) -> (r: bool)
    ensures
        r == (says_true(val@) || says_false(val@)),
{
    let t = trim(val.as_str());
    eq_ignore_case(t.as_str(), "true") || eq_ignore_case(t.as_str(), "false")
}

/// The boolean that a value stands for: true for "true", false for anything else.
pub fn str_to_bool(val: &String) -> (r: bool)
    ensures
        r == says_true(val@),
{
    let t = trim(val.as_str());
    eq_ignore_case(t.as_str(), "true")
}

/// Searches the lines of a configuration file for the directory of the runtime.
pub fn check_file_for_property_jredir(lines: &Vec<String>) -> (r: Option<String>)
    ensures
        r.deep_view() == lookup(lines.deep_view(), "deployment.jre.dir"@),
{
    check_file_for_property(lines, JRE_PROPERTY_NAME)
}

/// The value of `key` in `file`: `None` where there is no file, where the file cannot be
/// read, and where no line of it defines the key.
pub open spec fn property_in(file: Option<Seq<char>>, key: Seq<char>, k: Knowledge) -> Result<
    Option<Seq<char>>,
    QueryView,
> {
    match file {
        None => Ok(None),
        Some(path) => match k.lines(Topic::FileLines, path) {
            Err(q) => Err(q),
            Ok(None) => Ok(None),
            Ok(Some(lines)) => Ok(lookup(lines, key)),
        },
    }
}

/// Reads the value of `key` from a configuration file.
pub fn get_property_from_file(file: Option<String>, key: &str, facts: &Facts) -> (r: Result<
    Option<String>,
    Query,
>)
    ensures
        seen(r) == property_in(file.deep_view(), key@, facts@),
{
    match file {
        None => Ok(None),
        Some(path) => {
            match facts.lines(Topic::FileLines, path.as_str())? {
                None => Ok(None),
                Some(lines) => Ok(check_file_for_property(&lines, key)),
            }
        },
    }
}

/// Reads the directory of the runtime from a configuration file.
pub fn get_jre_from_file(file: Option<String>, facts: &Facts) -> (r: Result<
    Option<String>,
    Query,
>)
    ensures
        seen(r) == property_in(file.deep_view(), "deployment.jre.dir"@, facts@),
{
    get_property_from_file(file, JRE_PROPERTY_NAME, facts)
}

/// Where the `java` executable with the ending `suffix` is in a runtime.
pub open spec fn java_in(dir: Seq<char>, suffix: Seq<char>) -> Seq<char> {
    path_join(path_join(dir, "bin"@), "java"@ + suffix)
}

/// Whether a directory holds a runtime, trying the endings from number `i` on: it does
/// when `bin/java` with one of the endings is a regular file.
pub open spec fn holds_java_from(
    dir: Seq<char>,
    suffixes: Seq<Seq<char>>,
    k: Knowledge,
    i: int,
) -> Result<bool, QueryView>
    decreases suffixes.len() - i,
{
    if i < 0 || i >= suffixes.len() {
        Ok(false)
    } else {
        match k.flag(Topic::IsFile, java_in(dir, suffixes[i])) {
            Err(q) => Err(q),
            Ok(true) => Ok(true),
            Ok(false) => holds_java_from(dir, suffixes, k, i + 1),
        }
    }
}

/// Whether a directory holds a runtime.
pub open spec fn holds_java(dir: Seq<char>, suffixes: Seq<Seq<char>>, k: Knowledge) -> Result<
    bool,
    QueryView,
> {
    holds_java_from(dir, suffixes, k, 0)
}

/// Whether `spath` is the directory of a Java runtime whose executable has one of the
/// endings in `suffixes`.
pub fn holds_runtime(spath: &str, suffixes: &Vec<String>, facts: &Facts) -> (r: Result<
    bool,
    Query,
>)
    ensures
        seen(r) == holds_java(spath@, suffixes.deep_view(), facts@),
{
    let file = join(spath, "bin");
    let mut i: usize = 0;
    while i < suffixes.len()
        invariant
            i <= suffixes.len(),
            file@ == path_join(spath@, "bin"@),
            holds_java(spath@, suffixes.deep_view(), facts@) == holds_java_from(
                spath@,
                suffixes.deep_view(),
                facts@,
                i as int,
            ),
        decreases suffixes.len() - i,
    {
        let bin_name = glue("java", suffixes[i].as_str());
        let full_path = join(file.as_str(), bin_name.as_str());
        assert(suffixes.deep_view()[i as int] == suffixes@[i as int]@);
        if is_file(full_path.as_str(), facts)? {
            return Ok(true);
        }
        i += 1;
    }
    Ok(false)
}

/// Whether `spath` is the directory of a Java runtime on the platform `os`.
pub fn verify_jdk_string<O: Os>(spath: &str, os: &O, facts: &Facts) -> (r: Result<bool, Query>)
    ensures
        seen(r) == holds_java(spath@, os.suffixes(), facts@),
{
    let suffixes = os.get_exec_suffixes();
    holds_runtime(spath, &suffixes, facts)
}

/// A test that a configured value has to pass before it is used.
pub trait Validator {
    /// Whether the value passes; `suffixes` are the endings that the name of an executable
    /// may have on the platform.
    spec fn accepts(&self, s: Seq<char>, suffixes: Seq<Seq<char>>, k: Knowledge) -> Result<
        bool,
        QueryView,
    >;

    /// What the user is told about a value that did not pass.
    spec fn fail_message(&self, key: Seq<char>, value: Seq<char>, file: Seq<char>) -> Seq<char>;

    /// Puts the value `s` to the test.
    fn validate(&self, s: &str, suffixes: &Vec<String>, facts: &Facts) -> (r: Result<
        bool,
        Query,
    >)
        ensures
            seen(r) == self.accepts(s@, suffixes.deep_view(), facts@),
    ;

    /// Words the report about the `value` that was read from `file` under `key` and did
    /// not pass. The file has to be named.
    fn get_fail_message(&self, key: &str, value: &str, file: &Option<String>) -> (r: String)
        requires
            file is Some,
        ensures
            r@ == self.fail_message(key@, value@, file.unwrap()@),
    ;

    /// A test asks only for what is missing.
    proof fn law_asks_what_is_missing(&self, s: Seq<char>, suffixes: Seq<Seq<char>>, k: Knowledge)
        ensures
            asks_what_is_missing(self.accepts(s, suffixes, k), k),
    ;

    /// The verdict of a test stays when the table learns more.
    proof fn law_stays_when_more_is_known(
        &self,
        s: Seq<char>,
        suffixes: Seq<Seq<char>>,
        k: Knowledge,
        more: Knowledge,
    )
        requires
            k.within(more),
        ensures
            stays(self.accepts(s, suffixes, k), self.accepts(s, suffixes, more)),
    ;
}

/// Passes the directories that hold a Java runtime.
pub struct JreValidator {}

impl Validator for JreValidator {
    open spec fn accepts(&self, s: Seq<char>, suffixes: Seq<Seq<char>>, k: Knowledge) -> Result<
        bool,
        QueryView,
    > {
        holds_java(s, suffixes, k)
    }

    open spec fn fail_message(&self, key: Seq<char>, value: Seq<char>, file: Seq<char>) -> Seq<
        char,
    > {
        "Your custom JRE "@ + value + " read from "@ + file + " under key "@ + key
            + " is not valid."@ + " Trying other config files, then using default ("@
            + JRE@ + ", "@ + JRE@
            + ", registry or JAVA_HOME) in attempt to start. Please fix this."@
    }

    fn validate(&self, s: &str, suffixes: &Vec<String>, facts: &Facts) -> (r: Result<
        bool,
        Query,
    >) {
        holds_runtime(s, suffixes, facts)
    }

    fn get_fail_message(&self, key: &str, value: &str, file: &Option<String>) -> (r: String) {
        let mut res = String::from_str("Your custom JRE ");
        res.append(value);
        res.append(" read from ");
        res.append(file.as_ref().unwrap().as_str());
        res.append(" under key ");
        res.append(key);
        res.append(" is not valid.");
        res.append(" Trying other config files, then using default (");
        res.append(get_jre());
        res.append(", ");
        res.append(get_jre());
        res.append(", registry or JAVA_HOME) in attempt to start. Please fix this.");
        res
    }

    proof fn law_asks_what_is_missing(&self, s: Seq<char>, suffixes: Seq<Seq<char>>, k: Knowledge) {
        lemma_holds_java_asks_what_is_missing(s, suffixes, k, 0);
    }

    proof fn law_stays_when_more_is_known(
        &self,
        s: Seq<char>,
        suffixes: Seq<Seq<char>>,
        k: Knowledge,
        more: Knowledge,
    ) {
        lemma_holds_java_stays(s, suffixes, k, more, 0);
    }
}

/// Passes "true" and "false".
pub struct BoolValidator {}

impl Validator for BoolValidator {
    open spec fn accepts(&self, s: Seq<char>, suffixes: Seq<Seq<char>>, k: Knowledge) -> Result<
        bool,
        QueryView,
    > {
        Ok(says_true(s) || says_false(s))
    }

    open spec fn fail_message(&self, key: Seq<char>, value: Seq<char>, file: Seq<char>) -> Seq<
        char,
    > {
        "the boolean value of "@ + value + " read from "@ + file + " under key "@ + key
            + " is not valid. Expected true or false (key insensitive)"@
    }

    fn validate(&self, s: &str, suffixes: &Vec<String>, facts: &Facts) -> (r: Result<
        bool,
        Query,
    >) {
        Ok(verify_bool_string(&String::from_str(s)))
    }

    fn get_fail_message(&self, key: &str, value: &str, file: &Option<String>) -> (r: String) {
        let mut res = String::from_str("the boolean value of ");
        res.append(value);
        res.append(" read from ");
        res.append(file.as_ref().unwrap().as_str());
        res.append(" under key ");
        res.append(key);
        res.append(" is not valid. Expected true or false (key insensitive)");
        res
    }

    proof fn law_asks_what_is_missing(&self, s: Seq<char>, suffixes: Seq<Seq<char>>, k: Knowledge) {
    }

    proof fn law_stays_when_more_is_known(
        &self,
        s: Seq<char>,
        suffixes: Seq<Seq<char>>,
        k: Knowledge,
        more: Knowledge,
    ) {
    }
}

/// Passes everything.
pub struct NotMandatoryPathValidator {}

impl Validator for NotMandatoryPathValidator {
    open spec fn accepts(&self, s: Seq<char>, suffixes: Seq<Seq<char>>, k: Knowledge) -> Result<
        bool,
        QueryView,
    > {
        Ok(true)
    }

    open spec fn fail_message(&self, key: Seq<char>, value: Seq<char>, file: Seq<char>) -> Seq<
        char,
    > {
        "the String value of "@ + value + " read from "@ + file + " under key "@ + key
            + " is not valid. Expected String"@
    }

    fn validate(&self, s: &str, suffixes: &Vec<String>, facts: &Facts) -> (r: Result<
        bool,
        Query,
    >) {
        Ok(true)
    }

    fn get_fail_message(&self, key: &str, value: &str, file: &Option<String>) -> (r: String) {
        let mut res = String::from_str("the String value of ");
        res.append(value);
        res.append(" read from ");
        res.append(file.as_ref().unwrap().as_str());
        res.append(" under key ");
        res.append(key);
        res.append(" is not valid. Expected String");
        res
    }

    proof fn law_asks_what_is_missing(&self, s: Seq<char>, suffixes: Seq<Seq<char>>, k: Knowledge) {
    }

    proof fn law_stays_when_more_is_known(
        &self,
        s: Seq<char>,
        suffixes: Seq<Seq<char>>,
        k: Knowledge,
        more: Knowledge,
    ) {
    }
}

/// The test of a directory asks only for what is missing.
pub proof fn lemma_holds_java_asks_what_is_missing(
    dir: Seq<char>,
    suffixes: Seq<Seq<char>>,
    k: Knowledge,
    i: int,
)
    ensures
        asks_what_is_missing(holds_java_from(dir, suffixes, k, i), k),
    decreases suffixes.len() - i,
{
    if 0 <= i < suffixes.len() {
        lemma_holds_java_asks_what_is_missing(dir, suffixes, k, i + 1);
    }
}

/// A directory holds a runtime exactly when `bin/java`, with one of the endings that the
/// platform knows, is a regular file: where the facts say so of ending number `i` and
/// deny it of the endings before, the directory passes.
pub proof fn law_runtime_has_bin_java(
    dir: Seq<char>,
    suffixes: Seq<Seq<char>>,
    k: Knowledge,
    from: int,
    i: int,
)
    requires
        0 <= from <= i < suffixes.len(),
        k.flag(Topic::IsFile, java_in(dir, suffixes[i])) == Ok::<bool, QueryView>(true),
        forall|j: int|
            from <= j < i ==> k.flag(Topic::IsFile, java_in(dir, #[trigger] suffixes[j])) == Ok::<
                bool,
                QueryView,
            >(false),
    ensures
        holds_java_from(dir, suffixes, k, from) == Ok::<bool, QueryView>(true),
    decreases i - from,
{
    if from < i {
        law_runtime_has_bin_java(dir, suffixes, k, from + 1, i);
    }
}

/// A directory in which `bin/java` is a regular file with none of the endings does not
/// pass.
pub proof fn law_no_bin_java_no_runtime(
    dir: Seq<char>,
    suffixes: Seq<Seq<char>>,
    k: Knowledge,
    from: int,
)
    requires
        0 <= from,
        forall|j: int|
            from <= j < suffixes.len() ==> k.flag(
                Topic::IsFile,
                java_in(dir, #[trigger] suffixes[j]),
            ) == Ok::<bool, QueryView>(false),
    ensures
        holds_java_from(dir, suffixes, k, from) == Ok::<bool, QueryView>(false),
    decreases suffixes.len() - from,
{
    if from < suffixes.len() {
        law_no_bin_java_no_runtime(dir, suffixes, k, from + 1);
    }
}

/// The verdict on a directory stays when the table learns more.
pub proof fn lemma_holds_java_stays(
    dir: Seq<char>,
    suffixes: Seq<Seq<char>>,
    k: Knowledge,
    more: Knowledge,
    i: int,
)
    requires
        k.within(more),
    ensures
        stays(holds_java_from(dir, suffixes, k, i), holds_java_from(dir, suffixes, more, i)),
    decreases suffixes.len() - i,
{
    if 0 <= i < suffixes.len() {
        lemma_answers_stay(k, more, Topic::IsFile, java_in(dir, suffixes[i]));
        lemma_holds_java_stays(dir, suffixes, k, more, i + 1);
    }
}

/// What a file holds for a key stays when the table learns more.
pub proof fn lemma_property_stays(
    file: Option<Seq<char>>,
    key: Seq<char>,
    k: Knowledge,
    more: Knowledge,
)
    requires
        k.within(more),
    ensures
        stays(property_in(file, key, k), property_in(file, key, more)),
{
    match file {
        Some(path) => {
            lemma_answers_stay(k, more, Topic::FileLines, path);
        },
        None => {},
    }
}

} // verus!
