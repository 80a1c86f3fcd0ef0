//! Values looked up in the configuration files, one file after another.
//!
//! The files are read in a fixed order. The first file that holds a value which passes the
//! test decides. A value that does not pass is reported and the next file is read.

use crate::dirs_paths_helper::{
    config_files, get_itw_config_file, get_itw_global_config_file, get_itw_legacy_config_file,
    get_itw_legacy_global_config_file,
};
use crate::facts::{asks_what_is_missing, stays, Facts, Knowledge, Query};
use crate::journal::{extends, glue, glue3, settled, Journal, Level, NoteView, Outcome};
use crate::os_access::Os;
use crate::paths::{join, path_join};
use crate::property_from_file::{
    get_property_from_file, lemma_property_stays, property_in, says_true, str_to_bool,
    BoolValidator, JreValidator,
    NotMandatoryPathValidator, Validator, JRE_PROPERTY_NAME, KEY_ENABLE_LOGGING_TOFILE,
    KEY_ENABLE_LOGGING_TOSTREAMS, KEY_ENABLE_LOGGING_TOSYSTEMLOG, KEY_USER_LOG_DIR,
    VERBOSE_PROPERTY_NAME,
};
use crate::text::{decimal, decimal_of};
use vstd::prelude::*;
use vstd::string::*;

verus! {

/// The configuration files in the order in which they are read.
pub fn get_basic_array<O: Os>(os: &O, facts: &Facts) -> (r: Result<Vec<Option<String>>, Query>)
    ensures
        crate::facts::seen(r) == config_files(os, facts@),
{
    let user = get_itw_config_file(os, facts)?;
    let legacy_user = get_itw_legacy_config_file(os, facts)?;
    let mut array: Vec<Option<String>> = Vec::new();
    array.push(user);
    array.push(legacy_user);
    array.push(get_itw_legacy_global_config_file(os));
    array.push(get_itw_global_config_file(os));
    proof {
        let expected = config_files(os, facts@)->Ok_0;
        assert(array.deep_view() =~= expected);
    }
    Ok(array)
}

/// The name under which a place for a configuration file is noted.
pub open spec fn place_name(file: Option<Seq<char>>) -> Seq<char> {
    match file {
        Some(f) => f,
        None => "None"@,
    }
}

/// The note that a file is about to be read.
pub open spec fn checking_note(key: Seq<char>, file: Option<Seq<char>>) -> NoteView {
    (Level::Debug, "itw-rust-debug: checking "@ + key + " in: "@ + place_name(file))
}

/// The note that a file holds a value.
pub open spec fn located_note(value: Seq<char>, file: Seq<char>) -> NoteView {
    (Level::Debug, "itw-rust-debug: located "@ + value + " in file "@ + file)
}

/// The note that a file holds no value.
pub open spec fn not_located_note() -> NoteView {
    (Level::Debug, "itw-rust-debug: property not located or file inaccessible"@)
}

/// The value of `key`, reading `files` from number `i` on: that of the first file whose
/// value passes the test. A value that fails is reported to the user, by name, with its
/// key and its file, and the search goes on.
pub open spec fn key_search<V: Validator>(
    validator: V,
    suffixes: Seq<Seq<char>>,
    files: Seq<Option<Seq<char>>>,
    key: Seq<char>,
    k: Knowledge,
    i: int,
    log: Seq<NoteView>,
) -> Outcome<Option<Seq<char>>>
    decreases files.len() - i,
{
    if i < 0 || i >= files.len() {
        Ok((None, log))
    } else {
        let asked = log.push(checking_note(key, files[i]));
        match property_in(files[i], key, k) {
            Err(q) => Err(q),
            Ok(None) => key_search(
                validator,
                suffixes,
                files,
                key,
                k,
                i + 1,
                asked.push(not_located_note()),
            ),
            Ok(Some(value)) => {
                let found = asked.push(located_note(value, files[i].unwrap()));
                match validator.accepts(value, suffixes, k) {
                    Err(q) => Err(q),
                    Ok(true) => Ok((Some(value), found)),
                    Ok(false) => key_search(
                        validator,
                        suffixes,
                        files,
                        key,
                        k,
                        i + 1,
                        found.push(
                            (
                                Level::Info,
                                validator.fail_message(key, value, files[i].unwrap()),
                            ),
                        ),
                    ),
                }
            },
        }
    }
}

/// Looks `key` up in the files of `array`, in their order.
pub fn try_key_from_properties_files<O: Os, V: Validator>(
    os: &O,
    array: &Vec<Option<String>>,
    key: &str,
    validator: &V,
    facts: &Facts,
    journal: &mut Journal,
) -> (r: Result<Option<String>, Query>)
    ensures
        settled(r, old(journal)@, final(journal)@,
            key_search(*validator, os.suffixes(), array.deep_view(), key@, facts@, 0, old(journal)@),
        ),
{
    let suffixes = os.get_exec_suffixes();
    let ghost goal = key_search(
        *validator,
        os.suffixes(),
        array.deep_view(),
        key@,
        facts@,
        0,
        journal@,
    );
    let mut i: usize = 0;
    while i < array.len()
        invariant
            i <= array.len(),
            suffixes.deep_view() == os.suffixes(),
            extends(journal@, old(journal)@),
            goal == key_search(
                *validator,
                os.suffixes(),
                array.deep_view(),
                key@,
                facts@,
                0,
                old(journal)@,
            ),
            goal == key_search(
                *validator,
                os.suffixes(),
                array.deep_view(),
                key@,
                facts@,
                i as int,
                journal@,
            ),
        decreases array.len() - i,
    {
        let file = &array[i];
        assert(array.deep_view()[i as int] == file.deep_view());
        let info1 = match file {
            Some(f) => glue(glue3("itw-rust-debug: checking ", key, " in: ").as_str(), f.as_str()),
            None => glue(glue3("itw-rust-debug: checking ", key, " in: ").as_str(), "None"),
        };
        journal.log(info1.as_str());
        let copy = match file {
            Some(f) => Some(f.clone()),
            None => None,
        };
        match get_property_from_file(copy, key, facts)? {
            Some(value) => {
                let located = match file {
                    Some(f) => glue(
                        glue3("itw-rust-debug: located ", value.as_str(), " in file ").as_str(),
                        f.as_str(),
                    ),
                    None => String::new(),
                };
                journal.log(located.as_str());
                if validator.validate(value.as_str(), &suffixes, facts)? {
                    return Ok(Some(value));
                } else {
                    let res = validator.get_fail_message(key, value.as_str(), file);
                    journal.info(res.as_str());
                }
            },
            None => {
                journal.log("itw-rust-debug: property not located or file inaccessible");
            },
        }
        i += 1;
    }
    Ok(None)
}

/// The value of `key` in the configuration files of the platform.
pub open spec fn key_from_properties<O: Os, V: Validator>(
    os: &O,
    validator: V,
    key: Seq<char>,
    k: Knowledge,
    log: Seq<NoteView>,
) -> Outcome<Option<Seq<char>>> {
    match config_files(os, k) {
        Err(q) => Err(q),
        Ok(files) => key_search(validator, os.suffixes(), files, key, k, 0, log),
    }
}

/// Looks `key` up in the configuration files of the platform.
pub fn try_key_from_properties<O: Os, V: Validator>(
    os: &O,
    key: &str,
    validator: &V,
    facts: &Facts,
    journal: &mut Journal,
) -> (r: Result<Option<String>, Query>)
    ensures
        settled(r, old(journal)@, final(journal)@,
            key_from_properties(os, *validator, key@, facts@, old(journal)@),
        ),
{
    let array = get_basic_array(os, facts)?;
    try_key_from_properties_files(os, &array, key, validator, facts, journal)
}

/// The directory of the runtime that the configuration names, provided that it holds one.
pub fn try_jdk_from_properties<O: Os>(os: &O, facts: &Facts, journal: &mut Journal) -> (r: Result<
    Option<String>,
    Query,
>)
    ensures
        settled(r, old(journal)@, final(journal)@,
            key_from_properties(os, JreValidator {  }, "deployment.jre.dir"@, facts@, old(journal)@),
        ),
{
    try_key_from_properties(os, JRE_PROPERTY_NAME, &JreValidator {  }, facts, journal)
}

/// The boolean that the configuration gives for `key`; `otherwise` where it gives none.
pub open spec fn bool_from_properties<O: Os>(
    os: &O,
    key: Seq<char>,
    otherwise: bool,
    k: Knowledge,
    log: Seq<NoteView>,
) -> Outcome<bool> {
    match key_from_properties(os, BoolValidator {  }, key, k, log) {
        Err(q) => Err(q),
        Ok((Some(val), notes)) => Ok((says_true(val), notes)),
        Ok((None, notes)) => Ok((otherwise, notes)),
    }
}

/// Reads a boolean from the configuration.
pub fn try_bool_from_properties<O: Os>(
    os: &O,
    key: &str,
    otherwise: bool,
    facts: &Facts,
    journal: &mut Journal,
) -> (r: Result<bool, Query>)
    ensures
        settled(
            r,
            old(journal)@,
            final(journal)@,
            bool_from_properties(os, key@, otherwise, facts@, old(journal)@),
        ),
{
    match try_key_from_properties(os, key, &BoolValidator {  }, facts, journal)? {
        Some(val) => Ok(str_to_bool(&val)),
        None => Ok(otherwise),
    }
}

/// Whether the configuration switches the notes for debugging on.
pub fn try_main_verbose_from_properties<O: Os>(
    os: &O,
    facts: &Facts,
    journal: &mut Journal,
) -> (r: Result<bool, Query>)
    ensures
        settled(r, old(journal)@, final(journal)@,
            bool_from_properties(os, "deployment.log"@, false, facts@, old(journal)@),
        ),
{
    try_bool_from_properties(os, VERBOSE_PROPERTY_NAME, false, facts, journal)
}

/// Whether the configuration switches logging to a file on; off where it does not say.
pub fn try_log_to_file_from_properties<O: Os>(
    os: &O,
    facts: &Facts,
    journal: &mut Journal,
) -> (r: Result<bool, Query>)
    ensures
        settled(r, old(journal)@, final(journal)@,
            bool_from_properties(os, "deployment.log.file"@, false, facts@, old(journal)@),
        ),
{
    try_bool_from_properties(os, KEY_ENABLE_LOGGING_TOFILE, false, facts, journal)
}

/// Whether the configuration leaves logging to the standard streams on; on where it does
/// not say.
pub fn try_log_to_streams_from_properties<O: Os>(
    os: &O,
    facts: &Facts,
    journal: &mut Journal,
) -> (r: Result<bool, Query>)
    ensures
        settled(r, old(journal)@, final(journal)@,
            bool_from_properties(os, "deployment.log.stdstreams"@, true, facts@, old(journal)@),
        ),
{
    try_bool_from_properties(os, KEY_ENABLE_LOGGING_TOSTREAMS, true, facts, journal)
}

/// Whether the configuration leaves logging to the system log on; on where it does not
/// say.
pub fn try_log_to_system_from_properties<O: Os>(
    os: &O,
    facts: &Facts,
    journal: &mut Journal,
) -> (r: Result<bool, Query>)
    ensures
        settled(r, old(journal)@, final(journal)@,
            bool_from_properties(os, "deployment.log.system"@, true, facts@, old(journal)@),
        ),
{
    try_bool_from_properties(os, KEY_ENABLE_LOGGING_TOSYSTEMLOG, true, facts, journal)
}

/// Name of the log file of a run that starts `secs` seconds after the epoch.
pub open spec fn logfile_named(secs: nat) -> Seq<char> {
    "itw-nativerustlauncher-"@ + decimal_of(secs) + ".log"@
}

/// Name of the log file of a run that starts `secs` seconds after the epoch.
pub fn logfile_name(secs: u64) -> (r: String)
    ensures
        r@ == logfile_named(secs as nat),
{
    glue3("itw-nativerustlauncher-", decimal(secs).as_str(), ".log")
}

/// The log file: in the directory that the configuration names, or else in `log` under the
/// directory of the user's configuration, or else nowhere that can be written.
pub open spec fn logtarget<O: Os>(os: &O, secs: nat, k: Knowledge, log: Seq<NoteView>) -> Outcome<
    Seq<char>,
> {
    match key_from_properties(
        os,
        NotMandatoryPathValidator {  },
        "deployment.user.logdir"@,
        k,
        log,
    ) {
        Err(q) => Err(q),
        Ok((Some(dir), notes)) => Ok((path_join(dir, logfile_named(secs)), notes)),
        Ok((None, notes)) => match os.user_config_dir(k) {
            Err(q) => Err(q),
            Ok(Some(cfgdir)) => Ok(
                (path_join(path_join(cfgdir, "log"@), logfile_named(secs)), notes),
            ),
            Ok(None) => Ok(("unloadable"@, notes)),
        },
    }
}

/// The file that the notes of a run which starts at `secs` are written to.
pub fn try_logtarget_from_properties<O: Os>(
    os: &O,
    secs: u64,
    facts: &Facts,
    journal: &mut Journal,
) -> (r: Result<String, Query>)
    ensures
        settled(
            r,
            old(journal)@,
            final(journal)@,
            logtarget(os, secs as nat, facts@, old(journal)@),
        ),
{
    let str_candidate = try_key_from_properties(
        os,
        KEY_USER_LOG_DIR,
        &NotMandatoryPathValidator {  },
        facts,
        journal,
    )?;
    match str_candidate {
        Some(val) => Ok(join(val.as_str(), logfile_name(secs).as_str())),
        None => {
            match os.get_user_config_dir(facts)? {
                Some(cfgdir) => Ok(
                    join(join(cfgdir.as_str(), "log").as_str(), logfile_name(secs).as_str()),
                ),
                None => Ok(String::from_str("unloadable")),
            }
        },
    }
}

/// The value that the configuration gives for `key`, the empty text where it gives none.
pub open spec fn direct_key<O: Os>(
    os: &O,
    key: Seq<char>,
    k: Knowledge,
    log: Seq<NoteView>,
) -> Outcome<Seq<char>> {
    match key_from_properties(os, NotMandatoryPathValidator {  }, key, k, log) {
        Err(q) => Err(q),
        Ok((Some(val), notes)) => Ok((val, notes)),
        Ok((None, notes)) => Ok((Seq::empty(), notes)),
    }
}

/// Reads the value of `key` from the configuration, whatever it is.
pub fn try_direct_key_from_properties<O: Os>(
    key: &str,
    os: &O,
    facts: &Facts,
    journal: &mut Journal,
) -> (r: Result<String, Query>)
    ensures
        settled(r, old(journal)@, final(journal)@, direct_key(os, key@, facts@, old(journal)@)),
{
    match try_key_from_properties(os, key, &NotMandatoryPathValidator {  }, facts, journal)? {
        Some(val) => Ok(val),
        None => Ok(String::new()),
    }
}

/// The search of the configuration files asks only for what is missing.
pub proof fn lemma_key_search_asks_what_is_missing<V: Validator>(
    validator: V,
    suffixes: Seq<Seq<char>>,
    files: Seq<Option<Seq<char>>>,
    key: Seq<char>,
    k: Knowledge,
    i: int,
    log: Seq<NoteView>,
)
    ensures
        asks_what_is_missing(key_search(validator, suffixes, files, key, k, i, log), k),
    decreases files.len() - i,
{
    if 0 <= i < files.len() {
        let asked = log.push(checking_note(key, files[i]));
        match property_in(files[i], key, k) {
            Ok(None) => {
                lemma_key_search_asks_what_is_missing(
                    validator,
                    suffixes,
                    files,
                    key,
                    k,
                    i + 1,
                    asked.push(not_located_note()),
                );
            },
            Ok(Some(value)) => {
                let found = asked.push(located_note(value, files[i].unwrap()));
                validator.law_asks_what_is_missing(value, suffixes, k);
                lemma_key_search_asks_what_is_missing(
                    validator,
                    suffixes,
                    files,
                    key,
                    k,
                    i + 1,
                    found.push(
                        (Level::Info, validator.fail_message(key, value, files[i].unwrap())),
                    ),
                );
            },
            Err(q) => {},
        }
    }
}

/// The look-up of a key in the configuration asks only for what is missing.
pub proof fn lemma_key_from_properties_asks_what_is_missing<O: Os, V: Validator>(
    os: &O,
    validator: V,
    key: Seq<char>,
    k: Knowledge,
    log: Seq<NoteView>,
)
    ensures
        asks_what_is_missing(key_from_properties(os, validator, key, k, log), k),
        asks_what_is_missing(bool_from_properties(os, key, true, k, log), k),
        asks_what_is_missing(bool_from_properties(os, key, false, k, log), k),
        asks_what_is_missing(direct_key(os, key, k, log), k),
{
    crate::dirs_paths_helper::lemma_config_files_ask_what_is_missing(os, k);
    match config_files(os, k) {
        Ok(files) => {
            lemma_key_search_asks_what_is_missing(validator, os.suffixes(), files, key, k, 0, log);
            lemma_key_search_asks_what_is_missing(
                BoolValidator {  },
                os.suffixes(),
                files,
                key,
                k,
                0,
                log,
            );
            lemma_key_search_asks_what_is_missing(
                NotMandatoryPathValidator {  },
                os.suffixes(),
                files,
                key,
                k,
                0,
                log,
            );
        },
        Err(q) => {},
    }
}

/// What the search of the configuration files found stays when the table learns more.
pub proof fn lemma_key_search_stays<V: Validator>(
    validator: V,
    suffixes: Seq<Seq<char>>,
    files: Seq<Option<Seq<char>>>,
    key: Seq<char>,
    k: Knowledge,
    more: Knowledge,
    i: int,
    log: Seq<NoteView>,
)
    requires
        k.within(more),
    ensures
        stays(
            key_search(validator, suffixes, files, key, k, i, log),
            key_search(validator, suffixes, files, key, more, i, log),
        ),
    decreases files.len() - i,
{
    if 0 <= i < files.len() {
        let asked = log.push(checking_note(key, files[i]));
        lemma_property_stays(files[i], key, k, more);
        match property_in(files[i], key, k) {
            Ok(None) => {
                lemma_key_search_stays(
                    validator,
                    suffixes,
                    files,
                    key,
                    k,
                    more,
                    i + 1,
                    asked.push(not_located_note()),
                );
            },
            Ok(Some(value)) => {
                let found = asked.push(located_note(value, files[i].unwrap()));
                validator.law_stays_when_more_is_known(value, suffixes, k, more);
                lemma_key_search_stays(
                    validator,
                    suffixes,
                    files,
                    key,
                    k,
                    more,
                    i + 1,
                    found.push(
                        (Level::Info, validator.fail_message(key, value, files[i].unwrap())),
                    ),
                );
            },
            Err(q) => {},
        }
    }
}

/// What the configuration gives for a key stays when the table learns more.
pub proof fn lemma_key_from_properties_stays<O: Os, V: Validator>(
    os: &O,
    validator: V,
    key: Seq<char>,
    k: Knowledge,
    more: Knowledge,
    log: Seq<NoteView>,
)
    requires
        k.within(more),
    ensures
        stays(
            key_from_properties(os, validator, key, k, log),
            key_from_properties(os, validator, key, more, log),
        ),
        stays(
            bool_from_properties(os, key, true, k, log),
            bool_from_properties(os, key, true, more, log),
        ),
        stays(
            bool_from_properties(os, key, false, k, log),
            bool_from_properties(os, key, false, more, log),
        ),
        stays(direct_key(os, key, k, log), direct_key(os, key, more, log)),
{
    crate::dirs_paths_helper::lemma_config_files_stay(os, k, more);
    match config_files(os, k) {
        Ok(files) => {
            lemma_key_search_stays(validator, os.suffixes(), files, key, k, more, 0, log);
            lemma_key_search_stays(
                BoolValidator {  },
                os.suffixes(),
                files,
                key,
                k,
                more,
                0,
                log,
            );
            lemma_key_search_stays(
                NotMandatoryPathValidator {  },
                os.suffixes(),
                files,
                key,
                k,
                more,
                0,
                log,
            );
        },
        Err(q) => {},
    }
}

} // verus!
