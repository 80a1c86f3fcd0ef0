//! The search for the Java runtime.
//!
//! The places are tried in a fixed order, each at most once, and the first that yields a
//! runtime decides: the configuration files; the variable `JAVA_HOME`; in embedded mode,
//! the directories above the launcher; the registry; the executable search path, unless
//! the mode is distribution; the directory fixed at build time. The last place always
//! yields a directory, so the search always ends with one.

use crate::dirs_paths_helper::{
    canonicalize, current_program_parent, directory, directory_of, is_file, is_present,
    lemma_program_stays, program,
};
use crate::facts::{
    asks_what_is_missing, lemma_answers_stay, lemma_complete_knowledge_suffices, stays, Facts,
    Knowledge, Query, Topic,
};
use crate::hardcoded_paths::{
    get_jre, get_libsearch, lemma_libsearch_stays, libsearch, ItwLibSearch, JRE,
};
use crate::jars_helper::trying_note;
use crate::journal::{extends, glue, glue3, settled, Journal, Level, NoteView, Outcome};
use crate::os_access::Os;
use crate::paths::{file_name, join, path_file_name, path_join};
use crate::property_from_file::JreValidator;
use crate::property_from_files_resolver::{
    key_from_properties, lemma_key_from_properties_asks_what_is_missing,
    lemma_key_from_properties_stays, try_jdk_from_properties,
};
use crate::text::str_eq;
use vstd::prelude::*;
use vstd::string::*;

verus! {

/// The note that a place yielded a runtime.
pub open spec fn found_note() -> NoteView {
    (Level::Debug, "itw-rust-debug: found and using"@)
}

/// The note that a place yielded nothing.
pub open spec fn nothing_note() -> NoteView {
    (Level::Debug, "itw-rust-debug: nothing"@)
}

/// The resolved form of `full`: what the facts give, or `full` itself where it could not
/// be resolved.
pub open spec fn canonical_or_same(full: Seq<char>, resolved: Option<Seq<char>>) -> Seq<char> {
    match resolved {
        Some(c) => c,
        None => full,
    }
}

/// Whether the resolved executable lies in a directory called `bin`.
pub open spec fn lies_in_bin(can: Seq<char>) -> bool {
    path_file_name(directory_of(can)) == Some("bin"@)
}

/// The runtime that owns the executable `can`: the directory above the one that holds it.
pub open spec fn owner_of(can: Seq<char>) -> Seq<char> {
    directory_of(directory_of(can))
}

/// The journal after an executable was found on the search path.
pub open spec fn journal_after_find(full: Seq<char>, can: Seq<char>, log: Seq<NoteView>) -> Seq<
    NoteView,
> {
    let warned = if lies_in_bin(can) {
        log
    } else {
        log.push((Level::Important, "Error: JRE from path seems to not have bin dir"@))
    };
    warned.push((Level::Debug, "itw-rust-debug: found "@ + full + " resolving as "@ + can))
}

/// The runtime whose `java` lies in `dir`, trying the endings from number `j` on.
pub open spec fn java_in_dir(
    dir: Seq<char>,
    suffixes: Seq<Seq<char>>,
    k: Knowledge,
    j: int,
    log: Seq<NoteView>,
) -> Outcome<Option<Seq<char>>>
    decreases suffixes.len() - j,
{
    if j < 0 || j >= suffixes.len() {
        Ok((None, log))
    } else {
        let full = path_join(dir, "java"@ + suffixes[j]);
        let tried = log.push(trying_note(full));
        match k.flag(Topic::IsFile, full) {
            Err(q) => Err(q),
            Ok(false) => java_in_dir(dir, suffixes, k, j + 1, tried),
            Ok(true) => match k.text(Topic::Canonical, full) {
                Err(q) => Err(q),
                Ok(resolved) => {
                    let can = canonical_or_same(full, resolved);
                    Ok((Some(owner_of(can)), journal_after_find(full, can, tried)))
                },
            },
        }
    }
}

/// The runtime of the first `java` on the search path, trying the directories from
/// number `i` on.
pub open spec fn java_on_path(
    dirs: Seq<Seq<char>>,
    suffixes: Seq<Seq<char>>,
    k: Knowledge,
    i: int,
    log: Seq<NoteView>,
) -> Outcome<Option<Seq<char>>>
    decreases dirs.len() - i,
{
    if i < 0 || i >= dirs.len() {
        Ok((None, log))
    } else {
        match java_in_dir(dirs[i], suffixes, k, 0, log) {
            Err(q) => Err(q),
            Ok((Some(found), notes)) => Ok((Some(found), notes)),
            Ok((None, notes)) => java_on_path(dirs, suffixes, k, i + 1, notes),
        }
    }
}

/// The runtime found on a search path; none where there is no search path.
pub open spec fn jdk_from_given_path(
    system_path: Option<Seq<Seq<char>>>,
    suffixes: Seq<Seq<char>>,
    k: Knowledge,
    log: Seq<NoteView>,
) -> Outcome<Option<Seq<char>>> {
    match system_path {
        None => Ok((None, log)),
        Some(dirs) => java_on_path(dirs, suffixes, k, 0, log),
    }
}

/// Looks for `java` in one directory of the search path.
fn try_java_in_dir(dir: &str, suffixes: &Vec<String>, facts: &Facts, journal: &mut Journal) -> (r:
    Result<Option<String>, Query>)
    ensures
        settled(r, old(journal)@, final(journal)@,
            java_in_dir(dir@, suffixes.deep_view(), facts@, 0, old(journal)@),
        ),
{
    let mut j: usize = 0;
    while j < suffixes.len()
        invariant
            j <= suffixes.len(),
            extends(journal@, old(journal)@),
            java_in_dir(dir@, suffixes.deep_view(), facts@, 0, old(journal)@) == java_in_dir(
                dir@,
                suffixes.deep_view(),
                facts@,
                j as int,
                journal@,
            ),
        decreases suffixes.len() - j,
    {
        assert(suffixes.deep_view()[j as int] == suffixes@[j as int]@);
        let bin_name = glue("java", suffixes[j].as_str());
        let full_path = join(dir, bin_name.as_str());
        let info1 = glue("itw-rust-debug: trying ", full_path.as_str());
        journal.log(info1.as_str());
        if is_file(full_path.as_str(), facts)? {
            let can = match canonicalize(full_path.as_str(), facts)? {
                Some(resolved) => resolved,
                None => full_path.clone(),
            };
            let jre_bin_dir = directory(can.as_str());
            let in_bin = match file_name(jre_bin_dir.as_str()) {
                Some(n) => str_eq(n.as_str(), "bin"),
                None => false,
            };
            if !in_bin {
                journal.important("Error: JRE from path seems to not have bin dir");
            }
            let jre_dir = directory(jre_bin_dir.as_str());
            let mut info2 = glue3(
                "itw-rust-debug: found ",
                full_path.as_str(),
                " resolving as ",
            );
            info2.append(can.as_str());
            journal.log(info2.as_str());
            return Ok(Some(jre_dir));
        }
        j += 1;
    }
    Ok(None)
}

/// Looks for `java` in the directories of a search path and names the runtime that owns
/// the first one found.
pub fn get_jdk_from_given_path_testable<O: Os>(
    system_path: Option<Vec<String>>,
    os: &O,
    facts: &Facts,
    journal: &mut Journal,
) -> (r: Result<Option<String>, Query>)
    ensures
        settled(r, old(journal)@, final(journal)@,
            jdk_from_given_path(system_path.deep_view(), os.suffixes(), facts@, old(journal)@),
        ),
{
    match system_path {
        None => Ok(None),
        Some(dirs) => {
            let suffixes = os.get_exec_suffixes();
            let mut i: usize = 0;
            while i < dirs.len()
                invariant
                    i <= dirs.len(),
                    suffixes.deep_view() == os.suffixes(),
                    system_path.deep_view() == Some(dirs.deep_view()),
                    extends(journal@, old(journal)@),
                    java_on_path(dirs.deep_view(), os.suffixes(), facts@, 0, old(journal)@)
                        == java_on_path(
                        dirs.deep_view(),
                        os.suffixes(),
                        facts@,
                        i as int,
                        journal@,
                    ),
                decreases dirs.len() - i,
            {
                assert(dirs.deep_view()[i as int] == dirs@[i as int]@);
                match try_java_in_dir(dirs[i].as_str(), &suffixes, facts, journal)? {
                    Some(found) => {
                        return Ok(Some(found));
                    },
                    None => {},
                }
                i += 1;
            }
            Ok(None)
        },
    }
}

/// The warning that a search path is searched for an embedded build.
pub open spec fn embedded_path_note() -> NoteView {
    (Level::Important, "your build is done as EMBEDDED, jdk from PATH may be not what you want!"@)
}

/// The runtime found on a search path, as far as the search mode lets the path be
/// searched: in distribution mode it is not searched at all.
pub open spec fn jdk_from_path_under(
    system_path: Option<Seq<Seq<char>>>,
    mode: ItwLibSearch,
    suffixes: Seq<Seq<char>>,
    k: Knowledge,
    log: Seq<NoteView>,
) -> Outcome<Option<Seq<char>>> {
    if mode == ItwLibSearch::DISTRIBUTION {
        Ok(
            (
                None,
                log.push(
                    (
                        Level::Debug,
                        "itw-rust-debug: skipping jdk from path, your build is distribution"@,
                    ),
                ),
            ),
        )
    } else if mode == ItwLibSearch::EMBEDDED {
        jdk_from_given_path(
            system_path,
            suffixes,
            k,
            log.push(embedded_path_note()),
        )
    } else {
        jdk_from_given_path(system_path, suffixes, k, log)
    }
}

/// Searches a search path for a runtime, where the search mode allows it.
pub fn get_jdk_from_path_conditionally_testable<O: Os>(
    system_path: Option<Vec<String>>,
    libsearch: ItwLibSearch,
    os: &O,
    facts: &Facts,
    journal: &mut Journal,
) -> (r: Result<Option<String>, Query>)
    ensures
        settled(r, old(journal)@, final(journal)@,
            jdk_from_path_under(
                system_path.deep_view(),
                libsearch,
                os.suffixes(),
                facts@,
                old(journal)@,
            ),
        ),
{
    if libsearch == ItwLibSearch::DISTRIBUTION {
        journal.log("itw-rust-debug: skipping jdk from path, your build is distribution");
        Ok(None)
    } else {
        if libsearch == ItwLibSearch::EMBEDDED {
            journal.important(
                "your build is done as EMBEDDED, jdk from PATH may be not what you want!",
            );
        }
        get_jdk_from_given_path_testable(system_path, os, facts, journal)
    }
}

/// The runtime found on the search path of this run. The search path is asked for only
/// where the search mode lets it be searched.
pub open spec fn jdk_from_path<O: Os>(os: &O, k: Knowledge, log: Seq<NoteView>) -> Outcome<
    Option<Seq<char>>,
> {
    match libsearch(k, log) {
        Err(q) => Err(q),
        Ok((mode, notes)) => if mode == ItwLibSearch::DISTRIBUTION {
            jdk_from_path_under(None, mode, os.suffixes(), k, notes)
        } else {
            match k.lines(Topic::SearchPath, ""@) {
                Err(q) => Err(q),
                Ok(system_path) => jdk_from_path_under(system_path, mode, os.suffixes(), k, notes),
            }
        },
    }
}

/// Searches the search path of this run for a runtime, where the search mode allows it.
pub fn get_jdk_from_path_conditionally<O: Os>(os: &O, facts: &Facts, journal: &mut Journal) -> (r:
    Result<Option<String>, Query>)
    ensures
        settled(r, old(journal)@, final(journal)@, jdk_from_path(os, facts@, old(journal)@)),
{
    let mode = get_libsearch(facts, journal)?;
    if mode == ItwLibSearch::DISTRIBUTION {
        get_jdk_from_path_conditionally_testable(None, mode, os, facts, journal)
    } else {
        let system_path = facts.lines(Topic::SearchPath, "")?;
        get_jdk_from_path_conditionally_testable(system_path, mode, os, facts, journal)
    }
}

/// The directory `jre` inside `dir`, written as a directory.
pub open spec fn jre_subdir(dir: Seq<char>) -> Seq<char> {
    path_join(path_join(dir, "jre"@), ""@)
}

/// A development kit keeps its runtime in a directory `jre`: where `dir` has one, that is
/// the runtime, else `dir` itself.
pub open spec fn with_jre_subdir(dir: Seq<char>, k: Knowledge, log: Seq<NoteView>) -> Outcome<
    Seq<char>,
> {
    match k.flag(Topic::Exists, jre_subdir(dir)) {
        Err(q) => Err(q),
        Ok(true) => Ok((jre_subdir(dir), log)),
        Ok(false) => Ok((dir, log)),
    }
}

/// Prefers the directory `jre` inside `dir`, where there is one.
fn prefer_jre_subdir(dir: String, facts: &Facts) -> (r: Result<String, Query>)
    ensures
        crate::facts::seen(r) == match facts@.flag(Topic::Exists, jre_subdir(dir@)) {
            Err(q) => Err(q),
            Ok(true) => Ok(jre_subdir(dir@)),
            Ok(false) => Ok(dir@),
        },
{
    let jre_dir = join(join(dir.as_str(), "jre").as_str(), "");
    if is_present(jre_dir.as_str(), facts)? {
        Ok(jre_dir)
    } else {
        Ok(dir)
    }
}

/// The last place: the directory fixed at build time, taken as it is.
pub open spec fn jre_hardcoded(log: Seq<NoteView>) -> Outcome<Seq<char>> {
    Ok(
        (
            JRE@,
            log.push(nothing_note()).push(
                (Level::Debug, "itw-rust-debug: failing down to hardcoded"@),
            ),
        ),
    )
}

/// The fifth place: the executable search path. Then the last place.
pub open spec fn jre_from_path<O: Os>(os: &O, k: Knowledge, log: Seq<NoteView>) -> Outcome<
    Seq<char>,
> {
    let begun = log.push(nothing_note()).push(
        (Level::Debug, "itw-rust-debug: trying jdk from path"@),
    );
    match jdk_from_path(os, k, begun) {
        Err(q) => Err(q),
        Ok((Some(dir), notes)) => with_jre_subdir(dir, k, notes.push(found_note())),
        Ok((None, notes)) => jre_hardcoded(notes),
    }
}

/// The fourth place: the registry. Then the search path.
pub open spec fn jre_from_registry<O: Os>(os: &O, k: Knowledge, log: Seq<NoteView>) -> Outcome<
    Seq<char>,
> {
    let begun = log.push((Level::Debug, "itw-rust-debug: trying jdk from registry"@));
    match os.registry_java(k) {
        Err(q) => Err(q),
        Ok(Some(dir)) => Ok((dir, begun.push(found_note()))),
        Ok(None) => jre_from_path(os, k, begun),
    }
}

/// Where the `java` of an embedded runtime in `dir` would be.
pub open spec fn embedded_java(dir: Seq<char>) -> Seq<char> {
    path_join(path_join(dir, "bin"@), "java"@)
}

/// The warning that an embedded build has no runtime where it should have one.
pub open spec fn no_embedded_note(first: Seq<char>, second: Seq<char>) -> NoteView {
    (
        Level::Important,
        "You have EMBEDDED jre build, however "@ + first + "  nor "@ + second
            + " is valid jre/jdk!"@,
    )
}

/// The third place, tried in embedded mode only: the directory above the launcher's, then
/// the one above that. Then the registry.
pub open spec fn jre_embedded<O: Os>(os: &O, k: Knowledge, log: Seq<NoteView>) -> Outcome<
    Seq<char>,
> {
    match libsearch(k, log) {
        Err(q) => Err(q),
        Ok((mode, notes)) => if mode == ItwLibSearch::EMBEDDED {
            match program(k) {
                Err(q) => Err(q),
                Ok(p) => {
                    let begun = notes.push((Level::Debug, "itw-rust-debug: trying embedded JDK"@));
                    let first = path_join(directory_of(p), ".."@);
                    let second = path_join(first, ".."@);
                    match k.flag(Topic::Exists, embedded_java(first)) {
                        Err(q) => Err(q),
                        Ok(true) => Ok((first, begun.push(found_note()))),
                        Ok(false) => match k.flag(Topic::Exists, embedded_java(second)) {
                            Err(q) => Err(q),
                            Ok(true) => Ok((second, begun.push(found_note()))),
                            Ok(false) => jre_from_registry(
                                os,
                                k,
                                begun.push(no_embedded_note(first, second)),
                            ),
                        },
                    }
                },
            }
        } else {
            jre_from_registry(os, k, notes)
        },
    }
}

/// The second place: the variable `JAVA_HOME`, which is believed without a test. Then the
/// embedded runtime.
pub open spec fn jre_from_java_home<O: Os>(os: &O, k: Knowledge, log: Seq<NoteView>) -> Outcome<
    Seq<char>,
> {
    let begun = log.push(nothing_note()).push(
        (Level::Debug, "itw-rust-debug: trying jdk JAVA_HOME"@),
    );
    match k.text(Topic::EnvVar, "JAVA_HOME"@) {
        Err(q) => Err(q),
        Ok(Some(home)) => with_jre_subdir(home, k, begun.push(found_note())),
        Ok(None) => jre_embedded(
            os,
            k,
            begun.push((Level::Debug, "itw-rust-debug: nothing (likely correct)"@)),
        ),
    }
}

/// The runtime to use. The first place: the configuration files, whose value has to be
/// the directory of a runtime. Then `JAVA_HOME`.
pub open spec fn found_jre<O: Os>(os: &O, k: Knowledge, log: Seq<NoteView>) -> Outcome<Seq<char>> {
    let begun = log.push(
        (
            Level::Debug,
            "itw-rust-debug: trying jdk over properties ("@ + "deployment.jre.dir"@ + ")"@,
        ),
    );
    match key_from_properties(os, JreValidator {  }, "deployment.jre.dir"@, k, begun) {
        Err(q) => Err(q),
        Ok((Some(dir), notes)) => Ok((dir, notes.push(found_note()))),
        Ok((None, notes)) => jre_from_java_home(os, k, notes),
    }
}

/// Finds the directory of the Java runtime to use.
pub fn find_jre<O: Os>(os: &O, facts: &Facts, journal: &mut Journal) -> (r: Result<String, Query>)
    ensures
        settled(r, old(journal)@, final(journal)@, found_jre(os, facts@, old(journal)@)),
{
    let info1 = glue3(
        "itw-rust-debug: trying jdk over properties (",
        crate::property_from_file::JRE_PROPERTY_NAME,
        ")",
    );
    journal.log(info1.as_str());
    match try_jdk_from_properties(os, facts, journal)? {
        Some(path) => {
            journal.log("itw-rust-debug: found and using");
            return Ok(path);
        },
        None => {},
    }
    journal.log("itw-rust-debug: nothing");
    journal.log("itw-rust-debug: trying jdk JAVA_HOME");
    match facts.text(Topic::EnvVar, "JAVA_HOME")? {
        Some(war) => {
            journal.log("itw-rust-debug: found and using");
            return prefer_jre_subdir(war, facts);
        },
        None => {},
    }
    journal.log("itw-rust-debug: nothing (likely correct)");
    if get_libsearch(facts, journal)? == ItwLibSearch::EMBEDDED {
        let pgmdir = current_program_parent(facts)?;
        journal.log("itw-rust-debug: trying embedded JDK");
        let embed_path1 = join(pgmdir.as_str(), "..");
        let embed_java1 = join(join(embed_path1.as_str(), "bin").as_str(), "java");
        if is_present(embed_java1.as_str(), facts)? {
            journal.log("itw-rust-debug: found and using");
            return Ok(embed_path1);
        }
        let embed_path2 = join(embed_path1.as_str(), "..");
        let embed_java2 = join(join(embed_path2.as_str(), "bin").as_str(), "java");
        if is_present(embed_java2.as_str(), facts)? {
            journal.log("itw-rust-debug: found and using");
            return Ok(embed_path2);
        }
        let mut warning = glue3(
            "You have EMBEDDED jre build, however ",
            embed_path1.as_str(),
            "  nor ",
        );
        warning.append(embed_path2.as_str());
        warning.append(" is valid jre/jdk!");
        journal.important(warning.as_str());
    }
    journal.log("itw-rust-debug: trying jdk from registry");
    match os.get_registry_java(facts)? {
        Some(path) => {
            journal.log("itw-rust-debug: found and using");
            return Ok(path);
        },
        None => {},
    }
    journal.log("itw-rust-debug: nothing");
    journal.log("itw-rust-debug: trying jdk from path");
    match get_jdk_from_path_conditionally(os, facts, journal)? {
        Some(path) => {
            journal.log("itw-rust-debug: found and using");
            return prefer_jre_subdir(path, facts);
        },
        None => {},
    }
    journal.log("itw-rust-debug: nothing");
    journal.log("itw-rust-debug: failing down to hardcoded");
    Ok(String::from_str(get_jre()))
}

/// The search of one directory of the search path asks only for what is missing.
pub proof fn lemma_java_in_dir_asks_what_is_missing(
    dir: Seq<char>,
    suffixes: Seq<Seq<char>>,
    k: Knowledge,
    j: int,
    log: Seq<NoteView>,
)
    ensures
        asks_what_is_missing(java_in_dir(dir, suffixes, k, j, log), k),
    decreases suffixes.len() - j,
{
    if 0 <= j < suffixes.len() {
        let full = path_join(dir, "java"@ + suffixes[j]);
        lemma_java_in_dir_asks_what_is_missing(
            dir,
            suffixes,
            k,
            j + 1,
            log.push(trying_note(full)),
        );
    }
}

/// The search of the search path asks only for what is missing.
pub proof fn lemma_java_on_path_asks_what_is_missing(
    dirs: Seq<Seq<char>>,
    suffixes: Seq<Seq<char>>,
    k: Knowledge,
    i: int,
    log: Seq<NoteView>,
)
    ensures
        asks_what_is_missing(java_on_path(dirs, suffixes, k, i, log), k),
    decreases dirs.len() - i,
{
    if 0 <= i < dirs.len() {
        lemma_java_in_dir_asks_what_is_missing(dirs[i], suffixes, k, 0, log);
        match java_in_dir(dirs[i], suffixes, k, 0, log) {
            Ok((None, notes)) => {
                lemma_java_on_path_asks_what_is_missing(dirs, suffixes, k, i + 1, notes);
            },
            _ => {},
        }
    }
}

/// The search of the search path of this run asks only for what is missing.
pub proof fn lemma_jdk_from_path_asks_what_is_missing<O: Os>(
    os: &O,
    k: Knowledge,
    log: Seq<NoteView>,
)
    ensures
        asks_what_is_missing(jdk_from_path(os, k, log), k),
{
    match libsearch(k, log) {
        Ok((mode, notes)) => {
            match k.lines(Topic::SearchPath, ""@) {
                Ok(Some(dirs)) => {
                    lemma_java_on_path_asks_what_is_missing(dirs, os.suffixes(), k, 0, notes);
                    lemma_java_on_path_asks_what_is_missing(
                        dirs,
                        os.suffixes(),
                        k,
                        0,
                        notes.push(embedded_path_note()),
                    );
                },
                _ => {},
            }
        },
        Err(q) => {},
    }
}

/// The search for the runtime stops only at a question that the table cannot answer.
pub proof fn law_find_jre_asks_what_is_missing<O: Os>(os: &O, k: Knowledge, log: Seq<NoteView>)
    ensures
        asks_what_is_missing(found_jre(os, k, log), k),
{
    os.law_asks_what_is_missing(k);
    assert forall|l: Seq<NoteView>| #[trigger]
        asks_what_is_missing(jre_from_path(os, k, l), k) by {
        let begun = l.push(nothing_note()).push(
            (Level::Debug, "itw-rust-debug: trying jdk from path"@),
        );
        lemma_jdk_from_path_asks_what_is_missing(os, k, begun);
    }
    assert forall|l: Seq<NoteView>| #[trigger]
        asks_what_is_missing(jre_from_registry(os, k, l), k) by {
        let begun = l.push((Level::Debug, "itw-rust-debug: trying jdk from registry"@));
        assert(asks_what_is_missing(jre_from_path(os, k, begun), k));
    }
    assert forall|l: Seq<NoteView>| #[trigger]
        asks_what_is_missing(jre_embedded(os, k, l), k) by {
        match libsearch(k, l) {
            Ok((mode, notes)) => {
                assert(asks_what_is_missing(jre_from_registry(os, k, notes), k));
                match program(k) {
                    Ok(p) => {
                        let begun = notes.push(
                            (Level::Debug, "itw-rust-debug: trying embedded JDK"@),
                        );
                        let first = path_join(directory_of(p), ".."@);
                        let second = path_join(first, ".."@);
                        assert(asks_what_is_missing(
                            jre_from_registry(os, k, begun.push(no_embedded_note(first, second))),
                            k,
                        ));
                    },
                    Err(q) => {},
                }
            },
            Err(q) => {},
        }
    }
    assert forall|l: Seq<NoteView>| #[trigger]
        asks_what_is_missing(jre_from_java_home(os, k, l), k) by {
        let begun = l.push(nothing_note()).push(
            (Level::Debug, "itw-rust-debug: trying jdk JAVA_HOME"@),
        );
        assert(asks_what_is_missing(
            jre_embedded(
                os,
                k,
                begun.push((Level::Debug, "itw-rust-debug: nothing (likely correct)"@)),
            ),
            k,
        ));
    }
    let begun = log.push(
        (
            Level::Debug,
            "itw-rust-debug: trying jdk over properties ("@ + "deployment.jre.dir"@ + ")"@,
        ),
    );
    lemma_key_from_properties_asks_what_is_missing(
        os,
        JreValidator {  },
        "deployment.jre.dir"@,
        k,
        begun,
    );
    match key_from_properties(os, JreValidator {  }, "deployment.jre.dir"@, k, begun) {
        Ok((None, notes)) => {
            assert(asks_what_is_missing(jre_from_java_home(os, k, notes), k));
        },
        _ => {},
    }
}

/// The search for the runtime always ends with a directory: with every question
/// answered, one of the places yields one, the last place if no other does.
pub proof fn law_find_jre_always_ends<O: Os>(os: &O, k: Knowledge, log: Seq<NoteView>)
    requires
        k.complete(),
    ensures
        found_jre(os, k, log) is Ok,
{
    law_find_jre_asks_what_is_missing(os, k, log);
    lemma_complete_knowledge_suffices(found_jre(os, k, log), k);
}

/// In distribution mode the search path is not searched: whatever it holds, it yields no
/// runtime, and it is not even asked for.
pub proof fn law_distribution_skips_search_path<O: Os>(
    os: &O,
    first: Knowledge,
    second: Knowledge,
    log: Seq<NoteView>,
    over: Option<Seq<char>>,
)
    requires
        first.text(Topic::EnvVar, "ITW_LIBS"@) == Ok::<Option<Seq<char>>, crate::facts::QueryView>(
            over,
        ),
        second.text(Topic::EnvVar, "ITW_LIBS"@) == Ok::<Option<Seq<char>>, crate::facts::QueryView>(
            over,
        ),
        crate::hardcoded_paths::chosen_mode(over, crate::hardcoded_paths::ITW_LIBS@) == Some(
            ItwLibSearch::DISTRIBUTION,
        ),
    ensures
        jdk_from_path(os, first, log) == jdk_from_path(os, second, log),
        jdk_from_path(os, first, log) matches Ok((found, _)) && found is None,
{
}

/// What the search of one directory of the search path found stays when the table
/// learns more.
pub proof fn lemma_java_in_dir_stays(
    dir: Seq<char>,
    suffixes: Seq<Seq<char>>,
    k: Knowledge,
    more: Knowledge,
    j: int,
    log: Seq<NoteView>,
)
    requires
        k.within(more),
    ensures
        stays(java_in_dir(dir, suffixes, k, j, log), java_in_dir(dir, suffixes, more, j, log)),
    decreases suffixes.len() - j,
{
    if 0 <= j < suffixes.len() {
        let full = path_join(dir, "java"@ + suffixes[j]);
        lemma_answers_stay(k, more, Topic::IsFile, full);
        lemma_answers_stay(k, more, Topic::Canonical, full);
        lemma_java_in_dir_stays(dir, suffixes, k, more, j + 1, log.push(trying_note(full)));
    }
}

/// What the search of the search path found stays when the table learns more.
pub proof fn lemma_java_on_path_stays(
    dirs: Seq<Seq<char>>,
    suffixes: Seq<Seq<char>>,
    k: Knowledge,
    more: Knowledge,
    i: int,
    log: Seq<NoteView>,
)
    requires
        k.within(more),
    ensures
        stays(java_on_path(dirs, suffixes, k, i, log), java_on_path(dirs, suffixes, more, i, log)),
    decreases dirs.len() - i,
{
    if 0 <= i < dirs.len() {
        lemma_java_in_dir_stays(dirs[i], suffixes, k, more, 0, log);
        match java_in_dir(dirs[i], suffixes, k, 0, log) {
            Ok((None, notes)) => {
                lemma_java_on_path_stays(dirs, suffixes, k, more, i + 1, notes);
            },
            _ => {},
        }
    }
}

/// What the search of the search path of this run found stays when the table learns
/// more.
pub proof fn lemma_jdk_from_path_stays<O: Os>(
    os: &O,
    k: Knowledge,
    more: Knowledge,
    log: Seq<NoteView>,
)
    requires
        k.within(more),
    ensures
        stays(jdk_from_path(os, k, log), jdk_from_path(os, more, log)),
{
    lemma_libsearch_stays(k, more, log);
    lemma_answers_stay(k, more, Topic::SearchPath, ""@);
    match libsearch(k, log) {
        Ok((mode, notes)) => {
            match k.lines(Topic::SearchPath, ""@) {
                Ok(Some(dirs)) => {
                    lemma_java_on_path_stays(dirs, os.suffixes(), k, more, 0, notes);
                    lemma_java_on_path_stays(
                        dirs,
                        os.suffixes(),
                        k,
                        more,
                        0,
                        notes.push(embedded_path_note()),
                    );
                },
                _ => {},
            }
        },
        Err(q) => {},
    }
}

/// The runtime that was found stays when the table learns more: an answer that comes
/// later changes nothing that was decided before.
pub proof fn law_found_jre_stays_when_more_is_known<O: Os>(
    os: &O,
    k: Knowledge,
    more: Knowledge,
    log: Seq<NoteView>,
)
    requires
        k.within(more),
    ensures
        stays(found_jre(os, k, log), found_jre(os, more, log)),
{
    os.law_stays_when_more_is_known(k, more);
    lemma_answers_stay(k, more, Topic::EnvVar, "JAVA_HOME"@);
    lemma_program_stays(k, more);
    assert forall|dir: Seq<char>, l: Seq<NoteView>| #[trigger]
        stays(with_jre_subdir(dir, k, l), with_jre_subdir(dir, more, l)) by {
        lemma_answers_stay(k, more, Topic::Exists, jre_subdir(dir));
    }
    assert forall|l: Seq<NoteView>| #[trigger]
        stays(jre_from_path(os, k, l), jre_from_path(os, more, l)) by {
        let begun = l.push(nothing_note()).push(
            (Level::Debug, "itw-rust-debug: trying jdk from path"@),
        );
        lemma_jdk_from_path_stays(os, k, more, begun);
        match jdk_from_path(os, k, begun) {
            Ok((Some(dir), notes)) => {
                assert(stays(
                    with_jre_subdir(dir, k, notes.push(found_note())),
                    with_jre_subdir(dir, more, notes.push(found_note())),
                ));
            },
            _ => {},
        }
    }
    assert forall|l: Seq<NoteView>| #[trigger]
        stays(jre_from_registry(os, k, l), jre_from_registry(os, more, l)) by {
        let begun = l.push((Level::Debug, "itw-rust-debug: trying jdk from registry"@));
        assert(stays(jre_from_path(os, k, begun), jre_from_path(os, more, begun)));
    }
    assert forall|l: Seq<NoteView>| #[trigger]
        stays(jre_embedded(os, k, l), jre_embedded(os, more, l)) by {
        lemma_libsearch_stays(k, more, l);
        match libsearch(k, l) {
            Ok((mode, notes)) => {
                assert(stays(jre_from_registry(os, k, notes), jre_from_registry(os, more, notes)));
                match program(k) {
                    Ok(p) => {
                        let begun = notes.push(
                            (Level::Debug, "itw-rust-debug: trying embedded JDK"@),
                        );
                        let first = path_join(directory_of(p), ".."@);
                        let second = path_join(first, ".."@);
                        lemma_answers_stay(k, more, Topic::Exists, embedded_java(first));
                        lemma_answers_stay(k, more, Topic::Exists, embedded_java(second));
                        let warned = begun.push(no_embedded_note(first, second));
                        assert(stays(
                            jre_from_registry(os, k, warned),
                            jre_from_registry(os, more, warned),
                        ));
                    },
                    Err(q) => {},
                }
            },
            Err(q) => {},
        }
    }
    assert forall|l: Seq<NoteView>| #[trigger]
        stays(jre_from_java_home(os, k, l), jre_from_java_home(os, more, l)) by {
        let begun = l.push(nothing_note()).push(
            (Level::Debug, "itw-rust-debug: trying jdk JAVA_HOME"@),
        );
        match k.text(Topic::EnvVar, "JAVA_HOME"@) {
            Ok(Some(home)) => {
                assert(stays(
                    with_jre_subdir(home, k, begun.push(found_note())),
                    with_jre_subdir(home, more, begun.push(found_note())),
                ));
            },
            Ok(None) => {
                let noted = begun.push(
                    (Level::Debug, "itw-rust-debug: nothing (likely correct)"@),
                );
                assert(stays(jre_embedded(os, k, noted), jre_embedded(os, more, noted)));
            },
            Err(q) => {},
        }
    }
    let begun = log.push(
        (
            Level::Debug,
            "itw-rust-debug: trying jdk over properties ("@ + "deployment.jre.dir"@ + ")"@,
        ),
    );
    lemma_key_from_properties_stays(os, JreValidator {  }, "deployment.jre.dir"@, k, more, begun);
    match key_from_properties(os, JreValidator {  }, "deployment.jre.dir"@, k, begun) {
        Ok((None, notes)) => {
            assert(stays(jre_from_java_home(os, k, notes), jre_from_java_home(os, more, notes)));
        },
        _ => {},
    }
}

} // verus!
