//! Where the jars are, and the class paths made of them.
//!
//! A jar is looked for in three places, in this order, and the first place that has it
//! decides: under the directory that `ITW_HOME` names; beside the launcher, where the
//! search mode is bundled or embedded; at its installed location, where the search mode is
//! distribution. A jar that is nowhere is still named by its installed location, with a
//! warning.

use crate::dirs_paths_helper::{
    current_program_parent, directory, directory_of, is_dir, is_file, lemma_program_stays,
    program,
};
use crate::facts::{
    asks_what_is_missing, lemma_answers_stay, lemma_complete_knowledge_suffices, stays, Facts,
    Knowledge, Query, QueryView, Topic,
};
use crate::hardcoded_paths::{
    get_argsfile, get_gson, get_ipaddress, get_javaws, get_libsearch, get_mslinks, get_rhino,
    get_splash, get_tagsoup, lemma_libsearch_stays, libsearch, sanitized, ItwLibSearch, GSON_JAR,
    IPADDRESS_JAR,
    JAVAWS_JAR, MODULARJDK_ARGS_LOCATION, MSLINKS_JAR, RHINO_JAR, SPLASH_PNG, TAGSOUP_JAR,
};
use crate::journal::{extends, glue, settled, Journal, Level, NoteView, Outcome};
use crate::os_access::Os;
use crate::paths::{file_name, join, path_file_name, path_join};
use crate::property_from_file::NotMandatoryPathValidator;
use crate::property_from_files_resolver::{
    direct_key, key_from_properties, lemma_key_from_properties_asks_what_is_missing,
    lemma_key_from_properties_stays, try_direct_key_from_properties, try_key_from_properties,
};
use crate::text::{
    char_text, contains, has_infix, is_blank, joined, split, split_on, trim,
};
use vstd::prelude::*;
use vstd::string::*;

verus! {

/// The directories, relative to a base, in which a jar is looked for. The order counts.
pub open spec fn local_paths() -> Seq<Seq<char>> {
    seq!["libs"@, "../libs"@, "."@, "bin"@, "../bin"@]
}

fn local_path(i: usize) -> (r: &'static str)
    requires
        i < 5,
    ensures
        r@ == local_paths()[i as int],
{
    if i == 0 {
        "libs"
    } else if i == 1 {
        "../libs"
    } else if i == 2 {
        "."
    } else if i == 3 {
        "bin"
    } else {
        "../bin"
    }
}

/// Where the file `name` would be in local directory number `i` under `dir`.
pub open spec fn jar_candidate(dir: Seq<char>, name: Seq<char>, i: int) -> Seq<char> {
    path_join(path_join(dir, local_paths()[i]), name)
}

/// The note that a place is tried.
pub open spec fn trying_note(place: Seq<char>) -> NoteView {
    (Level::Debug, "itw-rust-debug: trying "@ + place)
}

/// The first of the local directories under `dir`, from number `i` on, that holds `name`
/// as a regular file.
pub open spec fn jar_in_subdirs(
    dir: Seq<char>,
    name: Seq<char>,
    k: Knowledge,
    i: int,
    log: Seq<NoteView>,
) -> Outcome<Option<Seq<char>>>
    decreases 5 - i,
{
    if i < 0 || i >= 5 {
        Ok((None, log))
    } else {
        let candidate = jar_candidate(dir, name, i);
        let tried = log.push(trying_note(candidate));
        match k.flag(Topic::IsFile, candidate) {
            Err(q) => Err(q),
            Ok(true) => Ok((Some(candidate), tried.push((Level::Debug, candidate)))),
            Ok(false) => jar_in_subdirs(dir, name, k, i + 1, tried),
        }
    }
}

/// Looks for the file `name` in the local directories under `dir`.
pub fn try_jar_in_subdirs(dir: &str, name: &str, facts: &Facts, journal: &mut Journal) -> (r:
    Result<Option<String>, Query>)
    ensures
        settled(
            r,
            old(journal)@,
            final(journal)@,
            jar_in_subdirs(dir@, name@, facts@, 0, old(journal)@),
        ),
{
    let mut i: usize = 0;
    while i < 5
        invariant
            i <= 5,
            extends(journal@, old(journal)@),
            jar_in_subdirs(dir@, name@, facts@, 0, old(journal)@) == jar_in_subdirs(
                dir@,
                name@,
                facts@,
                i as int,
                journal@,
            ),
        decreases 5 - i,
    {
        let candidate = join(join(dir, local_path(i)).as_str(), name);
        let info1 = glue("itw-rust-debug: trying ", candidate.as_str());
        journal.log(info1.as_str());
        if is_file(candidate.as_str(), facts)? {
            journal.log(candidate.as_str());
            return Ok(Some(candidate));
        }
        i += 1;
    }
    Ok(None)
}

/// The last resort: the installed location itself, whether the jar is there or not, with
/// a warning.
pub open spec fn jar_fallback(path: Seq<char>, log: Seq<NoteView>) -> Outcome<Seq<char>> {
    Ok(
        (
            path,
            log.push(
                (Level::Important, "Warning!, Fall back in resolve_jar to hardcoded paths: "@),
            ).push((Level::Important, path)),
        ),
    )
}

/// The installed location, which is checked in distribution mode only; where it is not
/// checked or holds no file, the last resort.
pub open spec fn jar_installed(
    path: Seq<char>,
    mode: ItwLibSearch,
    k: Knowledge,
    log: Seq<NoteView>,
) -> Outcome<Seq<char>> {
    if mode == ItwLibSearch::DISTRIBUTION {
        match k.flag(Topic::IsFile, path) {
            Err(q) => Err(q),
            Ok(true) => Ok((path, log.push((Level::Debug, path)))),
            Ok(false) => jar_fallback(path, log),
        }
    } else {
        jar_fallback(path, log)
    }
}

/// The search beside the launcher, which is made in bundled and embedded mode only: in the
/// local directories under the directory above the launcher's own. Then the installed
/// location.
pub open spec fn jar_bundled(
    path: Seq<char>,
    name: Seq<char>,
    mode: ItwLibSearch,
    k: Knowledge,
    log: Seq<NoteView>,
) -> Outcome<Seq<char>> {
    if mode == ItwLibSearch::BUNDLED || mode == ItwLibSearch::EMBEDDED {
        match program(k) {
            Err(q) => Err(q),
            Ok(p) => match jar_in_subdirs(directory_of(directory_of(p)), name, k, 0, log) {
                Err(q) => Err(q),
                Ok((Some(found), notes)) => Ok((found, notes)),
                Ok((None, notes)) => jar_installed(path, mode, k, notes),
            },
        }
    } else {
        jar_installed(path, mode, k, log)
    }
}

/// The warning about an `ITW_HOME` that is no directory.
pub open spec fn bad_home_note(home: Seq<char>) -> NoteView {
    (
        Level::Important,
        "custom ITW_HOME provided, but do not exists or is not directory: "@ + home,
    )
}

/// The search under `ITW_HOME`, which is made in every mode. Then the search beside the
/// launcher.
pub open spec fn jar_override(
    path: Seq<char>,
    name: Seq<char>,
    mode: ItwLibSearch,
    k: Knowledge,
    log: Seq<NoteView>,
) -> Outcome<Seq<char>> {
    match k.text(Topic::EnvVar, "ITW_HOME"@) {
        Err(q) => Err(q),
        Ok(None) => jar_bundled(path, name, mode, k, log),
        Ok(Some(home)) => match k.flag(Topic::IsDir, home) {
            Err(q) => Err(q),
            Ok(false) => jar_bundled(path, name, mode, k, log.push(bad_home_note(home))),
            Ok(true) => match jar_in_subdirs(home, name, k, 0, log) {
                Err(q) => Err(q),
                Ok((Some(found), notes)) => Ok((found, notes)),
                Ok((None, notes)) => jar_bundled(path, name, mode, k, notes),
            },
        },
    }
}

/// Where the jar with the installed location `path` is. A location that does not end in a
/// file name cannot be searched for and is its own answer.
pub open spec fn resolved_jar(path: Seq<char>, k: Knowledge, log: Seq<NoteView>) -> Outcome<
    Seq<char>,
> {
    match libsearch(k, log) {
        Err(q) => Err(q),
        Ok((mode, notes)) => match path_file_name(path) {
            None => jar_fallback(path, notes),
            Some(name) => jar_override(path, name, mode, k, notes),
        },
    }
}

/// Finds the jar whose installed location is `full_hardcoded_path`.
pub fn resolve_jar(full_hardcoded_path: &str, facts: &Facts, journal: &mut Journal) -> (r: Result<
    String,
    Query,
>)
    ensures
        settled(
            r,
            old(journal)@,
            final(journal)@,
            resolved_jar(full_hardcoded_path@, facts@, old(journal)@),
        ),
{
    let current_libsearch = get_libsearch(facts, journal)?;
    let name = match file_name(full_hardcoded_path) {
        Some(name) => name,
        None => {
            journal.important("Warning!, Fall back in resolve_jar to hardcoded paths: ");
            journal.important(full_hardcoded_path);
            return Ok(String::from_str(full_hardcoded_path));
        },
    };
    match facts.text(Topic::EnvVar, "ITW_HOME")? {
        Some(custom_dir) => {
            if is_dir(custom_dir.as_str(), facts)? {
                match try_jar_in_subdirs(custom_dir.as_str(), name.as_str(), facts, journal)? {
                    Some(candidate) => {
                        return Ok(candidate);
                    },
                    None => {},
                }
            } else {
                let info1 = glue(
                    "custom ITW_HOME provided, but do not exists or is not directory: ",
                    custom_dir.as_str(),
                );
                journal.important(info1.as_str());
            }
        },
        None => {},
    }
    if current_libsearch == ItwLibSearch::BUNDLED || current_libsearch == ItwLibSearch::EMBEDDED {
        let pgmdir = current_program_parent(facts)?;
        let pgmparent = directory(pgmdir.as_str());
        match try_jar_in_subdirs(pgmparent.as_str(), name.as_str(), facts, journal)? {
            Some(candidate) => {
                return Ok(candidate);
            },
            None => {},
        }
    }
    if current_libsearch == ItwLibSearch::DISTRIBUTION {
        if is_file(full_hardcoded_path, facts)? {
            journal.log(full_hardcoded_path);
            return Ok(String::from_str(full_hardcoded_path));
        }
    }
    journal.important("Warning!, Fall back in resolve_jar to hardcoded paths: ");
    journal.important(full_hardcoded_path);
    Ok(String::from_str(full_hardcoded_path))
}

/// Where the file of arguments for a modular runtime is.
pub fn resolve_argsfile(facts: &Facts, journal: &mut Journal) -> (r: Result<String, Query>)
    ensures
        settled(
            r,
            old(journal)@,
            final(journal)@,
            resolved_jar(MODULARJDK_ARGS_LOCATION@, facts@, old(journal)@),
        ),
{
    resolve_jar(get_argsfile(), facts, journal)
}

/// Where the splash image is.
pub fn resolve_splash(facts: &Facts, journal: &mut Journal) -> (r: Result<String, Query>)
    ensures
        settled(
            r,
            old(journal)@,
            final(journal)@,
            resolved_jar(SPLASH_PNG@, facts@, old(journal)@),
        ),
{
    resolve_jar(get_splash(), facts, journal)
}

/// The search of the local directories asks only for what is missing.
pub proof fn lemma_jar_in_subdirs_asks_what_is_missing(
    dir: Seq<char>,
    name: Seq<char>,
    k: Knowledge,
    i: int,
    log: Seq<NoteView>,
)
    ensures
        asks_what_is_missing(jar_in_subdirs(dir, name, k, i, log), k),
    decreases 5 - i,
{
    if 0 <= i < 5 {
        let candidate = jar_candidate(dir, name, i);
        lemma_jar_in_subdirs_asks_what_is_missing(
            dir,
            name,
            k,
            i + 1,
            log.push(trying_note(candidate)),
        );
    }
}

/// The search of the local directories finds the first of them that holds the file: the
/// file in directory number `i`, where the facts say that it is there and that it is in
/// none of the directories before.
pub proof fn lemma_jar_in_subdirs_finds_first(
    dir: Seq<char>,
    name: Seq<char>,
    k: Knowledge,
    from: int,
    i: int,
    log: Seq<NoteView>,
)
    requires
        0 <= from <= i < 5,
        k.flag(Topic::IsFile, jar_candidate(dir, name, i)) == Ok::<bool, QueryView>(true),
        forall|j: int|
            from <= j < i ==> k.flag(Topic::IsFile, #[trigger] jar_candidate(dir, name, j)) == Ok::<
                bool,
                QueryView,
            >(false),
    ensures
        jar_in_subdirs(dir, name, k, from, log) matches Ok((found, _)) && found == Some(
            jar_candidate(dir, name, i),
        ),
    decreases i - from,
{
    if from < i {
        let candidate = jar_candidate(dir, name, from);
        lemma_jar_in_subdirs_finds_first(
            dir,
            name,
            k,
            from + 1,
            i,
            log.push(trying_note(candidate)),
        );
    }
}

/// The search for a jar stops only at a question that the table cannot answer: where it
/// does not end with a path, it names a question without a usable answer.
pub proof fn law_resolve_jar_asks_what_is_missing(path: Seq<char>, k: Knowledge, log: Seq<NoteView>)
    ensures
        asks_what_is_missing(resolved_jar(path, k, log), k),
{
    match libsearch(k, log) {
        Err(q) => {},
        Ok((mode, notes)) => match path_file_name(path) {
            None => {},
            Some(name) => {
                assert forall|l: Seq<NoteView>| #[trigger]
                    asks_what_is_missing(jar_bundled(path, name, mode, k, l), k) by {
                    match program(k) {
                        Ok(p) => {
                            lemma_jar_in_subdirs_asks_what_is_missing(
                                directory_of(directory_of(p)),
                                name,
                                k,
                                0,
                                l,
                            );
                        },
                        Err(q) => {},
                    }
                }
                match k.text(Topic::EnvVar, "ITW_HOME"@) {
                    Ok(Some(home)) => {
                        lemma_jar_in_subdirs_asks_what_is_missing(home, name, k, 0, notes);
                    },
                    _ => {},
                }
            },
        },
    }
}

/// A jar is always resolved to a path: with every question answered, the search for the
/// jar at `path` ends with a path, whatever the answers are.
pub proof fn law_resolve_jar_always_returns_a_path(
    path: Seq<char>,
    k: Knowledge,
    log: Seq<NoteView>,
)
    requires
        k.complete(),
    ensures
        resolved_jar(path, k, log) is Ok,
{
    law_resolve_jar_asks_what_is_missing(path, k, log);
    lemma_complete_knowledge_suffices(resolved_jar(path, k, log), k);
}

/// The questions that the search for the jar at `path` can put to a table that says what
/// `k` says: fifteen at most. Which directories are searched depends on what the table
/// says of `ITW_HOME` and of the running program.
pub open spec fn jar_questions(path: Seq<char>, k: Knowledge) -> Set<QueryView> {
    let name = path_file_name(path);
    let basic: Set<QueryView> = set![
        (Topic::EnvVar, "ITW_LIBS"@),
        (Topic::EnvVar, "ITW_HOME"@),
        (Topic::CurrentProgram, ""@),
        (Topic::IsFile, path),
    ];
    let under_home: Set<QueryView> = match (k.text(Topic::EnvVar, "ITW_HOME"@), name) {
        (Ok(Some(home)), Some(n)) => Set::new(
            |q: QueryView|
                q == (Topic::IsDir, home) || exists|i: int|
                    0 <= i < 5 && q == (Topic::IsFile, #[trigger] jar_candidate(home, n, i)),
        ),
        _ => Set::empty(),
    };
    let beside_launcher: Set<QueryView> = match (program(k), name) {
        (Ok(p), Some(n)) => Set::new(
            |q: QueryView|
                exists|i: int|
                    0 <= i < 5 && q == (
                        Topic::IsFile,
                        #[trigger] jar_candidate(directory_of(directory_of(p)), n, i),
                    ),
        ),
        _ => Set::empty(),
    };
    basic + under_home + beside_launcher
}

/// The search of the local directories asks only whether one of its five candidates is a
/// file.
pub proof fn lemma_jar_in_subdirs_asks_about_candidates(
    dir: Seq<char>,
    name: Seq<char>,
    k: Knowledge,
    i: int,
    log: Seq<NoteView>,
)
    ensures
        jar_in_subdirs(dir, name, k, i, log) matches Err(q) ==> exists|j: int|
            0 <= j < 5 && q == (Topic::IsFile, #[trigger] jar_candidate(dir, name, j)),
    decreases 5 - i,
{
    if 0 <= i < 5 {
        let candidate = jar_candidate(dir, name, i);
        lemma_jar_in_subdirs_asks_about_candidates(
            dir,
            name,
            k,
            i + 1,
            log.push(trying_note(candidate)),
        );
    }
}

/// A jar is resolved after a handful of answers: the search asks no question outside
/// `jar_questions`, so a table that answers those few ends it with a path.
pub proof fn law_resolve_jar_needs_few_answers(path: Seq<char>, k: Knowledge, log: Seq<NoteView>)
    ensures
        resolved_jar(path, k, log) matches Err(q) ==> jar_questions(path, k).contains(q),
        (forall|q: QueryView| jar_questions(path, k).contains(q) ==> k.usable(q)) ==> resolved_jar(
            path,
            k,
            log,
        ) is Ok,
{
    law_resolve_jar_asks_what_is_missing(path, k, log);
    match libsearch(k, log) {
        Err(q) => {},
        Ok((mode, notes)) => match path_file_name(path) {
            None => {},
            Some(name) => {
                assert forall|l: Seq<NoteView>|
                    jar_bundled(path, name, mode, k, l) is Err implies jar_questions(
                        path,
                        k,
                    ).contains(#[trigger] jar_bundled(path, name, mode, k, l)->Err_0) by {
                    match program(k) {
                        Ok(p) => {
                            lemma_jar_in_subdirs_asks_about_candidates(
                                directory_of(directory_of(p)),
                                name,
                                k,
                                0,
                                l,
                            );
                        },
                        Err(q) => {},
                    }
                }
                match k.text(Topic::EnvVar, "ITW_HOME"@) {
                    Ok(Some(home)) => {
                        lemma_jar_in_subdirs_asks_about_candidates(home, name, k, 0, notes);
                    },
                    _ => {},
                }
            },
        },
    }
}

/// What `ITW_HOME` holds wins in every search mode: where `ITW_HOME` names a directory and
/// one of the local directories under it holds the file that the installed location is
/// named after, the first such file is the jar, whatever the search mode is.
pub proof fn law_itw_home_wins_in_every_mode(
    path: Seq<char>,
    k: Knowledge,
    log: Seq<NoteView>,
    home: Seq<char>,
    name: Seq<char>,
    i: int,
)
    requires
        k.text(Topic::EnvVar, "ITW_LIBS"@) is Ok,
        path_file_name(path) == Some(name),
        k.text(Topic::EnvVar, "ITW_HOME"@) == Ok::<Option<Seq<char>>, QueryView>(Some(home)),
        k.flag(Topic::IsDir, home) == Ok::<bool, QueryView>(true),
        0 <= i < 5,
        k.flag(Topic::IsFile, jar_candidate(home, name, i)) == Ok::<bool, QueryView>(true),
        forall|j: int|
            0 <= j < i ==> k.flag(Topic::IsFile, #[trigger] jar_candidate(home, name, j)) == Ok::<
                bool,
                QueryView,
            >(false),
    ensures
        resolved_jar(path, k, log) matches Ok((found, _)) && found == jar_candidate(home, name, i),
{
    let (mode, notes) = libsearch(k, log)->Ok_0;
    lemma_jar_in_subdirs_finds_first(home, name, k, 0, i, notes);
}

/// In distribution mode nothing is searched beside the launcher: apart from the override
/// in `ITW_HOME`, only the installed location is looked at. Two tables that agree on the
/// search mode, on the absence of `ITW_HOME` and on the installed location give the same
/// jar, whatever else they hold.
pub proof fn law_distribution_looks_at_installed_location_only(
    path: Seq<char>,
    first: Knowledge,
    second: Knowledge,
    log: Seq<NoteView>,
    over: Option<Seq<char>>,
)
    requires
        first.text(Topic::EnvVar, "ITW_LIBS"@) == Ok::<Option<Seq<char>>, QueryView>(over),
        second.text(Topic::EnvVar, "ITW_LIBS"@) == Ok::<Option<Seq<char>>, QueryView>(over),
        crate::hardcoded_paths::chosen_mode(over, crate::hardcoded_paths::ITW_LIBS@) == Some(
            ItwLibSearch::DISTRIBUTION,
        ),
        first.text(Topic::EnvVar, "ITW_HOME"@) == Ok::<Option<Seq<char>>, QueryView>(None),
        second.text(Topic::EnvVar, "ITW_HOME"@) == Ok::<Option<Seq<char>>, QueryView>(None),
        first.flag(Topic::IsFile, path) == second.flag(Topic::IsFile, path),
    ensures
        resolved_jar(path, first, log) == resolved_jar(path, second, log),
        first.flag(Topic::IsFile, path) is Ok ==> (resolved_jar(path, first, log) matches Ok(
            (found, _),
        ) && found == path),
{
}

/// A list of class path members under construction, with the journal.
pub type Members = Outcome<Seq<Seq<char>>>;

/// The list with one jar more: the jar is resolved and put at the end. A jar that the
/// build does not name leaves the list as it is.
pub open spec fn with_jar(so_far: Members, jar: Option<Seq<char>>, k: Knowledge) -> Members {
    match so_far {
        Err(q) => Err(q),
        Ok((members, log)) => match jar {
            None => Ok((members, log)),
            Some(path) => match resolved_jar(path, k, log) {
                Err(q) => Err(q),
                Ok((found, notes)) => Ok((members.push(found), notes)),
            },
        },
    }
}

/// Resolves a jar, where the build names one, and puts it at the end of the list.
fn append_if_exists(
    value: Option<&'static str>,
    facts: &Facts,
    journal: &mut Journal,
    vec: Vec<String>,
) -> (r: Result<Vec<String>, Query>)
    ensures
        settled(r, old(journal)@, final(journal)@,
            with_jar(Ok((vec.deep_view(), old(journal)@)), value.deep_view(), facts@),
        ),
{
    let mut vec = vec;
    match value {
        Some(s) => {
            let found = resolve_jar(s, facts, journal)?;
            let ghost before = vec.deep_view();
            vec.push(found);
            assert(vec.deep_view() =~= before.push(found@));
            Ok(vec)
        },
        None => Ok(vec),
    }
}

/// Whether an entry is struck out by one of the `tokens`: by one that is not blank and
/// occurs in the entry.
pub open spec fn excluded(entry: Seq<char>, tokens: Seq<Seq<char>>) -> bool {
    exists|j: int|
        0 <= j < tokens.len() && !is_blank(#[trigger] tokens[j]) && has_infix(entry, tokens[j])
}

/// The entries that no token strikes out, in their order.
pub open spec fn without_excluded(entries: Seq<Seq<char>>, tokens: Seq<Seq<char>>) -> Seq<
    Seq<char>,
>
    decreases entries.len(),
{
    if entries.len() == 0 {
        entries
    } else {
        let rest = without_excluded(entries.drop_last(), tokens);
        if excluded(entries.last(), tokens) {
            rest
        } else {
            rest.push(entries.last())
        }
    }
}

/// Whether one of the tokens strikes the entry out.
pub fn is_excluded(entry: &str, tokens: &Vec<String>) -> (r: bool)
    ensures
        r == excluded(entry@, tokens.deep_view()),
{
    let mut j: usize = 0;
    while j < tokens.len()
        invariant
            j <= tokens.len(),
            forall|i: int|
                0 <= i < j ==> !(!is_blank(#[trigger] tokens.deep_view()[i]) && has_infix(
                    entry@,
                    tokens.deep_view()[i],
                )),
        decreases tokens.len() - j,
    {
        let value = tokens[j].as_str();
        assert(tokens.deep_view()[j as int] == value@);
        if trim(value).as_str().unicode_len() > 0 && contains(entry, value) {
            return true;
        }
        j += 1;
    }
    false
}

/// Strikes out of `vec` every entry in which one of the words of `val` occurs. The words
/// are parted by single spaces.
pub fn filter_out_val(val: String, vec: &mut Vec<String>)
    ensures
        final(vec).deep_view() == without_excluded(old(vec).deep_view(), split_on(val@, ' ')),
{
    let tokens = split(val.as_str(), ' ');
    let mut kept: Vec<String> = Vec::new();
    let mut i: usize = 0;
    assert(vec.deep_view().subrange(0, 0) =~= Seq::<Seq<char>>::empty());
    assert(kept.deep_view() =~= Seq::<Seq<char>>::empty());
    while i < vec.len()
        invariant
            i <= vec.len(),
            vec == old(vec),
            tokens.deep_view() == split_on(val@, ' '),
            kept.deep_view() == without_excluded(
                vec.deep_view().subrange(0, i as int),
                tokens.deep_view(),
            ),
        decreases vec.len() - i,
    {
        proof {
            let upto = vec.deep_view().subrange(0, i + 1);
            assert(upto.drop_last() =~= vec.deep_view().subrange(0, i as int));
            assert(upto.last() == vec@[i as int]@);
        }
        if !is_excluded(vec[i].as_str(), &tokens) {
            let ghost before = kept.deep_view();
            kept.push(vec[i].clone());
            assert(kept.deep_view() =~= before.push(vec@[i as int]@));
        }
        i += 1;
    }
    assert(vec.deep_view().subrange(0, vec.len() as int) =~= vec.deep_view());
    *vec = kept;
}

/// The words among `tokens` that are not blank, in their order.
pub open spec fn non_blank(tokens: Seq<Seq<char>>) -> Seq<Seq<char>>
    decreases tokens.len(),
{
    if tokens.len() == 0 {
        tokens
    } else if is_blank(tokens.last()) {
        non_blank(tokens.drop_last())
    } else {
        non_blank(tokens.drop_last()).push(tokens.last())
    }
}

/// The paths that a value names: its words, parted by single spaces, each as it is
/// written. What is blank between two spaces is no word and names no path.
pub open spec fn named_paths(val: Seq<char>) -> Seq<Seq<char>> {
    non_blank(split_on(val, ' '))
}

/// Puts the paths that `val` names at the end of `vec`, each as it is written. A value
/// that names none, such as an empty one, leaves `vec` as it is.
pub fn filter_in_val(val: String, vec: &mut Vec<String>)
    ensures
        final(vec).deep_view() == old(vec).deep_view() + named_paths(val@),
{
    let tokens = split(val.as_str(), ' ');
    let mut i: usize = 0;
    assert(tokens.deep_view().subrange(0, 0) =~= Seq::<Seq<char>>::empty());
    assert(vec.deep_view() + Seq::<Seq<char>>::empty() =~= vec.deep_view());
    while i < tokens.len()
        invariant
            i <= tokens.len(),
            tokens.deep_view() == split_on(val@, ' '),
            vec.deep_view() == old(vec).deep_view() + non_blank(
                tokens.deep_view().subrange(0, i as int),
            ),
        decreases tokens.len() - i,
    {
        proof {
            let upto = tokens.deep_view().subrange(0, i + 1);
            assert(upto.drop_last() =~= tokens.deep_view().subrange(0, i as int));
            assert(upto.last() == tokens@[i as int]@);
        }
        let word = tokens[i].as_str();
        if trim(word).as_str().unicode_len() > 0 {
            let ghost before = vec.deep_view();
            vec.push(tokens[i].clone());
            assert(vec.deep_view() =~= before.push(tokens@[i as int]@));
            assert(vec.deep_view() =~= old(vec).deep_view() + non_blank(
                tokens.deep_view().subrange(0, i + 1),
            ));
        }
        i += 1;
    }
    assert(tokens.deep_view().subrange(0, tokens.len() as int) =~= tokens.deep_view());
}

/// No path that a value names is blank: nothing empty is ever added to a class path.
pub proof fn law_named_paths_are_not_blank(tokens: Seq<Seq<char>>, i: int)
    requires
        0 <= i < non_blank(tokens).len(),
    ensures
        !is_blank(non_blank(tokens)[i]),
        non_blank(tokens)[i].len() > 0,
    decreases tokens.len(),
{
    if tokens.len() > 0 {
        let rest = non_blank(tokens.drop_last());
        if i < rest.len() {
            law_named_paths_are_not_blank(tokens.drop_last(), i);
        }
    }
}

/// A value without a word that is not blank names no path and strikes no entry out; the
/// empty value is such a value.
pub proof fn law_blank_value_changes_nothing(val: Seq<char>, entries: Seq<Seq<char>>)
    requires
        forall|j: int|
            0 <= j < split_on(val, ' ').len() ==> is_blank(#[trigger] split_on(val, ' ')[j]),
    ensures
        named_paths(val) == Seq::<Seq<char>>::empty(),
        without_excluded(entries, split_on(val, ' ')) == entries,
{
    lemma_all_blank(split_on(val, ' '));
    lemma_nothing_excluded(entries, split_on(val, ' '));
}

proof fn lemma_all_blank(tokens: Seq<Seq<char>>)
    requires
        forall|j: int| 0 <= j < tokens.len() ==> is_blank(#[trigger] tokens[j]),
    ensures
        non_blank(tokens) == Seq::<Seq<char>>::empty(),
    decreases tokens.len(),
{
    if tokens.len() > 0 {
        let rest = tokens.drop_last();
        assert forall|j: int| 0 <= j < rest.len() implies is_blank(#[trigger] rest[j]) by {
            assert(rest[j] == tokens[j]);
        }
        lemma_all_blank(rest);
    }
}

proof fn lemma_nothing_excluded(entries: Seq<Seq<char>>, tokens: Seq<Seq<char>>)
    requires
        forall|j: int| 0 <= j < tokens.len() ==> is_blank(#[trigger] tokens[j]),
    ensures
        without_excluded(entries, tokens) == entries,
    decreases entries.len(),
{
    if entries.len() > 0 {
        lemma_nothing_excluded(entries.drop_last(), tokens);
        assert(entries.drop_last().push(entries.last()) =~= entries);
    }
}

/// The list without the entries that the configuration strikes out under `key`.
pub open spec fn filtered_out<O: Os>(
    so_far: Members,
    key: Seq<char>,
    os: &O,
    k: Knowledge,
) -> Members {
    match so_far {
        Err(q) => Err(q),
        Ok((members, log)) => match direct_key(os, key, k, log) {
            Err(q) => Err(q),
            Ok((val, notes)) => Ok((without_excluded(members, split_on(val, ' ')), notes)),
        },
    }
}

/// The list with the paths that the configuration adds under `key`: where no
/// configuration file has a value under the key, the list as it is; where one has, the
/// list followed by the paths that the value names.
pub open spec fn filtered_in<O: Os>(
    so_far: Members,
    key: Seq<char>,
    os: &O,
    k: Knowledge,
) -> Members {
    match so_far {
        Err(q) => Err(q),
        Ok((members, log)) => match key_from_properties(
            os,
            NotMandatoryPathValidator {  },
            key,
            k,
            log,
        ) {
            Err(q) => Err(q),
            Ok((None, notes)) => Ok((members, notes)),
            Ok((Some(val), notes)) => Ok((members + named_paths(val), notes)),
        },
    }
}

/// Strikes out of the list what the configuration names under `key`.
fn filter_out_key<O: Os>(
    key: &str,
    os: &O,
    facts: &Facts,
    journal: &mut Journal,
    vec: Vec<String>,
) -> (r: Result<Vec<String>, Query>)
    ensures
        settled(r, old(journal)@, final(journal)@,
            filtered_out(Ok((vec.deep_view(), old(journal)@)), key@, os, facts@),
        ),
{
    let mut vec = vec;
    let val = try_direct_key_from_properties(key, os, facts, journal)?;
    filter_out_val(val, &mut vec);
    Ok(vec)
}

/// Adds to the list the paths that the configuration names under `key`, if it has a value
/// under the key at all.
fn filter_in_key<O: Os>(
    key: &str,
    os: &O,
    facts: &Facts,
    journal: &mut Journal,
    vec: Vec<String>,
) -> (r: Result<Vec<String>, Query>)
    ensures
        settled(r, old(journal)@, final(journal)@,
            filtered_in(Ok((vec.deep_view(), old(journal)@)), key@, os, facts@),
        ),
{
    let mut vec = vec;
    match try_key_from_properties(os, key, &NotMandatoryPathValidator {  }, facts, journal)? {
        Some(val) => {
            filter_in_val(val, &mut vec);
        },
        None => {},
    }
    Ok(vec)
}

/// The script engine that the runtime in `jre` brings along.
pub open spec fn nashorn_jar(jre: Seq<char>) -> Seq<char> {
    path_join(path_join(path_join(jre, "lib"@), "ext"@), "nashorn.jar"@)
}

/// The jars of the launcher, each resolved: the launcher's own jar, then the optional jars
/// that the build names. An optional jar that the build does not name leaves no entry.
pub open spec fn installed_jars(k: Knowledge, log: Seq<NoteView>) -> Members {
    let javaws = with_jar(Ok((Seq::empty(), log)), Some(JAVAWS_JAR@), k);
    let rhino = with_jar(javaws, sanitized(Some(RHINO_JAR@)), k);
    let tagsoup = with_jar(rhino, sanitized(Some(TAGSOUP_JAR@)), k);
    let mslinks = with_jar(tagsoup, sanitized(Some(MSLINKS_JAR@)), k);
    let gson = with_jar(mslinks, sanitized(Some(GSON_JAR@)), k);
    with_jar(gson, sanitized(Some(IPADDRESS_JAR@)), k)
}

/// The members of the boot class path: the launcher's jars; the runtime's script engine;
/// less what the configuration strikes out, plus what it adds.
pub open spec fn bootcp_members<O: Os>(
    jre: Seq<char>,
    os: &O,
    k: Knowledge,
    log: Seq<NoteView>,
) -> Members {
    let all = match installed_jars(k, log) {
        Err(q) => Err(q),
        Ok((members, notes)) => Ok((members.push(nashorn_jar(jre)), notes)),
    };
    filtered_in(
        filtered_out(all, "deployment.launcher.rust.bootcp.remove"@, os, k),
        "deployment.launcher.rust.bootcp.add"@,
        os,
        k,
    )
}

/// Collects the members of the boot class path.
pub fn get_bootcp_members<O: Os>(
    jre_path: &str,
    os: &O,
    facts: &Facts,
    journal: &mut Journal,
) -> (r: Result<Vec<String>, Query>)
    ensures
        settled(
            r,
            old(journal)@,
            final(journal)@,
            bootcp_members(jre_path@, os, facts@, old(journal)@),
        ),
{
    let mut cp_parts: Vec<String> = Vec::new();
    assert(cp_parts.deep_view() =~= Seq::<Seq<char>>::empty());
    cp_parts = append_if_exists(Some(get_javaws()), facts, journal, cp_parts)?;
    cp_parts = append_if_exists(get_rhino(), facts, journal, cp_parts)?;
    cp_parts = append_if_exists(get_tagsoup(), facts, journal, cp_parts)?;
    cp_parts = append_if_exists(get_mslinks(), facts, journal, cp_parts)?;
    cp_parts = append_if_exists(get_gson(), facts, journal, cp_parts)?;
    cp_parts = append_if_exists(get_ipaddress(), facts, journal, cp_parts)?;
    let nashorn_jar = join(join(join(jre_path, "lib").as_str(), "ext").as_str(), "nashorn.jar");
    let ghost before = cp_parts.deep_view();
    cp_parts.push(nashorn_jar);
    assert(cp_parts.deep_view() =~= before.push(nashorn_jar@));
    cp_parts = filter_out_key(
        "deployment.launcher.rust.bootcp.remove",
        os,
        facts,
        journal,
        cp_parts,
    )?;
    filter_in_key("deployment.launcher.rust.bootcp.add", os, facts, journal, cp_parts)
}

/// The members of the class path: the runtime's own library and its JavaFX library; less
/// what the configuration strikes out, plus what it adds.
pub open spec fn cp_members<O: Os>(
    jre: Seq<char>,
    os: &O,
    k: Knowledge,
    log: Seq<NoteView>,
) -> Members {
    let all: Members = Ok(
        (
            seq![
                path_join(path_join(jre, "lib"@), "rt.jar"@),
                path_join(path_join(path_join(jre, "lib"@), "ext"@), "jfxrt.jar"@),
            ],
            log,
        ),
    );
    filtered_in(
        filtered_out(all, "deployment.launcher.rust.cp.remove"@, os, k),
        "deployment.launcher.rust.cp.add"@,
        os,
        k,
    )
}

/// Collects the members of the class path.
pub fn get_cp_members<O: Os>(jre_path: &str, os: &O, facts: &Facts, journal: &mut Journal) -> (r:
    Result<Vec<String>, Query>)
    ensures
        settled(
            r,
            old(journal)@,
            final(journal)@,
            cp_members(jre_path@, os, facts@, old(journal)@),
        ),
{
    let mut cp_parts: Vec<String> = Vec::new();
    let rt_jar = join(join(jre_path, "lib").as_str(), "rt.jar");
    let jfxrt_jar = join(join(join(jre_path, "lib").as_str(), "ext").as_str(), "jfxrt.jar");
    cp_parts.push(rt_jar);
    cp_parts.push(jfxrt_jar);
    assert(cp_parts.deep_view() =~= seq![rt_jar@, jfxrt_jar@]);
    cp_parts = filter_out_key("deployment.launcher.rust.cp.remove", os, facts, journal, cp_parts)?;
    filter_in_key("deployment.launcher.rust.cp.add", os, facts, journal, cp_parts)
}

/// Writes the members of a class path one after another, with the platform's separator
/// between neighbours. Nothing is left out and nothing is changed: a member that occurs
/// twice is written twice.
pub fn compose_class_path<O: Os>(members: Vec<String>, os: &O) -> (r: String)
    ensures
        r@ == joined(members.deep_view(), seq![os.separator()]),
{
    let separator = char_text(os.get_classpath_separator());
    crate::journal::join(&members, separator.as_str())
}

/// The class path as one text.
pub open spec fn classpath<O: Os>(
    jre: Seq<char>,
    os: &O,
    k: Knowledge,
    log: Seq<NoteView>,
) -> Outcome<Seq<char>> {
    match cp_members(jre, os, k, log) {
        Err(q) => Err(q),
        Ok((members, notes)) => Ok((joined(members, seq![os.separator()]), notes)),
    }
}

/// The class path for the runtime in `jre_path`.
pub fn get_classpath<O: Os>(jre_path: &str, os: &O, facts: &Facts, journal: &mut Journal) -> (r:
    Result<String, Query>)
    ensures
        settled(r, old(journal)@, final(journal)@, classpath(jre_path@, os, facts@, old(journal)@)),
{
    let members = get_cp_members(jre_path, os, facts, journal)?;
    Ok(compose_class_path(members, os))
}

/// The switch that puts the boot class path behind the runtime's own.
pub open spec fn bootclasspath<O: Os>(
    jre: Seq<char>,
    os: &O,
    k: Knowledge,
    log: Seq<NoteView>,
) -> Outcome<Seq<char>> {
    match bootcp_members(jre, os, k, log) {
        Err(q) => Err(q),
        Ok((members, notes)) => Ok(
            ("-Xbootclasspath/a:"@ + joined(members, seq![os.separator()]), notes),
        ),
    }
}

/// The boot class path switch for the runtime in `jre_path`.
pub fn get_bootclasspath<O: Os>(jre_path: &str, os: &O, facts: &Facts, journal: &mut Journal) -> (r:
    Result<String, Query>)
    ensures
        settled(
            r,
            old(journal)@,
            final(journal)@,
            bootclasspath(jre_path@, os, facts@, old(journal)@),
        ),
{
    let members = get_bootcp_members(jre_path, os, facts, journal)?;
    Ok(glue("-Xbootclasspath/a:", compose_class_path(members, os).as_str()))
}

/// What the key of a class path gives where no configuration file has a value under it.
pub open spec fn key_is_absent<O: Os>(
    os: &O,
    key: Seq<char>,
    k: Knowledge,
    before: Seq<NoteView>,
    after: Seq<NoteView>,
) -> bool {
    key_from_properties(os, NotMandatoryPathValidator {  }, key, k, before) matches Ok(
        (found, notes),
    ) && found is None && notes == after
}

/// A key without a value changes no list: nothing is struck out and nothing is added,
/// and no empty member appears.
pub proof fn law_absent_key_changes_nothing<O: Os>(
    members: Seq<Seq<char>>,
    key: Seq<char>,
    os: &O,
    k: Knowledge,
    before: Seq<NoteView>,
    after: Seq<NoteView>,
)
    requires
        key_is_absent(os, key, k, before, after),
    ensures
        filtered_out(Ok((members, before)), key, os, k) == Ok::<
            (Seq<Seq<char>>, Seq<NoteView>),
            QueryView,
        >((members, after)),
        filtered_in(Ok((members, before)), key, os, k) == Ok::<
            (Seq<Seq<char>>, Seq<NoteView>),
            QueryView,
        >((members, after)),
{
    let nothing = Seq::<char>::empty();
    assert(split_on(nothing, ' ') =~= seq![nothing]);
    assert(is_blank(nothing));
    law_blank_value_changes_nothing(nothing, members);
}

/// Without configuration the class path is the runtime's own library and its JavaFX
/// library, in this order, with one separator between them: two entries, none of them
/// empty, no separator at either end.
pub proof fn law_class_path_without_configuration<O: Os>(
    jre: Seq<char>,
    os: &O,
    k: Knowledge,
    log: Seq<NoteView>,
    l1: Seq<NoteView>,
    l2: Seq<NoteView>,
)
    requires
        key_is_absent(os, "deployment.launcher.rust.cp.remove"@, k, log, l1),
        key_is_absent(os, "deployment.launcher.rust.cp.add"@, k, l1, l2),
    ensures
        cp_members(jre, os, k, log) == Ok::<(Seq<Seq<char>>, Seq<NoteView>), QueryView>(
            (
                seq![
                    path_join(path_join(jre, "lib"@), "rt.jar"@),
                    path_join(path_join(path_join(jre, "lib"@), "ext"@), "jfxrt.jar"@),
                ],
                l2,
            ),
        ),
        classpath(jre, os, k, log) == Ok::<(Seq<char>, Seq<NoteView>), QueryView>(
            (
                path_join(path_join(jre, "lib"@), "rt.jar"@) + seq![os.separator()] + path_join(
                    path_join(path_join(jre, "lib"@), "ext"@),
                    "jfxrt.jar"@,
                ),
                l2,
            ),
        ),
{
    let rt = path_join(path_join(jre, "lib"@), "rt.jar"@);
    let jfxrt = path_join(path_join(path_join(jre, "lib"@), "ext"@), "jfxrt.jar"@);
    let members = seq![rt, jfxrt];
    law_absent_key_changes_nothing(members, "deployment.launcher.rust.cp.remove"@, os, k, log, l1);
    law_absent_key_changes_nothing(members, "deployment.launcher.rust.cp.add"@, os, k, l1, l2);
    assert(members.drop_last() =~= seq![rt]);
    assert(joined(members.drop_last(), seq![os.separator()]) == rt);
}

/// Without configuration the boot class path is the launcher's jars followed by the
/// runtime's script engine, and the switch is `-Xbootclasspath/a:` followed by these,
/// joined by the separator: the script engine is the last entry and nothing follows it.
pub proof fn law_boot_class_path_without_configuration<O: Os>(
    jre: Seq<char>,
    os: &O,
    k: Knowledge,
    log: Seq<NoteView>,
    jars: Seq<Seq<char>>,
    l0: Seq<NoteView>,
    l1: Seq<NoteView>,
    l2: Seq<NoteView>,
)
    requires
        installed_jars(k, log) matches Ok((found, notes)) && found == jars && notes == l0,
        key_is_absent(os, "deployment.launcher.rust.bootcp.remove"@, k, l0, l1),
        key_is_absent(os, "deployment.launcher.rust.bootcp.add"@, k, l1, l2),
    ensures
        bootcp_members(jre, os, k, log) == Ok::<(Seq<Seq<char>>, Seq<NoteView>), QueryView>(
            (jars.push(nashorn_jar(jre)), l2),
        ),
        bootclasspath(jre, os, k, log) == Ok::<(Seq<char>, Seq<NoteView>), QueryView>(
            (
                "-Xbootclasspath/a:"@ + joined(
                    jars.push(nashorn_jar(jre)),
                    seq![os.separator()],
                ),
                l2,
            ),
        ),
        jars.len() > 0 ==> joined(jars.push(nashorn_jar(jre)), seq![os.separator()]) == joined(
            jars,
            seq![os.separator()],
        ) + seq![os.separator()] + nashorn_jar(jre),
{
    let members = jars.push(nashorn_jar(jre));
    law_absent_key_changes_nothing(
        members,
        "deployment.launcher.rust.bootcp.remove"@,
        os,
        k,
        l0,
        l1,
    );
    law_absent_key_changes_nothing(members, "deployment.launcher.rust.bootcp.add"@, os, k, l1, l2);
    assert(members.drop_last() =~= jars);
}

/// The list of the members of a class path asks only for what is missing.
pub proof fn lemma_members_ask_what_is_missing<O: Os>(
    so_far: Members,
    jar: Option<Seq<char>>,
    key: Seq<char>,
    os: &O,
    k: Knowledge,
)
    requires
        asks_what_is_missing(so_far, k),
    ensures
        asks_what_is_missing(with_jar(so_far, jar, k), k),
        asks_what_is_missing(filtered_out(so_far, key, os, k), k),
        asks_what_is_missing(filtered_in(so_far, key, os, k), k),
{
    match so_far {
        Ok((members, log)) => {
            match jar {
                Some(path) => {
                    law_resolve_jar_asks_what_is_missing(path, k, log);
                },
                None => {},
            }
            lemma_key_from_properties_asks_what_is_missing(
                os,
                NotMandatoryPathValidator {  },
                key,
                k,
                log,
            );
        },
        Err(q) => {},
    }
}

/// The class paths ask only for what is missing.
pub proof fn lemma_class_paths_ask_what_is_missing<O: Os>(
    jre: Seq<char>,
    os: &O,
    k: Knowledge,
    log: Seq<NoteView>,
)
    ensures
        asks_what_is_missing(bootcp_members(jre, os, k, log), k),
        asks_what_is_missing(cp_members(jre, os, k, log), k),
        asks_what_is_missing(bootclasspath(jre, os, k, log), k),
        asks_what_is_missing(classpath(jre, os, k, log), k),
{
    let none: Seq<char> = Seq::empty();
    let begun: Members = Ok((Seq::empty(), log));
    let javaws = with_jar(begun, Some(JAVAWS_JAR@), k);
    lemma_members_ask_what_is_missing(begun, Some(JAVAWS_JAR@), none, os, k);
    let rhino = with_jar(javaws, sanitized(Some(RHINO_JAR@)), k);
    lemma_members_ask_what_is_missing(javaws, sanitized(Some(RHINO_JAR@)), none, os, k);
    let tagsoup = with_jar(rhino, sanitized(Some(TAGSOUP_JAR@)), k);
    lemma_members_ask_what_is_missing(rhino, sanitized(Some(TAGSOUP_JAR@)), none, os, k);
    let mslinks = with_jar(tagsoup, sanitized(Some(MSLINKS_JAR@)), k);
    lemma_members_ask_what_is_missing(tagsoup, sanitized(Some(MSLINKS_JAR@)), none, os, k);
    let gson = with_jar(mslinks, sanitized(Some(GSON_JAR@)), k);
    lemma_members_ask_what_is_missing(mslinks, sanitized(Some(GSON_JAR@)), none, os, k);
    let ipaddress = with_jar(gson, sanitized(Some(IPADDRESS_JAR@)), k);
    lemma_members_ask_what_is_missing(gson, sanitized(Some(IPADDRESS_JAR@)), none, os, k);
    let all: Members = match ipaddress {
        Err(q) => Err(q),
        Ok((members, notes)) => Ok((members.push(nashorn_jar(jre)), notes)),
    };
    let kept = filtered_out(all, "deployment.launcher.rust.bootcp.remove"@, os, k);
    lemma_members_ask_what_is_missing(all, None, "deployment.launcher.rust.bootcp.remove"@, os, k);
    lemma_members_ask_what_is_missing(kept, None, "deployment.launcher.rust.bootcp.add"@, os, k);
    let plain: Members = Ok(
        (
            seq![
                path_join(path_join(jre, "lib"@), "rt.jar"@),
                path_join(path_join(path_join(jre, "lib"@), "ext"@), "jfxrt.jar"@),
            ],
            log,
        ),
    );
    let cp_kept = filtered_out(plain, "deployment.launcher.rust.cp.remove"@, os, k);
    lemma_members_ask_what_is_missing(plain, None, "deployment.launcher.rust.cp.remove"@, os, k);
    lemma_members_ask_what_is_missing(cp_kept, None, "deployment.launcher.rust.cp.add"@, os, k);
}

/// What the search of the local directories found stays when the table learns more.
pub proof fn lemma_jar_in_subdirs_stays(
    dir: Seq<char>,
    name: Seq<char>,
    k: Knowledge,
    more: Knowledge,
    i: int,
    log: Seq<NoteView>,
)
    requires
        k.within(more),
    ensures
        stays(jar_in_subdirs(dir, name, k, i, log), jar_in_subdirs(dir, name, more, i, log)),
    decreases 5 - i,
{
    if 0 <= i < 5 {
        let candidate = jar_candidate(dir, name, i);
        lemma_answers_stay(k, more, Topic::IsFile, candidate);
        lemma_jar_in_subdirs_stays(dir, name, k, more, i + 1, log.push(trying_note(candidate)));
    }
}

/// A jar that was resolved stays where it is when the table learns more: an answer that
/// comes later changes nothing that was decided before.
pub proof fn law_resolved_jar_stays_when_more_is_known(
    path: Seq<char>,
    k: Knowledge,
    more: Knowledge,
    log: Seq<NoteView>,
)
    requires
        k.within(more),
    ensures
        stays(resolved_jar(path, k, log), resolved_jar(path, more, log)),
{
    lemma_libsearch_stays(k, more, log);
    lemma_answers_stay(k, more, Topic::EnvVar, "ITW_HOME"@);
    lemma_answers_stay(k, more, Topic::IsFile, path);
    lemma_program_stays(k, more);
    match libsearch(k, log) {
        Err(q) => {},
        Ok((mode, notes)) => match path_file_name(path) {
            None => {},
            Some(name) => {
                assert forall|l: Seq<NoteView>| #[trigger]
                    stays(
                        jar_bundled(path, name, mode, k, l),
                        jar_bundled(path, name, mode, more, l),
                    ) by {
                    match program(k) {
                        Ok(p) => {
                            lemma_jar_in_subdirs_stays(
                                directory_of(directory_of(p)),
                                name,
                                k,
                                more,
                                0,
                                l,
                            );
                        },
                        Err(q) => {},
                    }
                }
                match k.text(Topic::EnvVar, "ITW_HOME"@) {
                    Ok(Some(home)) => {
                        lemma_answers_stay(k, more, Topic::IsDir, home);
                        lemma_jar_in_subdirs_stays(home, name, k, more, 0, notes);
                        match jar_in_subdirs(home, name, k, 0, notes) {
                            Ok((None, found_nothing)) => {
                                assert(stays(
                                    jar_bundled(path, name, mode, k, found_nothing),
                                    jar_bundled(path, name, mode, more, found_nothing),
                                ));
                            },
                            _ => {},
                        }
                        assert(stays(
                            jar_bundled(path, name, mode, k, notes.push(bad_home_note(home))),
                            jar_bundled(path, name, mode, more, notes.push(bad_home_note(home))),
                        ));
                    },
                    Ok(None) => {
                        assert(stays(
                            jar_bundled(path, name, mode, k, notes),
                            jar_bundled(path, name, mode, more, notes),
                        ));
                    },
                    Err(q) => {},
                }
            },
        },
    }
}

/// The list of the members of a class path stays when the table learns more.
pub proof fn lemma_members_stay<O: Os>(
    so_far: Members,
    later: Members,
    jar: Option<Seq<char>>,
    key: Seq<char>,
    os: &O,
    k: Knowledge,
    more: Knowledge,
)
    requires
        k.within(more),
        stays(so_far, later),
    ensures
        stays(with_jar(so_far, jar, k), with_jar(later, jar, more)),
        stays(filtered_out(so_far, key, os, k), filtered_out(later, key, os, more)),
        stays(filtered_in(so_far, key, os, k), filtered_in(later, key, os, more)),
{
    match so_far {
        Ok((members, log)) => {
            match jar {
                Some(path) => {
                    law_resolved_jar_stays_when_more_is_known(path, k, more, log);
                },
                None => {},
            }
            lemma_key_from_properties_stays(
                os,
                NotMandatoryPathValidator {  },
                key,
                k,
                more,
                log,
            );
        },
        Err(q) => {},
    }
}

/// The class paths stay when the table learns more.
pub proof fn lemma_class_paths_stay<O: Os>(
    jre: Seq<char>,
    os: &O,
    k: Knowledge,
    more: Knowledge,
    log: Seq<NoteView>,
)
    requires
        k.within(more),
    ensures
        stays(bootcp_members(jre, os, k, log), bootcp_members(jre, os, more, log)),
        stays(cp_members(jre, os, k, log), cp_members(jre, os, more, log)),
        stays(bootclasspath(jre, os, k, log), bootclasspath(jre, os, more, log)),
        stays(classpath(jre, os, k, log), classpath(jre, os, more, log)),
{
    let none: Seq<char> = Seq::empty();
    let begun: Members = Ok((Seq::empty(), log));
    let jars = seq![
        Some(JAVAWS_JAR@),
        sanitized(Some(RHINO_JAR@)),
        sanitized(Some(TAGSOUP_JAR@)),
        sanitized(Some(MSLINKS_JAR@)),
        sanitized(Some(GSON_JAR@)),
        sanitized(Some(IPADDRESS_JAR@)),
    ];
    let a0 = with_jar(begun, jars[0], k);
    let b0 = with_jar(begun, jars[0], more);
    lemma_members_stay(begun, begun, jars[0], none, os, k, more);
    let a1 = with_jar(a0, jars[1], k);
    let b1 = with_jar(b0, jars[1], more);
    lemma_members_stay(a0, b0, jars[1], none, os, k, more);
    let a2 = with_jar(a1, jars[2], k);
    let b2 = with_jar(b1, jars[2], more);
    lemma_members_stay(a1, b1, jars[2], none, os, k, more);
    let a3 = with_jar(a2, jars[3], k);
    let b3 = with_jar(b2, jars[3], more);
    lemma_members_stay(a2, b2, jars[3], none, os, k, more);
    let a4 = with_jar(a3, jars[4], k);
    let b4 = with_jar(b3, jars[4], more);
    lemma_members_stay(a3, b3, jars[4], none, os, k, more);
    let a5 = with_jar(a4, jars[5], k);
    let b5 = with_jar(b4, jars[5], more);
    lemma_members_stay(a4, b4, jars[5], none, os, k, more);
    let all_a: Members = match a5 {
        Err(q) => Err(q),
        Ok((members, notes)) => Ok((members.push(nashorn_jar(jre)), notes)),
    };
    let all_b: Members = match b5 {
        Err(q) => Err(q),
        Ok((members, notes)) => Ok((members.push(nashorn_jar(jre)), notes)),
    };
    let kept_a = filtered_out(all_a, "deployment.launcher.rust.bootcp.remove"@, os, k);
    let kept_b = filtered_out(all_b, "deployment.launcher.rust.bootcp.remove"@, os, more);
    lemma_members_stay(all_a, all_b, None, "deployment.launcher.rust.bootcp.remove"@, os, k, more);
    lemma_members_stay(kept_a, kept_b, None, "deployment.launcher.rust.bootcp.add"@, os, k, more);
    let plain: Members = Ok(
        (
            seq![
                path_join(path_join(jre, "lib"@), "rt.jar"@),
                path_join(path_join(path_join(jre, "lib"@), "ext"@), "jfxrt.jar"@),
            ],
            log,
        ),
    );
    let cp_a = filtered_out(plain, "deployment.launcher.rust.cp.remove"@, os, k);
    let cp_b = filtered_out(plain, "deployment.launcher.rust.cp.remove"@, os, more);
    lemma_members_stay(plain, plain, None, "deployment.launcher.rust.cp.remove"@, os, k, more);
    lemma_members_stay(cp_a, cp_b, None, "deployment.launcher.rust.cp.add"@, os, k, more);
}

} // verus!
