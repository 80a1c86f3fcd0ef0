//! The arguments that the Java virtual machine is started with.
//!
//! Their order is fixed: what the user passed behind `-J`, without the `-J`; the splash
//! switch; for a modular runtime the file of arguments; the boot class path; the class
//! path; the name and the place of the launcher; the main class; and at the end all that
//! the user passed without `-J`.

use crate::dirs_paths_helper::{
    current_program, current_program_name, lemma_program_stays, name_of, program,
};
use crate::facts::{
    asks_what_is_missing, lemma_answers_stay, lemma_complete_knowledge_suffices, stays, Facts,
    Knowledge, Query, Topic,
};
use crate::hardcoded_paths::{
    get_libsearch, get_main, lemma_libsearch_stays, libsearch, mode_name, MAIN_CLASS,
    MODULARJDK_ARGS_LOCATION,
    SPLASH_PNG,
};
use crate::jars_helper::{
    bootclasspath, classpath, get_bootclasspath, get_classpath,
    law_resolve_jar_asks_what_is_missing, law_resolved_jar_stays_when_more_is_known,
    lemma_class_paths_ask_what_is_missing, lemma_class_paths_stay, resolve_splash,
    resolved_jar,
};
use crate::journal::{extends, glue, settled, Journal, Level, NoteView, Outcome};
use crate::os_access::Os;
use crate::paths::{join, path_join};
use crate::property_from_files_resolver::{bool_from_properties, try_main_verbose_from_properties};
use crate::utils::{
    find_jre, found_jre, law_find_jre_asks_what_is_missing,
    law_found_jre_stays_when_more_is_known,
};
use crate::text::{
    contains, eq_ignore_case, has_infix, same_ignoring_case, starts, starts_with, str_eq,
};
use vstd::prelude::*;
use vstd::string::*;

verus! {

/// `s` without its leading dashes.
pub open spec fn skip_dashes(s: Seq<char>) -> Seq<char>
    decreases s.len(),
{
    if s.len() > 0 && s[0] == '-' {
        skip_dashes(s.drop_first())
    } else {
        s
    }
}

/// A parameter with its leading dashes reduced to one; a parameter without a leading dash
/// stays as it is.
pub open spec fn cleaned(s: Seq<char>) -> Seq<char> {
    if s.len() > 0 && s[0] == '-' {
        "-"@ + skip_dashes(s)
    } else {
        s
    }
}

/// Whether one of the arguments is the switch, however many dashes it begins with.
pub open spec fn has_switch(args: Seq<Seq<char>>, switch: Seq<char>) -> bool {
    exists|i: int| 0 <= i < args.len() && cleaned(#[trigger] args[i]) == switch
}

proof fn lemma_skip_dash_step(s: Seq<char>, a: int)
    requires
        0 <= a < s.len(),
        s[a] == '-',
    ensures
        skip_dashes(s.subrange(a, s.len() as int)) == skip_dashes(
            s.subrange(a + 1, s.len() as int),
        ),
{
    let t = s.subrange(a, s.len() as int);
    assert(t.drop_first() =~= s.subrange(a + 1, s.len() as int));
}

/// Reduces the leading dashes of a parameter to one.
pub fn clean_param(s: String) -> (r: String)
    ensures
        r@ == cleaned(s@),
{
    let text = s.as_str();
    let n: usize = text.unicode_len();
    let mut a: usize = 0;
    assert(s@.subrange(0, n as int) =~= s@);
    while a < n && text.get_char(a) == '-'
        invariant
            a <= n,
            n == s@.len(),
            text@ == s@,
            skip_dashes(s@) == skip_dashes(s@.subrange(a as int, n as int)),
        decreases n - a,
    {
        proof {
            lemma_skip_dash_step(s@, a as int);
        }
        a += 1;
    }
    if a > 0 {
        glue("-", text.substring_char(a, n))
    } else {
        s
    }
}

/// Whether one of the arguments is the switch.
fn is_switch_given(aargs: &Vec<String>, switch: &str) -> (r: bool)
    ensures
        r == has_switch(aargs.deep_view(), switch@),
{
    let mut i: usize = 0;
    while i < aargs.len()
        invariant
            i <= aargs.len(),
            forall|j: int| 0 <= j < i ==> cleaned(#[trigger] aargs.deep_view()[j]) != switch@,
        decreases aargs.len() - i,
    {
        assert(aargs.deep_view()[i as int] == aargs@[i as int]@);
        if str_eq(clean_param(aargs[i].clone()).as_str(), switch) {
            return true;
        }
        i += 1;
    }
    false
}

/// Whether the arguments ask for the notes for debugging: `Some(true)` where `-verbose`
/// is among them, `None` where they do not say.
pub fn is_debug_on_testable(aargs: Vec<String>) -> (r: Option<bool>)
    ensures
        r == if has_switch(aargs.deep_view(), "-verbose"@) {
            Some(true)
        } else {
            None
        },
{
    if is_switch_given(&aargs, "-verbose") {
        Some(true)
    } else {
        None
    }
}

/// Whether `-headless` is among the arguments.
pub fn is_headless_enforced_testable(aargs: Vec<String>) -> (r: bool)
    ensures
        r == has_switch(aargs.deep_view(), "-headless"@),
{
    is_switch_given(&aargs, "-headless")
}

/// Whether a value of `ICEDTEA_WEB_SPLASH` forbids the splash screen: every value but
/// "true", in any mix of capital and small letters, does.
pub open spec fn forbids_splash(value: Seq<char>) -> bool {
    !same_ignoring_case(value, "true"@)
}

/// Whether the variables forbid the splash screen: the first `ICEDTEA_WEB_SPLASH` among
/// them decides; without one it is allowed.
pub open spec fn splash_forbidden(vars: Seq<(Seq<char>, Seq<char>)>) -> bool
    decreases vars.len(),
{
    if vars.len() == 0 {
        false
    } else if vars[0].0 == "ICEDTEA_WEB_SPLASH"@ {
        forbids_splash(vars[0].1)
    } else {
        splash_forbidden(vars.drop_first())
    }
}

/// Whether the variables of the environment forbid the splash screen.
pub fn is_splash_forbidden_testable(vars: Vec<(String, String)>) -> (r: bool)
    ensures
        r == splash_forbidden(vars.deep_view()),
{
    let mut i: usize = 0;
    assert(vars.deep_view().subrange(0, vars.len() as int) =~= vars.deep_view());
    while i < vars.len()
        invariant
            i <= vars.len(),
            splash_forbidden(vars.deep_view()) == splash_forbidden(
                vars.deep_view().subrange(i as int, vars.len() as int),
            ),
        decreases vars.len() - i,
    {
        proof {
            let rest = vars.deep_view().subrange(i as int, vars.len() as int);
            assert(rest[0] == vars@[i as int].deep_view());
            assert(rest.drop_first() =~= vars.deep_view().subrange(i + 1, vars.len() as int));
        }
        if str_eq(vars[i].0.as_str(), "ICEDTEA_WEB_SPLASH") {
            return !eq_ignore_case(vars[i].1.as_str(), "true");
        }
        i += 1;
    }
    false
}

/// Whether an argument is meant for the virtual machine itself.
pub open spec fn is_dash_j(arg: Seq<char>) -> bool {
    starts(arg, "-J"@)
}

/// The arguments that are not meant for the virtual machine itself, in their order.
pub open spec fn passthrough(srcs: Seq<Seq<char>>) -> Seq<Seq<char>>
    decreases srcs.len(),
{
    if srcs.len() == 0 {
        srcs
    } else if is_dash_j(srcs.last()) {
        passthrough(srcs.drop_last())
    } else {
        passthrough(srcs.drop_last()).push(srcs.last())
    }
}

/// What stands behind the `-J` of an argument.
pub open spec fn dash_j_value(arg: Seq<char>) -> Seq<char> {
    arg.subrange(2, arg.len() as int)
}

/// What the arguments pass to the virtual machine itself: what stands behind each `-J`, in
/// the order of the arguments. A `-J` with nothing behind it passes nothing.
pub open spec fn dash_j_values(srcs: Seq<Seq<char>>) -> Seq<Seq<char>>
    decreases srcs.len(),
{
    if srcs.len() == 0 {
        srcs
    } else if is_dash_j(srcs.last()) && dash_j_value(srcs.last()).len() > 0 {
        dash_j_values(srcs.drop_last()).push(dash_j_value(srcs.last()))
    } else {
        dash_j_values(srcs.drop_last())
    }
}

/// The journal after the `-J` arguments were read: each `-J` with nothing behind it is
/// warned about.
pub open spec fn dash_j_journal(srcs: Seq<Seq<char>>, log: Seq<NoteView>) -> Seq<NoteView>
    decreases srcs.len(),
{
    if srcs.len() == 0 {
        log
    } else if is_dash_j(srcs.last()) && dash_j_value(srcs.last()).len() == 0 {
        dash_j_journal(srcs.drop_last(), log).push((Level::Info, "Warning, empty -J switch"@))
    } else {
        dash_j_journal(srcs.drop_last(), log)
    }
}

/// Puts the arguments that do not begin with `-J` at the end of `target`.
#[allow(non_snake_case)]
pub fn include_not_dashJs(srcs: &Vec<String>, target: &mut Vec<String>)
    ensures
        final(target).deep_view() == old(target).deep_view() + passthrough(srcs.deep_view()),
{
    let mut i: usize = 0;
    assert(srcs.deep_view().subrange(0, 0) =~= Seq::<Seq<char>>::empty());
    assert(target.deep_view() + Seq::<Seq<char>>::empty() =~= target.deep_view());
    while i < srcs.len()
        invariant
            i <= srcs.len(),
            target.deep_view() == old(target).deep_view() + passthrough(
                srcs.deep_view().subrange(0, i as int),
            ),
        decreases srcs.len() - i,
    {
        proof {
            let upto = srcs.deep_view().subrange(0, i + 1);
            assert(upto.drop_last() =~= srcs.deep_view().subrange(0, i as int));
            assert(upto.last() == srcs@[i as int]@);
        }
        if !starts_with(srcs[i].as_str(), "-J") {
            let ghost before = target.deep_view();
            target.push(srcs[i].clone());
            assert(target.deep_view() =~= before.push(srcs@[i as int]@));
        }
        i += 1;
    }
    assert(srcs.deep_view().subrange(0, srcs.len() as int) =~= srcs.deep_view());
}

/// Puts what stands behind the `-J` of each argument at the end of `target`, and warns
/// about each `-J` that has nothing behind it.
#[allow(non_snake_case)]
pub fn include_dashJs_values(srcs: &Vec<String>, target: &mut Vec<String>, journal: &mut Journal)
    ensures
        final(target).deep_view() == old(target).deep_view() + dash_j_values(srcs.deep_view()),
        final(journal)@ == dash_j_journal(srcs.deep_view(), old(journal)@),
        extends(final(journal)@, old(journal)@),
{
    let mut i: usize = 0;
    assert(srcs.deep_view().subrange(0, 0) =~= Seq::<Seq<char>>::empty());
    assert(target.deep_view() + Seq::<Seq<char>>::empty() =~= target.deep_view());
    while i < srcs.len()
        invariant
            i <= srcs.len(),
            target.deep_view() == old(target).deep_view() + dash_j_values(
                srcs.deep_view().subrange(0, i as int),
            ),
            journal@ == dash_j_journal(srcs.deep_view().subrange(0, i as int), old(journal)@),
            extends(journal@, old(journal)@),
        decreases srcs.len() - i,
    {
        proof {
            let upto = srcs.deep_view().subrange(0, i + 1);
            assert(upto.drop_last() =~= srcs.deep_view().subrange(0, i as int));
            assert(upto.last() == srcs@[i as int]@);
            reveal_strlit("-J");
        }
        let f = srcs[i].as_str();
        if starts_with(f, "-J") {
            let n: usize = f.unicode_len();
            if n == 2 {
                assert(dash_j_value(f@).len() == 0);
                journal.info("Warning, empty -J switch");
            } else {
                let ghost before = target.deep_view();
                let s = String::from_str(f.substring_char(2, n));
                target.push(s);
                assert(target.deep_view() =~= before.push(dash_j_value(f@)));
            }
        }
        i += 1;
    }
    assert(srcs.deep_view().subrange(0, srcs.len() as int) =~= srcs.deep_view());
}

/// The splash switch: the resolved image behind `-splash:`, unless the user asked for a
/// run without a head or the environment forbids the splash screen.
pub open spec fn splash_switch(
    headless: bool,
    splash_forbidden: bool,
    k: Knowledge,
    log: Seq<NoteView>,
) -> Outcome<Option<Seq<char>>> {
    if !headless && !splash_forbidden {
        match resolved_jar(SPLASH_PNG@, k, log) {
            Err(q) => Err(q),
            Ok((image, notes)) => Ok((Some("-splash:"@ + image), notes)),
        }
    } else {
        Ok((None, log))
    }
}

/// Makes the splash switch.
pub fn get_splash_testable(
    headless: bool,
    splash_forbidden: bool,
    facts: &Facts,
    journal: &mut Journal,
) -> (r: Result<Option<String>, Query>)
    ensures
        settled(r, old(journal)@, final(journal)@,
            splash_switch(headless, splash_forbidden, facts@, old(journal)@),
        ),
{
    if !headless && !splash_forbidden {
        let splash_location = resolve_splash(facts, journal)?;
        Ok(Some(glue("-splash:", splash_location.as_str())))
    } else {
        Ok(None)
    }
}

/// Whether the variable `ICEDTEA_WEB_SPLASH`, where it is set, forbids the splash screen.
pub open spec fn forbidden_by(value: Option<Seq<char>>) -> bool {
    match value {
        Some(v) => forbids_splash(v),
        None => false,
    }
}

/// The splash switch of a run with the arguments `args`.
pub open spec fn splash(args: Seq<Seq<char>>, k: Knowledge, log: Seq<NoteView>) -> Outcome<
    Option<Seq<char>>,
> {
    match k.text(Topic::EnvVar, "ICEDTEA_WEB_SPLASH"@) {
        Err(q) => Err(q),
        Ok(value) => splash_switch(has_switch(args, "-headless"@), forbidden_by(value), k, log),
    }
}

/// Makes the splash switch of a run with the arguments `args`.
pub fn get_splash(args: &Vec<String>, facts: &Facts, journal: &mut Journal) -> (r: Result<
    Option<String>,
    Query,
>)
    ensures
        settled(r, old(journal)@, final(journal)@, splash(args.deep_view(), facts@, old(journal)@)),
{
    let headless = is_switch_given(args, "-headless");
    let splash_forbidden = match facts.text(Topic::EnvVar, "ICEDTEA_WEB_SPLASH")? {
        Some(value) => !eq_ignore_case(value.as_str(), "true"),
        None => false,
    };
    get_splash_testable(headless, splash_forbidden, facts, journal)
}

/// Whether a line of the output of `java -version` names the version.
pub open spec fn names_version(line: Seq<char>) -> bool {
    has_infix(line, "version"@) && (has_infix(line, "\"1"@) || has_infix(line, "\"2"@)
        || has_infix(line, "\"3"@))
}

/// The version that a line names: 7, 8, or 9 for everything later.
pub open spec fn version_named(line: Seq<char>) -> int {
    if has_infix(line, "\"1.7.0"@) || has_infix(line, "\"1.7.1"@) {
        7
    } else if has_infix(line, "\"1.8.0"@) {
        8
    } else {
        9
    }
}

/// The note about the version that a line names.
pub open spec fn version_note(line: Seq<char>) -> NoteView {
    if version_named(line) == 7 {
        (Level::Debug, "itw-rust-debug: detected jdk 7"@)
    } else if version_named(line) == 8 {
        (Level::Debug, "itw-rust-debug: detected jdk 8"@)
    } else {
        (Level::Debug, "itw-rust-debug: detected jdk 9 or up"@)
    }
}

/// The version that the output names, reading from line `i` on: that of the first line
/// that names one; 8 where no line does.
pub open spec fn version_in(lines: Seq<Seq<char>>, i: int) -> int
    decreases lines.len() - i,
{
    if i < 0 || i >= lines.len() {
        8
    } else if names_version(lines[i]) {
        version_named(lines[i])
    } else {
        version_in(lines, i + 1)
    }
}

/// The journal after the output was read from line `i` on.
pub open spec fn version_journal(lines: Seq<Seq<char>>, i: int, log: Seq<NoteView>) -> Seq<
    NoteView,
>
    decreases lines.len() - i,
{
    if i < 0 || i >= lines.len() {
        log.push((Level::Debug, "itw-rust-debug: unrecognized jdk! Fallback to 8!"@))
    } else if names_version(lines[i]) {
        log.push(version_note(lines[i]))
    } else {
        version_journal(lines, i + 1, log)
    }
}

/// Reads the version of a runtime from what its `java -version` printed.
pub fn version_from_output(lines: &Vec<String>, journal: &mut Journal) -> (r: i32)
    ensures
        r == version_in(lines.deep_view(), 0),
        final(journal)@ == version_journal(lines.deep_view(), 0, old(journal)@),
        extends(final(journal)@, old(journal)@),
{
    let mut i: usize = 0;
    while i < lines.len()
        invariant
            i <= lines.len(),
            journal@ == old(journal)@,
            version_in(lines.deep_view(), 0) == version_in(lines.deep_view(), i as int),
            version_journal(lines.deep_view(), 0, old(journal)@) == version_journal(
                lines.deep_view(),
                i as int,
                old(journal)@,
            ),
        decreases lines.len() - i,
    {
        let line = lines[i].as_str();
        assert(lines.deep_view()[i as int] == line@);
        if contains(line, "version") && (contains(line, "\"1") || contains(line, "\"2")
            || contains(line, "\"3")) {
            if contains(line, "\"1.7.0") || contains(line, "\"1.7.1") {
                journal.log("itw-rust-debug: detected jdk 7");
                return 7;
            } else if contains(line, "\"1.8.0") {
                journal.log("itw-rust-debug: detected jdk 8");
                return 8;
            } else {
                journal.log("itw-rust-debug: detected jdk 9 or up");
                return 9;
            }
        }
        i += 1;
    }
    journal.log("itw-rust-debug: unrecognized jdk! Fallback to 8!");
    8
}

/// The version of the runtime in `jre`: what `java -version` names; 8 where `java` could
/// not be run or names nothing that is recognised.
pub open spec fn version_of(jre: Seq<char>, k: Knowledge, log: Seq<NoteView>) -> Outcome<int> {
    match k.lines(Topic::JavaVersion, jre) {
        Err(q) => Err(q),
        Ok(None) => Ok(
            (
                8,
                log.push(
                    (
                        Level::Debug,
                        "itw-rust-debug: failed to launch jdk recognition. fallback to 8"@,
                    ),
                ),
            ),
        ),
        Ok(Some(lines)) => Ok((version_in(lines, 0), version_journal(lines, 0, log))),
    }
}

/// Finds the version of the runtime in `jre_dir`.
pub fn jdk_version(jre_dir: &str, facts: &Facts, journal: &mut Journal) -> (r: Result<i32, Query>)
    ensures
        extends(final(journal)@, old(journal)@),
        match version_of(jre_dir@, facts@, old(journal)@) {
            Ok((v, notes)) => r == Ok::<i32, Query>(v as i32) && 7 <= v <= 9 && final(journal)@
                == notes,
            Err(q) => r matches Err(e) && e@ == q,
        },
{
    match facts.lines(Topic::JavaVersion, jre_dir)? {
        Some(lines) => {
            proof {
                lemma_version_range(lines.deep_view(), 0);
            }
            Ok(version_from_output(&lines, journal))
        },
        None => {
            journal.log("itw-rust-debug: failed to launch jdk recognition. fallback to 8");
            Ok(8)
        },
    }
}

/// A version is 7, 8 or 9.
pub proof fn lemma_version_range(lines: Seq<Seq<char>>, i: int)
    ensures
        7 <= version_in(lines, i) <= 9,
    decreases lines.len() - i,
{
    if 0 <= i < lines.len() && !names_version(lines[i]) {
        lemma_version_range(lines, i + 1);
    }
}

/// Whether the runtime in `jre` is modular: whether its version is later than 8.
pub open spec fn modular_jdk(jre: Seq<char>, k: Knowledge, log: Seq<NoteView>) -> Outcome<bool> {
    match version_of(jre, k, log) {
        Err(q) => Err(q),
        Ok((v, notes)) => if v > 8 {
            Ok((true, notes.push((Level::Debug, "itw-rust-debug: modular jdk"@))))
        } else {
            Ok((false, notes.push((Level::Debug, "itw-rust-debug: non-modular jdk"@))))
        },
    }
}

/// Finds out whether the runtime in `jre_dir` is modular.
pub fn is_modular_jdk(jre_dir: &str, facts: &Facts, journal: &mut Journal) -> (r: Result<
    bool,
    Query,
>)
    ensures
        settled(r, old(journal)@, final(journal)@, modular_jdk(jre_dir@, facts@, old(journal)@)),
{
    if jdk_version(jre_dir, facts, journal)? > 8 {
        journal.log("itw-rust-debug: modular jdk");
        Ok(true)
    } else {
        journal.log("itw-rust-debug: non-modular jdk");
        Ok(false)
    }
}

/// The switch that makes the virtual machine read the file of arguments.
pub open spec fn argsfile_switch(k: Knowledge, log: Seq<NoteView>) -> Outcome<Seq<char>> {
    match resolved_jar(MODULARJDK_ARGS_LOCATION@, k, log) {
        Err(q) => Err(q),
        Ok((file, notes)) => Ok(("@"@ + file, notes)),
    }
}

/// Makes the switch that names the file of arguments for a modular runtime.
pub fn resolve_argsfile(facts: &Facts, journal: &mut Journal) -> (r: Result<String, Query>)
    ensures
        settled(r, old(journal)@, final(journal)@, argsfile_switch(facts@, old(journal)@)),
{
    let args_location = crate::jars_helper::resolve_argsfile(facts, journal)?;
    Ok(glue("@", args_location.as_str()))
}

/// A sequence of no or one text.
pub open spec fn optional(item: Option<Seq<char>>) -> Seq<Seq<char>> {
    match item {
        Some(s) => seq![s],
        None => Seq::empty(),
    }
}

/// The arguments in their fixed order: first what is meant for the virtual machine
/// itself, last what the user passed for the application.
pub open spec fn arranged(
    first: Seq<Seq<char>>,
    splash: Option<Seq<char>>,
    argsfile: Option<Seq<char>>,
    bootcp: Seq<char>,
    cp: Seq<char>,
    name: Seq<char>,
    location: Seq<char>,
    last: Seq<Seq<char>>,
) -> Seq<Seq<char>> {
    first + optional(splash) + optional(argsfile) + seq![
        bootcp,
        "-classpath"@,
        cp,
        "-Dicedtea-web.bin.name="@ + name,
        "-Dicedtea-web.bin.location="@ + location,
        MAIN_CLASS@,
    ] + last
}

/// Puts the arguments in their fixed order. `first` is what the user's arguments pass to
/// the virtual machine itself; of `user_args`, those that are not meant for the
/// virtual machine come last.
pub fn arrange(
    first: Vec<String>,
    splash: Option<String>,
    argsfile: Option<String>,
    bootcp: String,
    cp: String,
    name: &str,
    location: &str,
    user_args: &Vec<String>,
) -> (r: Vec<String>)
    ensures
        r.deep_view() == arranged(
            first.deep_view(),
            splash.deep_view(),
            argsfile.deep_view(),
            bootcp@,
            cp@,
            name@,
            location@,
            passthrough(user_args.deep_view()),
        ),
{
    let bin_name = glue("-Dicedtea-web.bin.name=", name);
    let bin_location = glue("-Dicedtea-web.bin.location=", location);
    let mut all_args: Vec<String> = first;
    let ghost begun = all_args.deep_view();
    match splash {
        Some(switch) => {
            all_args.push(switch);
        },
        None => {},
    }
    let ghost second = all_args.deep_view();
    assert(second =~= begun + optional(splash.deep_view()));
    match argsfile {
        Some(switch) => {
            all_args.push(switch);
        },
        None => {},
    }
    let ghost third = all_args.deep_view();
    assert(third =~= second + optional(argsfile.deep_view()));
    all_args.push(bootcp);
    all_args.push(String::from_str("-classpath"));
    all_args.push(cp);
    all_args.push(bin_name);
    all_args.push(bin_location);
    all_args.push(String::from_str(get_main()));
    let ghost fourth = all_args.deep_view();
    assert(fourth =~= third + seq![
        bootcp@,
        "-classpath"@,
        cp@,
        "-Dicedtea-web.bin.name="@ + name@,
        "-Dicedtea-web.bin.location="@ + location@,
        MAIN_CLASS@,
    ]);
    include_not_dashJs(user_args, &mut all_args);
    all_args
}

/// The journal after the class paths and the launcher's own name and place were noted.
pub open spec fn journal_after_paths(
    bootcp: Seq<char>,
    cp: Seq<char>,
    p: Seq<char>,
    log: Seq<NoteView>,
) -> Seq<NoteView> {
    log.push((Level::Debug, "itw-rust-debug: used boot classpath: "@ + bootcp)).push(
        (Level::Debug, "itw-rust-debug: used classpath: "@ + cp),
    ).push((Level::Debug, "itw-rust-debug: current name: "@ + name_of(p))).push(
        (Level::Debug, "itw-rust-debug: current bin: "@ + p),
    )
}

/// The file of arguments, for a modular runtime only.
pub open spec fn argsfile_for(jre: Seq<char>, k: Knowledge, log: Seq<NoteView>) -> Outcome<
    Option<Seq<char>>,
> {
    match modular_jdk(jre, k, log) {
        Err(q) => Err(q),
        Ok((true, notes)) => match argsfile_switch(k, notes) {
            Err(q) => Err(q),
            Ok((switch, noted)) => Ok((Some(switch), noted)),
        },
        Ok((false, notes)) => Ok((None, notes)),
    }
}

/// The splash switch, with a note where there is none.
pub open spec fn splash_noted(args: Seq<Seq<char>>, k: Knowledge, log: Seq<NoteView>) -> Outcome<
    Option<Seq<char>>,
> {
    match splash(args, k, log) {
        Err(q) => Err(q),
        Ok((Some(switch), notes)) => Ok((Some(switch), notes)),
        Ok((None, notes)) => Ok(
            (None, notes.push((Level::Debug, "itw-rust-debug: splash excluded"@))),
        ),
    }
}

/// The arguments for the virtual machine of the runtime in `java_dir`, for a launcher
/// that was started with `args`. The name and the place of the launcher are those of the
/// running program, whatever the build says.
pub open spec fn composed<O: Os>(
    java_dir: Seq<char>,
    args: Seq<Seq<char>>,
    os: &O,
    k: Knowledge,
    log: Seq<NoteView>,
) -> Outcome<Seq<Seq<char>>> {
    match bootclasspath(java_dir, os, k, log) {
        Err(q) => Err(q),
        Ok((bootcp, l1)) => match classpath(java_dir, os, k, l1) {
            Err(q) => Err(q),
            Ok((cp, l2)) => match program(k) {
                Err(q) => Err(q),
                Ok(p) => match splash_noted(
                    args,
                    k,
                    dash_j_journal(args, journal_after_paths(bootcp, cp, p, l2)),
                ) {
                    Err(q) => Err(q),
                    Ok((splash, l3)) => match argsfile_for(java_dir, k, l3) {
                        Err(q) => Err(q),
                        Ok((argsfile, l4)) => Ok(
                            (
                                arranged(
                                    dash_j_values(args),
                                    splash,
                                    argsfile,
                                    bootcp,
                                    cp,
                                    name_of(p),
                                    p,
                                    passthrough(args),
                                ),
                                l4,
                            ),
                        ),
                    },
                },
            },
        },
    }
}

/// Composes the arguments for the virtual machine.
pub fn compose_arguments<O: Os>(
    java_dir: &str,
    user_args: &Vec<String>,
    os: &O,
    facts: &Facts,
    journal: &mut Journal,
) -> (r: Result<Vec<String>, Query>)
    ensures
        settled(r, old(journal)@, final(journal)@,
            composed(java_dir@, user_args.deep_view(), os, facts@, old(journal)@),
        ),
{
    let bootcp = get_bootclasspath(java_dir, os, facts, journal)?;
    let cp = get_classpath(java_dir, os, facts, journal)?;
    let current_name = current_program_name(facts)?;
    let current_bin = current_program(facts)?;
    journal.log(glue("itw-rust-debug: used boot classpath: ", bootcp.as_str()).as_str());
    journal.log(glue("itw-rust-debug: used classpath: ", cp.as_str()).as_str());
    journal.log(glue("itw-rust-debug: current name: ", current_name.as_str()).as_str());
    journal.log(glue("itw-rust-debug: current bin: ", current_bin.as_str()).as_str());
    let mut first: Vec<String> = Vec::new();
    assert(first.deep_view() =~= Seq::<Seq<char>>::empty());
    include_dashJs_values(user_args, &mut first, journal);
    assert(first.deep_view() =~= dash_j_values(user_args.deep_view()));
    let splash = get_splash(user_args, facts, journal)?;
    if splash.is_none() {
        journal.log("itw-rust-debug: splash excluded");
    }
    let argsfile = if is_modular_jdk(java_dir, facts, journal)? {
        Some(resolve_argsfile(facts, journal)?)
    } else {
        None
    };
    Ok(
        arrange(
            first,
            splash,
            argsfile,
            bootcp,
            cp,
            current_name.as_str(),
            current_bin.as_str(),
            user_args,
        ),
    )
}

/// Whether the notes for debugging are on: the argument `-verbose` switches them on; where
/// it is not given, the configuration decides.
pub open spec fn debug_on<O: Os>(
    args: Seq<Seq<char>>,
    os: &O,
    k: Knowledge,
    log: Seq<NoteView>,
) -> Outcome<bool> {
    if has_switch(args, "-verbose"@) {
        Ok((true, log))
    } else {
        bool_from_properties(os, "deployment.log"@, false, k, log)
    }
}

/// Finds out whether the notes for debugging are on.
pub fn is_debug_on<O: Os>(args: &Vec<String>, os: &O, facts: &Facts, journal: &mut Journal) -> (r:
    Result<bool, Query>)
    ensures
        settled(
            r,
            old(journal)@,
            final(journal)@,
            debug_on(args.deep_view(), os, facts@, old(journal)@),
        ),
{
    if is_switch_given(args, "-verbose") {
        Ok(true)
    } else {
        try_main_verbose_from_properties(os, facts, journal)
    }
}

/// The command that starts the virtual machine.
#[derive(Debug)]
pub struct JavaCommand {
    /// The `java` executable.
    pub program: String,
    /// Its arguments.
    pub args: Vec<String>,
    /// Whether the virtual machine shares the console and the standard streams of the
    /// launcher. Where it does not, it gets no window and no streams.
    pub attached: bool,
}

/// The command as contracts speak of it.
pub struct CommandView {
    pub program: Seq<char>,
    pub args: Seq<Seq<char>>,
    pub attached: bool,
}

impl View for JavaCommand {
    type V = CommandView;

    open spec fn view(&self) -> CommandView {
        CommandView {
            program: self.program@,
            args: self.args.deep_view(),
            attached: self.attached,
        }
    }
}

impl DeepView for JavaCommand {
    type V = CommandView;

    open spec fn deep_view(&self) -> CommandView {
        self@
    }
}

/// Makes the command that runs the `java` of the runtime in `jre_dir` with `args`.
pub fn create_java_cmd<O: Os>(os: &O, jre_dir: &str, args: &Vec<String>) -> (r: JavaCommand)
    ensures
        r@ == (CommandView {
            program: path_join(path_join(jre_dir@, "bin"@), "java"@),
            args: args.deep_view(),
            attached: os.console(),
        }),
{
    JavaCommand {
        program: join(join(jre_dir, "bin").as_str(), "java"),
        args: crate::facts::copy_lines(args),
        attached: os.inside_console(),
    }
}

/// The composition of the arguments stops only at a question that the table cannot
/// answer.
pub proof fn law_compose_arguments_asks_what_is_missing<O: Os>(
    java_dir: Seq<char>,
    args: Seq<Seq<char>>,
    os: &O,
    k: Knowledge,
    log: Seq<NoteView>,
)
    ensures
        asks_what_is_missing(composed(java_dir, args, os, k, log), k),
{
    lemma_class_paths_ask_what_is_missing(java_dir, os, k, log);
    match bootclasspath(java_dir, os, k, log) {
        Ok((bootcp, l1)) => {
            lemma_class_paths_ask_what_is_missing(java_dir, os, k, l1);
            match classpath(java_dir, os, k, l1) {
                Ok((cp, l2)) => match program(k) {
                    Ok(p) => {
                        let l3 = dash_j_journal(args, journal_after_paths(bootcp, cp, p, l2));
                        law_resolve_jar_asks_what_is_missing(SPLASH_PNG@, k, l3);
                        match splash_noted(args, k, l3) {
                            Ok((splash, l4)) => {
                                match modular_jdk(java_dir, k, l4) {
                                    Ok((true, l5)) => {
                                        law_resolve_jar_asks_what_is_missing(
                                            MODULARJDK_ARGS_LOCATION@,
                                            k,
                                            l5,
                                        );
                                    },
                                    _ => {},
                                }
                            },
                            Err(q) => {},
                        }
                    },
                    Err(q) => {},
                },
                Err(q) => {},
            }
        },
        Err(q) => {},
    }
}

/// The arguments are always composed: with every question answered, the composition
/// ends with the arguments.
pub proof fn law_compose_arguments_always_ends<O: Os>(
    java_dir: Seq<char>,
    args: Seq<Seq<char>>,
    os: &O,
    k: Knowledge,
    log: Seq<NoteView>,
)
    requires
        k.complete(),
    ensures
        composed(java_dir, args, os, k, log) is Ok,
{
    law_compose_arguments_asks_what_is_missing(java_dir, args, os, k, log);
    lemma_complete_knowledge_suffices(composed(java_dir, args, os, k, log), k);
}

/// What the user passes behind `-J` comes first and what the user passes without `-J`
/// comes last, each in the order in which it was passed; between them stand the splash
/// switch, where there is one, the file of arguments, where there is one, and then always
/// the same six: the boot class path, `-classpath`, the class path, the name of the
/// launcher, its place, and the main class.
pub proof fn law_arguments_are_in_their_fixed_order(
    first: Seq<Seq<char>>,
    splash: Option<Seq<char>>,
    argsfile: Option<Seq<char>>,
    bootcp: Seq<char>,
    cp: Seq<char>,
    name: Seq<char>,
    location: Seq<char>,
    last: Seq<Seq<char>>,
)
    ensures
        ({
            let all = arranged(first, splash, argsfile, bootcp, cp, name, location, last);
            let middle: int = (first.len() + optional(splash).len() + optional(
                argsfile,
            ).len()) as int;
            &&& all.len() == middle + 6 + last.len()
            &&& all.subrange(0, first.len() as int) == first
            &&& all.subrange(middle + 6, all.len() as int) == last
            &&& splash matches Some(s) ==> all[first.len() as int] == s
            &&& argsfile matches Some(a) ==> all[middle - 1] == a
            &&& all[middle] == bootcp
            &&& all[middle + 1] == "-classpath"@
            &&& all[middle + 2] == cp
            &&& all[middle + 3] == "-Dicedtea-web.bin.name="@ + name
            &&& all[middle + 4] == "-Dicedtea-web.bin.location="@ + location
            &&& all[middle + 5] == MAIN_CLASS@
        }),
{
    let all = arranged(first, splash, argsfile, bootcp, cp, name, location, last);
    let middle: int = (first.len() + optional(splash).len() + optional(argsfile).len()) as int;
    assert(all.subrange(0, first.len() as int) =~= first);
    assert(all.subrange(middle + 6, all.len() as int) =~= last);
}

/// The command that starts the virtual machine for a launcher that was started with
/// `args`: the `java` of the runtime that was found, with the composed arguments. On the
/// way the launcher notes its own place, the search mode and the runtime it chose.
pub open spec fn planned<O: Os>(
    args: Seq<Seq<char>>,
    os: &O,
    k: Knowledge,
    log: Seq<NoteView>,
) -> Outcome<CommandView> {
    match program(k) {
        Err(q) => Err(q),
        Ok(p) => match libsearch(k, log.push((Level::Debug, p))) {
            Err(q) => Err(q),
            Ok((mode, l1)) => match found_jre(
                os,
                k,
                l1.push((Level::Debug, "itw-rust-debug: itw mode: "@ + mode_name(mode))),
            ) {
                Err(q) => Err(q),
                Ok((jre, l2)) => match composed(
                    jre,
                    args,
                    os,
                    k,
                    l2.push((Level::Info, "selected jre: "@ + jre)),
                ) {
                    Err(q) => Err(q),
                    Ok((all, l3)) => Ok(
                        (
                            CommandView {
                                program: path_join(path_join(jre, "bin"@), "java"@),
                                args: all,
                                attached: os.console(),
                            },
                            l3,
                        ),
                    ),
                },
            },
        },
    }
}

/// Plans the launch: finds the runtime, composes the arguments and makes the command.
/// `user_args` are the arguments of the launcher without its own name.
pub fn plan_launch<O: Os>(
    user_args: &Vec<String>,
    os: &O,
    facts: &Facts,
    journal: &mut Journal,
) -> (r: Result<JavaCommand, Query>)
    ensures
        settled(
            r,
            old(journal)@,
            final(journal)@,
            planned(user_args.deep_view(), os, facts@, old(journal)@),
        ),
{
    let current_bin = current_program(facts)?;
    journal.log(current_bin.as_str());
    let mode = get_libsearch(facts, journal)?;
    journal.log(glue("itw-rust-debug: itw mode: ", mode.name()).as_str());
    let java_dir = find_jre(os, facts, journal)?;
    journal.info(glue("selected jre: ", java_dir.as_str()).as_str());
    let all_args = compose_arguments(java_dir.as_str(), user_args, os, facts, journal)?;
    Ok(create_java_cmd(os, java_dir.as_str(), &all_args))
}

/// The launch is always planned: the plan stops only at a question that the table cannot
/// answer, and with every question answered it ends with a command.
pub proof fn law_plan_launch_always_ends<O: Os>(
    args: Seq<Seq<char>>,
    os: &O,
    k: Knowledge,
    log: Seq<NoteView>,
)
    ensures
        asks_what_is_missing(planned(args, os, k, log), k),
        k.complete() ==> planned(args, os, k, log) is Ok,
{
    match program(k) {
        Ok(p) => match libsearch(k, log.push((Level::Debug, p))) {
            Ok((mode, l1)) => {
                let begun = l1.push(
                    (Level::Debug, "itw-rust-debug: itw mode: "@ + mode_name(mode)),
                );
                law_find_jre_asks_what_is_missing(os, k, begun);
                match found_jre(os, k, begun) {
                    Ok((jre, l2)) => {
                        law_compose_arguments_asks_what_is_missing(
                            jre,
                            args,
                            os,
                            k,
                            l2.push((Level::Info, "selected jre: "@ + jre)),
                        );
                    },
                    Err(q) => {},
                }
            },
            Err(q) => {},
        },
        Err(q) => {},
    }
    if k.complete() {
        lemma_complete_knowledge_suffices(planned(args, os, k, log), k);
    }
}

/// The arguments that were composed stay when the table learns more.
pub proof fn law_composed_arguments_stay_when_more_is_known<O: Os>(
    java_dir: Seq<char>,
    args: Seq<Seq<char>>,
    os: &O,
    k: Knowledge,
    more: Knowledge,
    log: Seq<NoteView>,
)
    requires
        k.within(more),
    ensures
        stays(composed(java_dir, args, os, k, log), composed(java_dir, args, os, more, log)),
{
    lemma_class_paths_stay(java_dir, os, k, more, log);
    lemma_program_stays(k, more);
    lemma_answers_stay(k, more, Topic::EnvVar, "ICEDTEA_WEB_SPLASH"@);
    lemma_answers_stay(k, more, Topic::JavaVersion, java_dir);
    match bootclasspath(java_dir, os, k, log) {
        Ok((bootcp, l1)) => {
            lemma_class_paths_stay(java_dir, os, k, more, l1);
            match classpath(java_dir, os, k, l1) {
                Ok((cp, l2)) => match program(k) {
                    Ok(p) => {
                        let l3 = dash_j_journal(args, journal_after_paths(bootcp, cp, p, l2));
                        law_resolved_jar_stays_when_more_is_known(SPLASH_PNG@, k, more, l3);
                        match splash_noted(args, k, l3) {
                            Ok((splash, l4)) => {
                                match modular_jdk(java_dir, k, l4) {
                                    Ok((true, l5)) => {
                                        law_resolved_jar_stays_when_more_is_known(
                                            MODULARJDK_ARGS_LOCATION@,
                                            k,
                                            more,
                                            l5,
                                        );
                                    },
                                    _ => {},
                                }
                            },
                            Err(q) => {},
                        }
                    },
                    Err(q) => {},
                },
                Err(q) => {},
            }
        },
        Err(q) => {},
    }
}

/// A plan that was made stays when the table learns more: an answer that comes later
/// changes nothing that was decided before.
pub proof fn law_plan_stays_when_more_is_known<O: Os>(
    args: Seq<Seq<char>>,
    os: &O,
    k: Knowledge,
    more: Knowledge,
    log: Seq<NoteView>,
)
    requires
        k.within(more),
    ensures
        stays(planned(args, os, k, log), planned(args, os, more, log)),
{
    lemma_program_stays(k, more);
    match program(k) {
        Ok(p) => {
            lemma_libsearch_stays(k, more, log.push((Level::Debug, p)));
            match libsearch(k, log.push((Level::Debug, p))) {
                Ok((mode, l1)) => {
                    let begun = l1.push(
                        (Level::Debug, "itw-rust-debug: itw mode: "@ + mode_name(mode)),
                    );
                    law_found_jre_stays_when_more_is_known(os, k, more, begun);
                    match found_jre(os, k, begun) {
                        Ok((jre, l2)) => {
                            law_composed_arguments_stay_when_more_is_known(
                                jre,
                                args,
                                os,
                                k,
                                more,
                                l2.push((Level::Info, "selected jre: "@ + jre)),
                            );
                        },
                        Err(q) => {},
                    }
                },
                Err(q) => {},
            }
        },
        Err(q) => {},
    }
}

} // verus!
