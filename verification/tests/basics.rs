use itw_launcher::disk::{answer_from_disk, learn_from_disk};
use itw_launcher::facts::{copy_lines, Answer, Facts, Query, Topic};
use itw_launcher::journal::{glue, glue3, join, Journal, Level};
use itw_launcher::text::{
    contains, decimal, eq_ignore_case, find_char, is_space_char, split, starts_with, str_eq, trim,
};

fn strings(items: &[&str]) -> Vec<String> {
    items.iter().map(|s| s.to_string()).collect()
}

#[test]
fn trim_removes_white_space_at_both_ends_only() {
    assert_eq!("", trim(""));
    assert_eq!("", trim(" \t\r\n\u{b}\u{c}"));
    assert_eq!("a b", trim("  a b\n"));
    assert_eq!("a", trim("a"));
    assert_eq!("\u{200b}a", trim(" \u{200b}a "));
    assert_eq!("ž", trim("\u{2000}\u{200a}ž\u{2028}\u{2029}\u{202f}\u{205f}\u{3000}\u{1680}\u{85}\u{a0}"));
}

#[test]
fn white_space_is_what_unicode_says() {
    for c in ['\t', '\n', '\u{b}', '\u{c}', '\r', ' ', '\u{85}', '\u{a0}', '\u{1680}', '\u{2000}', '\u{2005}', '\u{200a}', '\u{2028}', '\u{2029}', '\u{202f}', '\u{205f}', '\u{3000}'] {
        assert_eq!(true, is_space_char(c));
    }
    for c in ['\u{8}', '\u{e}', '\u{1f}', 'a', '\u{84}', '\u{86}', '\u{180e}', '\u{200b}', '\u{2060}', '\u{feff}', '\u{3001}'] {
        assert_eq!(false, is_space_char(c));
    }
    for n in 0..0x3100u32 {
        if let Some(c) = char::from_u32(n) {
            assert_eq!(c.is_whitespace(), is_space_char(c));
        }
    }
}

#[test]
fn texts_are_compared_character_by_character() {
    assert_eq!(true, str_eq("", ""));
    assert_eq!(true, str_eq("žluť", "žluť"));
    assert_eq!(false, str_eq("a", "A"));
    assert_eq!(false, str_eq("a", "ab"));
    assert_eq!(true, eq_ignore_case("TrUe", "true"));
    assert_eq!(true, eq_ignore_case("a-Z[", "A-z["));
    assert_eq!(false, eq_ignore_case("@", "`"));
    assert_eq!(false, eq_ignore_case("[", "{"));
    assert_eq!(false, eq_ignore_case("Ž", "ž"));
    assert_eq!(false, eq_ignore_case("true", "true "));
}

#[test]
fn beginnings_and_occurrences() {
    assert_eq!(true, starts_with("-Jx", "-J"));
    assert_eq!(true, starts_with("-J", "-J"));
    assert_eq!(true, starts_with("abc", ""));
    assert_eq!(false, starts_with("-", "-J"));
    assert_eq!(false, starts_with("--J", "-J"));
    assert_eq!(true, contains("abc", ""));
    assert_eq!(true, contains("", ""));
    assert_eq!(false, contains("", "a"));
    assert_eq!(true, contains("openjdk version \"1.8.0_181\"", "\"1.8.0"));
    assert_eq!(true, contains("aab", "ab"));
    assert_eq!(true, contains("ab", "ab"));
    assert_eq!(false, contains("ab", "abc"));
    assert_eq!(false, contains("abab", "ba "));
    assert_eq!(1, find_char("a=b=c", '='));
    assert_eq!(0, find_char("=", '='));
    assert_eq!(3, find_char("abc", '='));
    assert_eq!(0, find_char("", '='));
    assert_eq!(1, find_char("ž:š", ':'));
}

#[test]
fn split_cuts_at_every_separator() {
    assert_eq!(strings(&[""]), split("", ' '));
    assert_eq!(strings(&["a"]), split("a", ' '));
    assert_eq!(strings(&["a", "b"]), split("a b", ' '));
    assert_eq!(strings(&["", "a", "", "b", ""]), split(" a  b ", ' '));
    assert_eq!(strings(&["", "", ""]), split("::", ':'));
    for text in ["", " ", "a b c", "  a", "a  ", "ž š"] {
        let expected: Vec<String> = text.split(' ').map(|s| s.to_string()).collect();
        assert_eq!(expected, split(text, ' '));
    }
}

#[test]
fn numbers_are_written_in_decimal() {
    assert_eq!("0", decimal(0));
    assert_eq!("7", decimal(7));
    assert_eq!("10", decimal(10));
    assert_eq!("109", decimal(109));
    assert_eq!("18446744073709551615", decimal(u64::MAX));
    for n in [1u64, 9, 11, 99, 100, 101, 4096, 1550350568] {
        assert_eq!(n.to_string(), decimal(n));
    }
}

#[test]
fn texts_are_glued_and_joined() {
    assert_eq!("ab", glue("a", "b"));
    assert_eq!("a", glue("a", ""));
    assert_eq!("abc", glue3("a", "b", "c"));
    assert_eq!("", join(&strings(&[]), ", "));
    assert_eq!("a", join(&strings(&["a"]), ", "));
    assert_eq!("a, b, , c", join(&strings(&["a", "b", "", "c"]), ", "));
    assert_eq!("ab", join(&strings(&["a", "b"]), ""));
    assert_eq!(strings(&["a", "b"]), copy_lines(&strings(&["a", "b"])));
}

#[test]
fn journal_keeps_the_notes_in_their_order() {
    let mut journal = Journal::new();
    assert_eq!(0, journal.len());
    assert_eq!("", journal.get_log());
    journal.log("one");
    journal.info("two");
    journal.important("three");
    journal.note(Level::Debug, "four");
    assert_eq!(4, journal.len());
    assert_eq!("one; two; three; four", journal.get_log());
    let levels: Vec<Level> = journal.notes.iter().map(|n| n.level).collect();
    assert_eq!(vec![Level::Debug, Level::Info, Level::Important, Level::Debug], levels);
}

#[test]
fn facts_keep_the_first_answer() {
    let mut facts = Facts::new();
    assert_eq!(Err(Query::new(Topic::EnvVar, "A")), facts.text(Topic::EnvVar, "A"));
    facts.record(Query::new(Topic::EnvVar, "A"), Answer::Text(Some("1".to_string())));
    facts.record(Query::new(Topic::EnvVar, "A"), Answer::Text(Some("2".to_string())));
    facts.record(Query::new(Topic::EnvVar, "B"), Answer::Text(None));
    facts.record(Query::new(Topic::FileLines, "A"), Answer::Lines(Some(strings(&["x", "y"]))));
    facts.record(Query::new(Topic::SearchPath, ""), Answer::Lines(None));
    facts.record(Query::new(Topic::IsFile, "A"), Answer::Flag(false));
    assert_eq!(Ok(Some("1".to_string())), facts.text(Topic::EnvVar, "A"));
    assert_eq!(Ok(None), facts.text(Topic::EnvVar, "B"));
    assert_eq!(Err(Query::new(Topic::EnvVar, "a")), facts.text(Topic::EnvVar, "a"));
    assert_eq!(Ok(Some(strings(&["x", "y"]))), facts.lines(Topic::FileLines, "A"));
    assert_eq!(Ok(None), facts.lines(Topic::SearchPath, ""));
    assert_eq!(Ok(false), facts.flag(Topic::IsFile, "A"));
    assert_eq!(Err(Query::new(Topic::IsDir, "A")), facts.flag(Topic::IsDir, "A"));
    assert_eq!(Err(Query::new(Topic::EnvVar, "A")), facts.flag(Topic::EnvVar, "A"));
    assert_eq!(Err(Query::new(Topic::IsFile, "A")), facts.lines(Topic::IsFile, "A"));
    assert_eq!(true, facts.knows(&Query::new(Topic::EnvVar, "B")));
    assert_eq!(false, facts.knows(&Query::new(Topic::EnvVar, "C")));
    assert_eq!(Query::new(Topic::EnvVar, "B"), Query::new(Topic::EnvVar, "B").clone());
    assert_ne!(Query::new(Topic::EnvVar, "B"), Query::new(Topic::IsDir, "B"));
}

#[test]
fn the_disk_answers_questions_about_paths() {
    let nowhere = "/definitely/not/existing/file";
    assert!(matches!(answer_from_disk(&Query::new(Topic::IsFile, nowhere)), Some(Answer::Flag(false))));
    assert!(matches!(answer_from_disk(&Query::new(Topic::IsDir, nowhere)), Some(Answer::Flag(false))));
    assert!(matches!(answer_from_disk(&Query::new(Topic::Exists, nowhere)), Some(Answer::Flag(false))));
    assert!(matches!(answer_from_disk(&Query::new(Topic::Canonical, nowhere)), Some(Answer::Text(None))));
    assert!(matches!(answer_from_disk(&Query::new(Topic::IsFile, "/")), Some(Answer::Flag(false))));
    assert!(matches!(answer_from_disk(&Query::new(Topic::IsDir, "/")), Some(Answer::Flag(true))));
    assert!(matches!(answer_from_disk(&Query::new(Topic::Exists, "/")), Some(Answer::Flag(true))));
    match answer_from_disk(&Query::new(Topic::Canonical, "/.//")) {
        Some(Answer::Text(Some(resolved))) => assert_eq!("/", resolved),
        other => panic!("no resolved path: {:?}", other),
    }
}

#[test]
fn the_disk_answers_no_other_questions() {
    for topic in [
        Topic::EnvVar,
        Topic::CurrentProgram,
        Topic::FileLines,
        Topic::SearchPath,
        Topic::RegistryLastSubkey,
        Topic::RegistryJavaHome,
        Topic::JavaVersion,
    ] {
        assert!(answer_from_disk(&Query::new(topic, "/")).is_none());
    }
}

#[test]
fn what_the_disk_says_is_put_into_the_table() {
    let mut facts = Facts::new();
    assert_eq!(None, learn_from_disk(&mut facts, Query::new(Topic::IsDir, "/")));
    assert_eq!(Ok(true), facts.flag(Topic::IsDir, "/"));
    assert_eq!(None, learn_from_disk(&mut facts, Query::new(Topic::IsDir, "/")));
    let handed_back = learn_from_disk(&mut facts, Query::new(Topic::EnvVar, "HOME"));
    assert_eq!(Some(Query::new(Topic::EnvVar, "HOME")), handed_back);
    assert_eq!(false, facts.knows(&Query::new(Topic::EnvVar, "HOME")));
}
