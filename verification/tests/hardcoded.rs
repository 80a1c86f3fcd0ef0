use itw_launcher::facts::{Answer, Facts, Query, Topic};
use itw_launcher::hardcoded_paths::{
    get_argsfile, get_gson, get_ipaddress, get_itwlibsearch, get_javaws, get_jre, get_libsearch,
    get_main, get_mslinks, get_rhino, get_splash, get_tagsoup, libsearch_from, sanitize,
    ItwLibSearch, ParseItwLibSearch,
};
use itw_launcher::journal::{Journal, Level};
use std::str::FromStr;

#[test]
fn hardcoded_paths_variables_non_default() {
    assert_ne!(String::from(get_main()).trim(), String::from("MAIN_CLASS-dev-unspecified"));
    assert_ne!(String::from(get_jre()).trim(), String::from("JRE-dev-unspecified"));
    assert_ne!(String::from(get_splash()).trim(), String::from("SPLASH_PNG-dev-unspecified"));
    assert_ne!(String::from(get_javaws()).trim(), String::from("JAVAWS_JAR-dev-unspecified"));
    assert_ne!(String::from(get_itwlibsearch()).trim(), String::from("ITW_LIBS-dev-unspecified"));
    assert_ne!(String::from(get_argsfile()).trim(), String::from("MODULARJDK_ARGS_LOCATION-dev-unspecified"));
}

#[test]
fn hardcoded_paths_variables_non_empty() {
    assert_ne!(String::from(get_main()).trim(), String::from(""));
    assert_ne!(String::from(get_jre()).trim(), String::from(""));
    assert_ne!(String::from(get_splash()).trim(), String::from(""));
    assert_ne!(String::from(get_javaws()).trim(), String::from(""));
    assert_ne!(String::from(get_itwlibsearch()).trim(), String::from(""));
    assert_ne!(String::from(get_argsfile()).trim(), String::from(""));
}

#[test]
fn hardcoded_paths_get_itwlibsearch_in_enumeration() {
    assert_eq!(get_itwlibsearch() == "EMBEDDED" || get_itwlibsearch() == "BUNDLED" || get_itwlibsearch() == "DISTRIBUTION", true);
}

#[test]
fn hardcoded_paths_itw_libsearch_to_enum_test() {
    assert!(ItwLibSearch::from_str("BUNDLED") == Ok(ItwLibSearch::BUNDLED));
    assert!(ItwLibSearch::from_str("EMBEDDED") == Ok(ItwLibSearch::EMBEDDED));
    assert!(ItwLibSearch::from_str("DISTRIBUTION") == Ok(ItwLibSearch::DISTRIBUTION));
    assert!(ItwLibSearch::from_str("") == Err(ParseItwLibSearch { _priv: () }));
}

#[test]
fn libsearch_names_are_matched_exactly() {
    assert!(ItwLibSearch::parse("bundled").is_err());
    assert!(ItwLibSearch::parse(" BUNDLED").is_err());
    assert!(ItwLibSearch::parse("BOTH").is_err());
    assert_eq!("BUNDLED", ItwLibSearch::BUNDLED.name());
    assert_eq!("DISTRIBUTION", ItwLibSearch::DISTRIBUTION.name());
    assert_eq!("EMBEDDED", ItwLibSearch::EMBEDDED.name());
}

#[test]
fn sanitize_drops_blank_locations() {
    assert_eq!(None, sanitize(None));
    assert_eq!(None, sanitize(Some("")));
    assert_eq!(None, sanitize(Some("  \t")));
    assert_eq!(Some("a.jar"), sanitize(Some("a.jar")));
    assert_eq!(Some(" a.jar "), sanitize(Some(" a.jar ")));
}

#[test]
fn optional_jars_that_the_build_does_not_name_are_absent() {
    assert_eq!(Some("/usr/share/java/tagsoup.jar"), get_tagsoup());
    assert_eq!(Some("/usr/share/java/js.jar"), get_rhino());
    assert_eq!(None, get_mslinks());
    assert_eq!(None, get_gson());
    assert_eq!(None, get_ipaddress());
}

#[test]
fn libsearch_from_prefers_a_valid_override() {
    let mut journal = Journal::new();
    assert_eq!(Ok(ItwLibSearch::EMBEDDED), libsearch_from(Some("EMBEDDED"), "DISTRIBUTION", &mut journal));
    assert_eq!(Ok(ItwLibSearch::BUNDLED), libsearch_from(None, "BUNDLED", &mut journal));
    assert_eq!(0, journal.len());
}

#[test]
fn libsearch_from_warns_about_an_invalid_override() {
    let mut journal = Journal::new();
    assert_eq!(Ok(ItwLibSearch::DISTRIBUTION), libsearch_from(Some("both"), "DISTRIBUTION", &mut journal));
    assert_eq!(1, journal.len());
    assert_eq!(Level::Important, journal.notes[0].level);
    assert_eq!(
        "ITW-LIBS provided, but have invalid value of both. Use BUNDLED, DISTRIBUTION or EMBEDDED",
        journal.notes[0].text
    );
}

#[test]
fn libsearch_from_reports_a_broken_build() {
    let mut journal = Journal::new();
    assert_eq!(Err(ParseItwLibSearch { _priv: () }), libsearch_from(None, "ITW_LIBS-dev-unspecified", &mut journal));
    assert_eq!(Err(ParseItwLibSearch { _priv: () }), libsearch_from(Some("x"), "", &mut journal));
}

#[test]
fn get_libsearch_asks_for_the_override_first() {
    let mut facts = Facts::new();
    let mut journal = Journal::new();
    let asked = get_libsearch(&facts, &mut journal);
    assert_eq!(Err(Query::new(Topic::EnvVar, "ITW_LIBS")), asked);
    facts.record(Query::new(Topic::EnvVar, "ITW_LIBS"), Answer::Text(Some("BUNDLED".to_string())));
    let mut journal = Journal::new();
    assert_eq!(Ok(ItwLibSearch::BUNDLED), get_libsearch(&facts, &mut journal));
    assert_eq!(0, journal.len());
}

#[test]
fn get_libsearch_falls_back_to_the_build() {
    let mut facts = Facts::new();
    facts.record(Query::new(Topic::EnvVar, "ITW_LIBS"), Answer::Text(None));
    let mut journal = Journal::new();
    assert_eq!(Ok(ItwLibSearch::DISTRIBUTION), get_libsearch(&facts, &mut journal));
    let mut other = Facts::new();
    other.record(Query::new(Topic::EnvVar, "ITW_LIBS"), Answer::Text(Some("nonsense".to_string())));
    let mut journal = Journal::new();
    assert_eq!(Ok(ItwLibSearch::DISTRIBUTION), get_libsearch(&other, &mut journal));
    assert!(journal.get_log().contains("invalid value of nonsense"));
}
