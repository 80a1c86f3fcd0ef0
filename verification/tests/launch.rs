use itw_launcher::journal::{Journal, Level};
use itw_launcher::launch::{
    arrange, clean_param, create_java_cmd, include_dashJs_values, include_not_dashJs,
    is_debug_on_testable, is_headless_enforced_testable, is_splash_forbidden_testable,
    version_from_output,
};
use itw_launcher::os_access::{Linux, Windows};

fn strings(items: &[&str]) -> Vec<String> {
    items.iter().map(|s| s.to_string()).collect()
}

#[test]
fn main_is_splash_forbidden_test() {
    let mut vec: Vec<(String, String)> = Vec::new();
    assert_eq!(is_splash_forbidden_testable(vec), false);
    vec = Vec::new();
    vec.push(("".to_string(), "".to_string()));
    assert_eq!(is_splash_forbidden_testable(vec), false);
    vec = Vec::new();
    vec.push(("-blah".to_string(), "-blah".to_string()));
    vec.push(("-verbose".to_string(), "-blah".to_string()));
    assert_eq!(is_splash_forbidden_testable(vec), false);
    vec = Vec::new();
    vec.push(("-blah".to_string(), "-blah".to_string()));
    vec.push(("ICEDTEA_WEB_SPLASH".to_string(), "".to_string()));
    vec.push(("-headless".to_string(),"-blah".to_string()));
    assert_eq!(is_splash_forbidden_testable(vec), true);
    vec = Vec::new();
    vec.push(("-blah".to_string(), "-blah".to_string()));
    vec.push(("ICEDTEA_WEB_SPLASH".to_string(), "".to_string()));
    vec.push(("---headless".to_string(), "-blah".to_string()));
    assert_eq!(is_splash_forbidden_testable(vec), true);
    vec = Vec::new();
    vec.push(("-blah".to_string(), "-blah".to_string()));
    vec.push(("aICEDTEA_WEB_SPLASH".to_string(), "".to_string()));
    vec.push(("---headless".to_string(), "-blah".to_string()));
    assert_eq!(is_splash_forbidden_testable(vec), false);
    vec = Vec::new();
    vec.push(("-blah".to_string(), "-blah".to_string()));
    vec.push(("ICEDTEA_WEB_SPLASHb".to_string(), "".to_string()));
    vec.push(("---headless".to_string(), "-blah".to_string()));
    assert_eq!(is_splash_forbidden_testable(vec), false);
    vec = Vec::new();
    vec.push(("-blah".to_string(), "-blah".to_string()));
    vec.push(("aICEDTEA_WEB_SPLASHb".to_string(), "".to_string()));
    vec.push(("---headless".to_string(), "-blah".to_string()));
    assert_eq!(is_splash_forbidden_testable(vec), false);
    vec = Vec::new();
    vec.push(("ICEDTEA_WEB_SPLASH".to_string(), "value".to_string()));
    vec.push(("---headless".to_string(), "-blah".to_string()));
    assert_eq!(is_splash_forbidden_testable(vec), true);
    vec = Vec::new();
    vec.push(("ICEDTEA_WEB_SPLASH".to_string(), "true".to_string()));
    vec.push(("---headless".to_string(), "-blah".to_string()));
    assert_eq!(is_splash_forbidden_testable(vec), false);
}

#[test]
fn splash_is_allowed_by_true_in_any_case() {
    assert_eq!(false, is_splash_forbidden_testable(vec![("ICEDTEA_WEB_SPLASH".to_string(), "TRUE".to_string())]));
    assert_eq!(false, is_splash_forbidden_testable(vec![("ICEDTEA_WEB_SPLASH".to_string(), "tRuE".to_string())]));
    assert_eq!(true, is_splash_forbidden_testable(vec![("ICEDTEA_WEB_SPLASH".to_string(), " true".to_string())]));
    assert_eq!(true, is_splash_forbidden_testable(vec![("ICEDTEA_WEB_SPLASH".to_string(), "false".to_string())]));
    assert_eq!(
        true,
        is_splash_forbidden_testable(vec![
            ("ICEDTEA_WEB_SPLASH".to_string(), "no".to_string()),
            ("ICEDTEA_WEB_SPLASH".to_string(), "true".to_string()),
        ])
    );
}

#[test]
fn main_is_headless_enforced_test() {
    let mut vec: Vec<String> = Vec::new();
    assert_eq!(is_headless_enforced_testable(vec), false);
    vec = Vec::new();
    vec.push("".to_string());
    assert_eq!(is_headless_enforced_testable(vec), false);
    vec = Vec::new();
    vec.push("-blah".to_string());
    vec.push("-verbose".to_string());
    assert_eq!(is_headless_enforced_testable(vec), false);
    vec = Vec::new();
    vec.push("-blah".to_string());
    vec.push("-verbose".to_string());
    vec.push("headless".to_string());
    assert_eq!(is_headless_enforced_testable(vec), false);
    vec = Vec::new();
    vec.push("-blah".to_string());
    vec.push("-verbose".to_string());
    vec.push("-headless".to_string());
    assert_eq!(is_headless_enforced_testable(vec), true);
    vec = Vec::new();
    vec.push("-blah".to_string());
    vec.push("-verbose".to_string());
    vec.push("---headless".to_string());
    assert_eq!(is_headless_enforced_testable(vec), true);
}

#[test]
fn main_is_debug_on_test() {
    let mut vec: Vec<String> = Vec::new();
    assert_eq!(is_debug_on_testable(vec), None);
    vec = Vec::new();
    vec.push("".to_string());
    assert_eq!(is_debug_on_testable(vec), None);
    vec = Vec::new();
    vec.push("-blah".to_string());
    vec.push("-headless".to_string());
    assert_eq!(is_debug_on_testable(vec), None);
    vec = Vec::new();
    vec.push("-blah".to_string());
    vec.push("verbose".to_string());
    vec.push("-headless".to_string());
    assert_eq!(is_debug_on_testable(vec), None);
    vec = Vec::new();
    vec.push("-blah".to_string());
    vec.push("-verbose".to_string());
    vec.push("-headless".to_string());
    assert_eq!(is_debug_on_testable(vec), Some(true));
    vec = Vec::new();
    vec.push("-blah".to_string());
    vec.push("---verbose".to_string());
    vec.push("-headless".to_string());
    assert_eq!(is_debug_on_testable(vec), Some(true));
}

#[test]
fn main_clean_param_test() {
    assert_eq!(clean_param(String::from("-verbose")), String::from("-verbose"));
    assert_eq!(clean_param(String::from("--verbose")), String::from("-verbose"));
    assert_eq!(clean_param(String::from("------verbose")), String::from("-verbose"));
    assert_eq!(clean_param(String::from("a-headless")), String::from("a-headless"));
    assert_eq!(clean_param(String::from("-a-headless")), String::from("-a-headless"));
    assert_eq!(clean_param(String::from("----a-headless")), String::from("-a-headless"));
    assert_eq!(clean_param(String::from("test-")), String::from("test-"));
    assert_eq!(clean_param(String::from("-test-")), String::from("-test-"));
    assert_eq!(clean_param(String::from("verbose")), String::from("verbose"));
}

#[test]
fn clean_param_of_dashes_only() {
    assert_eq!(clean_param(String::from("")), String::from(""));
    assert_eq!(clean_param(String::from("-")), String::from("-"));
    assert_eq!(clean_param(String::from("----")), String::from("-"));
}

#[test]
#[allow(non_snake_case)]
fn main_include_not_dashJs_test() {
    let switches = vec![
        String::from("-J-a"),
        String::from("-b"),
        String::from("--Jc"),
        String::from("d")];
    let mut result = Vec::new();
    include_not_dashJs(&switches, &mut result);
    let ex = vec![
        String::from("-b"),
        String::from("--Jc"),
        String::from("d")];
    assert_eq!(ex, result);
}

#[test]
#[allow(non_snake_case)]
fn main_include_not_dashJs_test_empty() {
    let switches: Vec<std::string::String> = vec![];
    let mut result: Vec<std::string::String> = Vec::new();
    let ex: Vec<std::string::String> = Vec::new();
    include_not_dashJs(&switches, &mut result);
    assert_eq!(ex, result);
}

#[test]
#[allow(non_snake_case)]
fn main_include_dashJs_valuess_test() {
    let switches = vec![
        String::from("-J-a"),
        String::from("-b"),
        String::from("--Jc"),
        String::from("-J"), //not added, have no arg
        String::from("-J-"), //added
        String::from("-Jd")];
    let mut result = Vec::new();
    include_dashJs_values(&switches, &mut result, &mut Journal::new());
    let ex = vec![
        String::from("-a"),
        String::from("-"),
        String::from("d")];
    assert_eq!(ex, result);
}

#[test]
#[allow(non_snake_case)]
fn main_include_dashJs_values_test_empty() {
    let switches: Vec<std::string::String> = vec![];
    let mut result: Vec<std::string::String> = Vec::new();
    let ex: Vec<std::string::String> = Vec::new();
    include_dashJs_values(&switches, &mut result, &mut Journal::new());
    assert_eq!(ex, result);
}

#[test]
fn empty_dash_j_is_dropped_with_a_warning() {
    let switches = strings(&["-J", "x", "-J"]);
    let mut result = strings(&["kept"]);
    let mut journal = Journal::new();
    include_dashJs_values(&switches, &mut result, &mut journal);
    assert_eq!(strings(&["kept"]), result);
    assert_eq!(2, journal.len());
    assert_eq!(Level::Info, journal.notes[0].level);
    assert_eq!("Warning, empty -J switch", journal.notes[0].text);
    assert_eq!("Warning, empty -J switch; Warning, empty -J switch", journal.get_log());
}

#[test]
fn arrange_puts_everything_in_its_place() {
    let all = arrange(
        strings(&["-Xmx1g"]),
        Some("-splash:s.png".to_string()),
        Some("@args".to_string()),
        "-Xbootclasspath/a:b.jar".to_string(),
        "c.jar".to_string(),
        "javaws",
        "/bin/javaws",
        &strings(&["-J-Xmx1g", "app.jnlp", "-verbose"]),
    );
    assert_eq!(
        strings(&[
            "-Xmx1g",
            "-splash:s.png",
            "@args",
            "-Xbootclasspath/a:b.jar",
            "-classpath",
            "c.jar",
            "-Dicedtea-web.bin.name=javaws",
            "-Dicedtea-web.bin.location=/bin/javaws",
            "net.sourceforge.jnlp.runtime.Boot",
            "app.jnlp",
            "-verbose",
        ]),
        all
    );
    let bare = arrange(vec![], None, None, "b".to_string(), "c".to_string(), "n", "l", &vec![]);
    assert_eq!(
        strings(&["b", "-classpath", "c", "-Dicedtea-web.bin.name=n", "-Dicedtea-web.bin.location=l", "net.sourceforge.jnlp.runtime.Boot"]),
        bare
    );
}

#[test]
fn version_is_read_from_the_first_line_that_names_one() {
    let mut journal = Journal::new();
    assert_eq!(7, version_from_output(&strings(&["java version \"1.7.0_80\""]), &mut journal));
    assert_eq!(7, version_from_output(&strings(&["java version \"1.7.1\""]), &mut journal));
    assert_eq!(8, version_from_output(&strings(&["Picked up _JAVA_OPTIONS", "openjdk version \"1.8.0_181\"", "java version \"1.7.0\""]), &mut journal));
    assert_eq!(9, version_from_output(&strings(&["openjdk version \"11.0.2\" 2019-01-15"]), &mut journal));
    assert_eq!(9, version_from_output(&strings(&["java version \"1.6.0_45\""]), &mut journal));
    assert_eq!(9, version_from_output(&strings(&["openjdk version \"21\""]), &mut journal));
    assert_eq!(9, version_from_output(&strings(&["openjdk version \"33\""]), &mut journal));
    assert_eq!(
        "itw-rust-debug: detected jdk 7; itw-rust-debug: detected jdk 7; itw-rust-debug: detected jdk 8; itw-rust-debug: detected jdk 9 or up; itw-rust-debug: detected jdk 9 or up; itw-rust-debug: detected jdk 9 or up; itw-rust-debug: detected jdk 9 or up",
        journal.get_log()
    );
}

#[test]
fn java_command_runs_bin_java_of_the_runtime() {
    let cmd = create_java_cmd(&Linux::new(false), "/some/jre", &strings(&["-version"]));
    assert_eq!("/some/jre/bin/java", cmd.program);
    assert_eq!(strings(&["-version"]), cmd.args);
    assert_eq!(true, cmd.attached);
    let detached = create_java_cmd(&Windows::new(false, false), "/some/jre", &strings(&[]));
    assert_eq!(false, detached.attached);
    assert_eq!(true, create_java_cmd(&Windows::new(false, true), "j", &strings(&[])).attached);
}
