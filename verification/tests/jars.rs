use itw_launcher::jars_helper::{compose_class_path, filter_in_val, filter_out_val, is_excluded};
use itw_launcher::os_access::{Linux, Windows};

fn paths(items: &[&str]) -> Vec<String> {
    items.iter().map(|s| s.to_string()).collect()
}

#[test]
fn compose_class_path_test_empty() {
    assert_eq!("", compose_class_path(vec![], &Linux::new(false)));
}

#[test]
fn compose_class_path_test_emty() {
    assert_eq!("", compose_class_path(vec![], &Linux::new(true)));
}

#[test]
fn jars_helper_compose_class_path_test_two() {
    assert_eq!("a:b", compose_class_path(vec![String::from("a"), String::from("b")], &Linux::new(false)));
}

#[test]
fn jars_helper_compose_class_path_test_one() {
    assert_eq!("a", compose_class_path(vec![String::from("a")], &Linux::new(false)));
}

#[test]
fn jars_helper_compose_class_path_test_three() {
    assert_eq!("a/b:/a/b/:c:c:a/b", compose_class_path(vec![
        String::from("a/b"),
        String::from("/a/b/"),
        String::from("c"),
        String::from("c"),
        String::from("a/b"),
    ], &Linux::new(false)));
}

#[test]
fn compose_class_path_on_windows_uses_semicolons() {
    assert_eq!("a;b;b", compose_class_path(paths(&["a", "b", "b"]), &Windows::new(false, true)));
    assert_eq!("a", compose_class_path(paths(&["a"]), &Windows::new(false, false)));
}

#[test]
fn compose_class_path_keeps_empty_members() {
    assert_eq!("a::b:", compose_class_path(paths(&["a", "", "b", ""]), &Linux::new(false)));
}

#[test]
fn filter_out_val_test1() {
    let mut vec = vec![String::from("a"), String::from("b"), String::from("c")];
    filter_out_val(String::from("a c"), &mut vec);
    assert_eq!(vec![String::from("b")], vec);
    filter_out_val(String::from(""), &mut vec);
    assert_eq!(vec![String::from("b")], vec);
    filter_out_val(String::from("   "), &mut vec);
    assert_eq!(vec![String::from("b")], vec);
    filter_out_val(String::from("b"), &mut vec);
    let empty: Vec<String> = Vec::new();
    assert_eq!(empty, vec);
}

#[test]
fn filter_out_val_test2() {
    let mut vec = vec![String::from("a"), String::from("b"), String::from("c")];
    filter_out_val(String::from("b"), &mut vec);
    assert_eq!(vec![String::from("a"), String::from("c")], vec);
    filter_out_val(String::from("a c"), &mut vec);
    let empty: Vec<String> = Vec::new();
    assert_eq!(empty, vec);
}

#[test]
fn filter_out_val_matches_parts_of_entries() {
    let mut vec = paths(&["/usr/share/java/js.jar", "/opt/itw/javaws.jar", "/jre/lib/ext/nashorn.jar"]);
    filter_out_val(String::from("js.jar  nashorn"), &mut vec);
    assert_eq!(paths(&["/opt/itw/javaws.jar"]), vec);
}

#[test]
fn is_excluded_ignores_blank_words() {
    assert_eq!(false, is_excluded("a b", &paths(&["", " ", "\t"])));
    assert_eq!(true, is_excluded("a b", &paths(&["", "b"])));
    assert_eq!(false, is_excluded("", &paths(&["b"])));
}

#[test]
fn filter_in_val_test1() {
    let mut vec = vec![String::from("a")];
    filter_in_val(String::from("b"), &mut vec);
    assert_eq!(vec![String::from("a"), String::from("b")], vec);
}

#[test]
fn filter_in_val_test2() {
    let mut vec = vec![];
    filter_in_val(String::from("b"), &mut vec);
    assert_eq!(vec![String::from("b")], vec);
}

#[test]
fn filter_in_val_adds_the_words_that_name_a_path() {
    let mut vec = paths(&["a"]);
    filter_in_val(String::from("b c  d"), &mut vec);
    assert_eq!(paths(&["a", "b", "c", "d"]), vec);
    filter_in_val(String::from(" /x/y.jar\t "), &mut vec);
    assert_eq!(paths(&["a", "b", "c", "d", "/x/y.jar\t"]), vec);
}

#[test]
fn filter_in_val_adds_nothing_for_a_value_without_words() {
    for value in ["", " ", "   ", "\t", " \t  \u{a0} "] {
        let mut vec = paths(&["a"]);
        filter_in_val(String::from(value), &mut vec);
        assert_eq!(paths(&["a"]), vec);
    }
    let mut empty: Vec<String> = Vec::new();
    filter_in_val(String::from(""), &mut empty);
    assert_eq!(0, empty.len());
}
