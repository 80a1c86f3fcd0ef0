use itw_launcher::property::{check_file_for_property, split_property, unescape, Property};

fn lines(text: &[&str]) -> Vec<String> {
    text.iter().map(|s| s.to_string()).collect()
}

#[test]
fn check_property() {
    let p1 = Property { key: String::from("k1"), value: String::from("v1") };
    let p2 = Property { key: String::from("k1"), value: String::from("v1") };
    let p3 = Property { key: String::from("k2"), value: String::from("v1") };
    let p4 = Property { key: String::from("k1"), value: String::from("v2") };
    let p5 = Property { key: String::from("k2"), value: String::from("v2") };
    assert_eq!(p1, p2);
    assert_ne!(p1, p3);
    assert_ne!(p1, p4);
    assert_ne!(p1, p5);
}

#[test]
fn checked_split() {
    let p1 = itw_launcher::property::checked_split("aXb".to_string(), 1);
    assert_eq!("a".to_string(), p1.key);
    assert_eq!("b".to_string(), p1.value);
    let p2 = itw_launcher::property::checked_split("aXb".to_string(), 0);
    assert_eq!("".to_string(), p2.key);
    assert_eq!("Xb".to_string(), p2.value);
    let p3 = itw_launcher::property::checked_split("aXb".to_string(), 2);
    assert_eq!("aX".to_string(), p3.key);
    assert_eq!("".to_string(), p3.value);
}

#[test]
fn split_property_nodelimiter() {
    let p = split_property(&"aXb".to_string());
    assert_eq!(None, p);
}

#[test]
fn split_property_colon_delimiter() {
    let p = split_property(&"a:b".to_string()).expect("should be some!");
    assert_eq!("a".to_string(), p.key);
    assert_eq!("b".to_string(), p.value);
}

#[test]
fn split_property_equals_delimiter() {
    let p = split_property(&"a=b".to_string()).expect("should be some!");
    assert_eq!("a".to_string(), p.key);
    assert_eq!("b".to_string(), p.value);
}

#[test]
fn split_property_mixed_delimiter() {
    let p1 = split_property(&"a=:b".to_string()).expect("should be some!");
    assert_eq!("a".to_string(), p1.key);
    assert_eq!(":b".to_string(), p1.value);
    let p2 = split_property(&"a:=b".to_string()).expect("should be some!");
    assert_eq!("a".to_string(), p2.key);
    assert_eq!("=b".to_string(), p2.value);
}

#[test]
fn split_property_trimming() {
    let p1 = split_property(&" a =  ".to_string()).expect("should be some!");
    assert_eq!("a".to_string(), p1.key);
    assert_eq!("".to_string(), p1.value);
    let p2 = split_property(&"a : b".to_string()).expect("should be some!");
    assert_eq!("a".to_string(), p2.key);
    assert_eq!("b".to_string(), p2.value);
    let p3 = split_property(&" a :b ".to_string()).expect("should be some!");
    assert_eq!("a".to_string(), p3.key);
    assert_eq!("b".to_string(), p3.value)
}

#[test]
fn split_property_reals() {
    let p1 = split_property(&"java.property = some:terrible:jdk".to_string()).expect("should be some!");
    assert_eq!("java.property".to_string(), p1.key);
    assert_eq!("some:terrible:jdk".to_string(), p1.value);
}

#[test]
fn split_property_skips_comments_and_blank_lines() {
    assert_eq!(None, split_property(&"# key=value".to_string()));
    assert_eq!(None, split_property(&"   #key:value".to_string()));
    assert_eq!(None, split_property(&"".to_string()));
    assert_eq!(None, split_property(&"   \t ".to_string()));
}

#[test]
fn split_property_trims_unicode_white_space() {
    let p = split_property(&"\u{2003}a\u{a0}=\u{3000}b\u{85}".to_string()).expect("should be some!");
    assert_eq!("a".to_string(), p.key);
    assert_eq!("b".to_string(), p.value);
}

#[test]
fn checked_split_counts_characters() {
    let p = itw_launcher::property::checked_split("ž=š".to_string(), 1);
    assert_eq!("ž".to_string(), p.key);
    assert_eq!("š".to_string(), p.value);
}

#[test]
fn unescape_restores_colons() {
    assert_eq!("C:\\java", unescape("C\\:\\java"));
    assert_eq!("a:b:c", unescape("a\\:b:c"));
    assert_eq!("\\", unescape("\\"));
    assert_eq!("\\:", unescape("\\\\:"));
    assert_eq!("", unescape(""));
}

#[test]
fn check_load_not_found() {
    let file = lines(&["key1=val1", "key2=val2", "deployment.jre.dir=/some/jre", "key2=val3", "key4=val4", ", "]);
    let k = "not_existing_key";
    let prop = Property::load(&file, k);
    assert_eq!(None, prop);
}

#[test]
fn check_load_item_exists() {
    let file = lines(&["key1=val1", "key2=val2", "deployment.jre.dir=/some/jre", "key2=val3", "key4=val4", ", "]);
    let k = "key2";
    let prop = Property::load(&file, k);
    assert_eq!("val2", prop.expect("property was supposed to be loaded").value);
}

#[test]
fn load_first_match_wins() {
    let file = lines(&["key=val", "other=1", "key=otherval"]);
    let prop = Property::load(&file, "key").expect("key is defined");
    assert_eq!("key", prop.key);
    assert_eq!("val", prop.value);
}

#[test]
fn load_twice_gives_the_same() {
    let file = lines(&["# comment", "a : 1", "b=2", "a=3"]);
    assert_eq!(Property::load(&file, "a"), Property::load(&file, "a"));
    assert_eq!(Property::load(&file, "zz"), Property::load(&file, "zz"));
    assert_eq!(Some("1".to_string()), check_file_for_property(&file, "a"));
}

#[test]
fn load_unescapes_the_value() {
    let file = lines(&["deployment.jre.dir=C\\:\\java\\jre"]);
    assert_eq!(Some("C:\\java\\jre".to_string()), check_file_for_property(&file, "deployment.jre.dir"));
}

#[test]
fn load_takes_key_literally() {
    let file = lines(&["Key=1", " key = 2 "]);
    assert_eq!(Some("2".to_string()), check_file_for_property(&file, "key"));
    assert_eq!(None, check_file_for_property(&file, "KEY"));
}
