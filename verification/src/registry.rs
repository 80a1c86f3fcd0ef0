//! The Java runtime that the Windows registry names.
//!
//! Four keys under `SOFTWARE\JavaSoft` are looked at in turn. Under each, the last subkey
//! names the newest version installed. A version 1.8 of the first two keys is taken at
//! once; so is whatever the third or the fourth key holds. Failing that, the last version
//! found under the first two keys is taken.

use crate::facts::{
    asks_what_is_missing, lemma_answers_stay, seen, stays, Facts, Knowledge, Query, QueryView,
    Topic,
};
use crate::journal::glue3;
use crate::text::{starts, starts_with};
use vstd::prelude::*;
use vstd::string::*;

verus! {

/// The registry keys in the order in which they are looked at.
pub open spec fn registry_keys() -> Seq<Seq<char>> {
    seq![
        "SOFTWARE\\JavaSoft\\Java Runtime Environment"@,
        "SOFTWARE\\JavaSoft\\Java Development Kit"@,
        "SOFTWARE\\JavaSoft\\JDK"@,
        "SOFTWARE\\JavaSoft\\JRE"@,
    ]
}

/// Whether a version found under key number `i` ends the search.
pub open spec fn settles_search(i: int, version: Seq<char>) -> bool {
    starts(version, "1.8"@) || i >= 2
}

/// The key of the version to use, looking at the keys from number `i` on; `found` is the
/// key picked so far, empty where none was.
pub open spec fn version_key(k: Knowledge, i: int, found: Seq<char>) -> Result<
    Seq<char>,
    QueryView,
>
    decreases 4 - i,
{
    if i < 0 || i >= 4 {
        Ok(found)
    } else {
        match k.text(Topic::RegistryLastSubkey, registry_keys()[i]) {
            Err(q) => Err(q),
            Ok(None) => version_key(k, i + 1, found),
            Ok(Some(version)) => {
                let full = registry_keys()[i] + "\\"@ + version;
                if settles_search(i, version) {
                    Ok(full)
                } else {
                    version_key(k, i + 1, full)
                }
            },
        }
    }
}

/// A directory with a backslash at its end; `None` for an empty text.
pub open spec fn with_backslash(dir: Seq<char>) -> Option<Seq<char>> {
    if dir.len() == 0 {
        None
    } else if dir.last() == '\\' {
        Some(dir)
    } else {
        Some(dir + "\\"@)
    }
}

/// The Java home that the registry names, `None` where it names none.
pub open spec fn registry_path(k: Knowledge) -> Result<Option<Seq<char>>, QueryView> {
    match version_key(k, 0, Seq::empty()) {
        Err(q) => Err(q),
        Ok(key) => if key.len() == 0 {
            Ok(None)
        } else {
            match k.text(Topic::RegistryJavaHome, key) {
                Err(q) => Err(q),
                Ok(None) => Ok(None),
                Ok(Some(dir)) => Ok(with_backslash(dir)),
            }
        },
    }
}

fn registry_key(i: usize) -> (r: &'static str)
    requires
        i < 4,
    ensures
        r@ == registry_keys()[i as int],
{
    if i == 0 {
        "SOFTWARE\\JavaSoft\\Java Runtime Environment"
    } else if i == 1 {
        "SOFTWARE\\JavaSoft\\Java Development Kit"
    } else if i == 2 {
        "SOFTWARE\\JavaSoft\\JDK"
    } else {
        "SOFTWARE\\JavaSoft\\JRE"
    }
}

/// Puts a backslash at the end of a directory that has none.
pub fn ensure_backslash(dir: String) -> (r: Option<String>)
    ensures
        r.deep_view() == with_backslash(dir@),
{
    let n: usize = dir.as_str().unicode_len();
    if n == 0 {
        None
    } else if dir.as_str().get_char(n - 1) == '\\' {
        Some(dir)
    } else {
        Some(dir.concat("\\"))
    }
}

/// Looks the Java home up in the registry.
pub fn java_registry_path(facts: &Facts) -> (r: Result<Option<String>, Query>)
    ensures
        seen(r) == registry_path(facts@),
{
    let mut java_key_name = String::new();
    let mut i: usize = 0;
    while i < 4
        invariant
            i <= 4,
            version_key(facts@, 0, Seq::empty()) == version_key(facts@, i as int, java_key_name@),
        decreases 4 - i,
    {
        let reg_key_name = registry_key(i);
        match facts.text(Topic::RegistryLastSubkey, reg_key_name)? {
            Some(jpath) => {
                java_key_name = glue3(reg_key_name, "\\", jpath.as_str());
                if starts_with(jpath.as_str(), "1.8") || i >= 2 {
                    i = 4;
                } else {
                    i += 1;
                }
            },
            None => {
                i += 1;
            },
        }
    }
    if java_key_name.as_str().unicode_len() == 0 {
        return Ok(None);
    }
    match facts.text(Topic::RegistryJavaHome, java_key_name.as_str())? {
        Some(jpath) => Ok(ensure_backslash(jpath)),
        None => Ok(None),
    }
}

/// The choice of the key asks only for what is missing.
pub proof fn lemma_version_key_asks_what_is_missing(k: Knowledge, i: int, found: Seq<char>)
    ensures
        asks_what_is_missing(version_key(k, i, found), k),
    decreases 4 - i,
{
    if 0 <= i < 4 {
        match k.text(Topic::RegistryLastSubkey, registry_keys()[i]) {
            Ok(None) => {
                lemma_version_key_asks_what_is_missing(k, i + 1, found);
            },
            Ok(Some(version)) => {
                lemma_version_key_asks_what_is_missing(
                    k,
                    i + 1,
                    registry_keys()[i] + "\\"@ + version,
                );
            },
            Err(q) => {},
        }
    }
}

/// The look into the registry asks only for what is missing.
pub proof fn lemma_registry_asks_what_is_missing(k: Knowledge)
    ensures
        asks_what_is_missing(registry_path(k), k),
{
    lemma_version_key_asks_what_is_missing(k, 0, Seq::empty());
}

/// The choice of the key stays when the table learns more.
pub proof fn lemma_version_key_stays(k: Knowledge, more: Knowledge, i: int, found: Seq<char>)
    requires
        k.within(more),
    ensures
        stays(version_key(k, i, found), version_key(more, i, found)),
    decreases 4 - i,
{
    if 0 <= i < 4 {
        lemma_answers_stay(k, more, Topic::RegistryLastSubkey, registry_keys()[i]);
        match k.text(Topic::RegistryLastSubkey, registry_keys()[i]) {
            Ok(None) => {
                lemma_version_key_stays(k, more, i + 1, found);
            },
            Ok(Some(version)) => {
                lemma_version_key_stays(k, more, i + 1, registry_keys()[i] + "\\"@ + version);
            },
            Err(q) => {},
        }
    }
}

/// What the registry names stays when the table learns more.
pub proof fn lemma_registry_stays(k: Knowledge, more: Knowledge)
    requires
        k.within(more),
    ensures
        stays(registry_path(k), registry_path(more)),
{
    lemma_version_key_stays(k, more, 0, Seq::empty());
    match version_key(k, 0, Seq::empty()) {
        Ok(key) => {
            lemma_answers_stay(k, more, Topic::RegistryJavaHome, key);
        },
        Err(q) => {},
    }
}

} // verus!
