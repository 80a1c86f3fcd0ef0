//! One entry of a deployment properties file, and the search of a file for a key.
//!
//! A properties file is read line by line. Blank lines and lines that begin with `#` carry
//! nothing. Every other line is cut at its first `=` or `:`; what stands before is the key,
//! what stands after is the value, both trimmed. A line with neither delimiter is skipped.

use crate::text::{find_char, first_index, str_eq, trim, trimmed, unescape_colons};
use vstd::prelude::*;
use vstd::string::*;

verus! {

/// A key with its value.
#[derive(Debug)]
pub struct Property {
    pub key: String,
    pub value: String,
}

impl View for Property {
    type V = (Seq<char>, Seq<char>);

    open spec fn view(&self) -> (Seq<char>, Seq<char>) {
        (self.key@, self.value@)
    }
}

impl PartialEq for Property {
    fn eq(&self, other: &Property) -> (r: bool) {
        str_eq(self.key.as_str(), other.key.as_str()) && str_eq(
            self.value.as_str(),
            other.value.as_str(),
        )
    }
}

impl vstd::std_specs::cmp::PartialEqSpecImpl for Property {
    open spec fn obeys_eq_spec() -> bool {
        true
    }

    open spec fn eq_spec(&self, other: &Property) -> bool {
        self.key@ == other.key@ && self.value@ == other.value@
    }
}

/// Key and value of a line cut at position `i`: the delimiter itself belongs to neither.
pub open spec fn cut_at(s: Seq<char>, i: int) -> (Seq<char>, Seq<char>) {
    (trimmed(s.subrange(0, i)), trimmed(s.subrange(i + 1, s.len() as int)))
}

/// Position of the earliest `=` or `:` in `s`, or the length of `s` when it holds neither.
pub open spec fn delimiter_index(s: Seq<char>) -> int {
    let e: int = first_index(s, '=');
    let c: int = first_index(s, ':');
    if e <= c {
        e
    } else {
        c
    }
}

/// A line is a comment when its first character after trimming is `#`.
pub open spec fn is_comment(t: Seq<char>) -> bool {
    t.len() > 0 && t[0] == '#'
}

/// What a line of a properties file holds: a key and a value, or nothing.
pub open spec fn parse_line(line: Seq<char>) -> Option<(Seq<char>, Seq<char>)> {
    let t = trimmed(line);
    let d: int = delimiter_index(t);
    if is_comment(t) || d < 0 || d >= t.len() {
        None
    } else {
        Some(cut_at(t, d))
    }
}

/// Whether `line` defines `key`.
pub open spec fn defines(line: Seq<char>, key: Seq<char>) -> bool {
    parse_line(line) matches Some(kv) && kv.0 == key
}

/// The value that `line` gives, with escaped colons restored.
pub open spec fn value_of(line: Seq<char>) -> Seq<char> {
    unescape_colons(parse_line(line).unwrap().1)
}

/// The value of `key` in a file of `lines`: that of the first line that defines it.
pub open spec fn lookup(lines: Seq<Seq<char>>, key: Seq<char>) -> Option<Seq<char>>
    decreases lines.len(),
{
    if lines.len() == 0 {
        None
    } else if defines(lines[0], key) {
        Some(value_of(lines[0]))
    } else {
        lookup(lines.drop_first(), key)
    }
}

/// The entry that a file of `lines` holds for `key`: the key with its value.
pub open spec fn loaded(lines: Seq<Seq<char>>, key: Seq<char>) -> Option<(Seq<char>, Seq<char>)> {
    match lookup(lines, key) {
        Some(value) => Some((key, value)),
        None => None,
    }
}

/// Cuts `s` at character position `i` into a trimmed key and a trimmed value.
pub fn checked_split(s: String, i: usize) -> (p: Property)
    requires
        i < s@.len(),
    ensures
        p@ == cut_at(s@, i as int),
{
    let text = s.as_str();
    let n: usize = text.unicode_len();
    let key = trim(text.substring_char(0, i));
    let value = trim(text.substring_char(i + 1, n));
    Property { key, value }
}

/// Reads one line of a properties file.
pub fn split_property(string: &String) -> (r: Option<Property>)
    ensures
        parse_line(string@) == match r {
            Some(p) => Some(p@),
            None => None,
        },
{
    let t = trim(string.as_str());
    let n: usize = t.as_str().unicode_len();
    if n > 0 && t.as_str().get_char(0) == '#' {
        return None;
    }
    let eq_char: usize = find_char(t.as_str(), '=');
    let doubledot_char: usize = find_char(t.as_str(), ':');
    if eq_char == n && doubledot_char == n {
        None
    } else if eq_char <= doubledot_char {
        Some(checked_split(t, eq_char))
    } else {
        Some(checked_split(t, doubledot_char))
    }
}

proof fn lemma_unescape_plain(s: Seq<char>, i: int)
    requires
        0 <= i < s.len(),
        !(i + 1 < s.len() && s[i] == '\\' && s[i + 1] == ':'),
    ensures
        unescape_colons(s.subrange(i, s.len() as int)) == seq![s[i]] + unescape_colons(
            s.subrange(i + 1, s.len() as int),
        ),
{
    let t = s.subrange(i, s.len() as int);
    assert(t.drop_first() =~= s.subrange(i + 1, s.len() as int));
}

proof fn lemma_unescape_pair(s: Seq<char>, i: int)
    requires
        0 <= i,
        i + 1 < s.len(),
        s[i] == '\\',
        s[i + 1] == ':',
    ensures
        unescape_colons(s.subrange(i, s.len() as int)) == seq![':'] + unescape_colons(
            s.subrange(i + 2, s.len() as int),
        ),
{
    let t = s.subrange(i, s.len() as int);
    assert(t.subrange(2, t.len() as int) =~= s.subrange(i + 2, s.len() as int));
}

/// Turns every `\:` of a value into `:`.
pub fn unescape(value: &str) -> (r: String)
    ensures
        r@ == unescape_colons(value@),
{
    let n: usize = value.unicode_len();
    let mut r = String::new();
    let mut i: usize = 0;
    assert(value@.subrange(0, n as int) =~= value@);
    while i < n
        invariant
            i <= n,
            n == value@.len(),
            unescape_colons(value@) == r@ + unescape_colons(value@.subrange(i as int, n as int)),
        decreases n - i,
    {
        if i + 1 < n && value.get_char(i) == '\\' && value.get_char(i + 1) == ':' {
            proof {
                lemma_unescape_pair(value@, i as int);
                reveal_strlit(":");
                assert(":"@ =~= seq![':']);
            }
            r.append(":");
            i += 2;
        } else {
            proof {
                lemma_unescape_plain(value@, i as int);
                assert(value@.subrange(i as int, i + 1) =~= seq![value@[i as int]]);
            }
            r.append(value.substring_char(i, i + 1));
            i += 1;
        }
    }
    r
}

/// Searches the lines of a properties file for `key`.
pub fn check_file_for_property(lines: &Vec<String>, key: &str) -> (r: Option<String>)
    ensures
        r.deep_view() == lookup(lines.deep_view(), key@),
{
    let mut i: usize = 0;
    assert(lines.deep_view().subrange(0, lines.len() as int) =~= lines.deep_view());
    while i < lines.len()
        invariant
            i <= lines.len(),
            lookup(lines.deep_view(), key@) == lookup(
                lines.deep_view().subrange(i as int, lines.len() as int),
                key@,
            ),
        decreases lines.len() - i,
    {
        proof {
            let rest = lines.deep_view().subrange(i as int, lines.len() as int);
            assert(rest[0] == lines[i as int]@);
            assert(rest.drop_first() =~= lines.deep_view().subrange(i + 1, lines.len() as int));
        }
        match split_property(&lines[i]) {
            Some(kvv) => {
                if str_eq(kvv.key.as_str(), key) {
                    return Some(unescape(kvv.value.as_str()));
                }
            },
            None => {},
        }
        i += 1;
    }
    None
}

impl Property {
    /// The entry of `key` in a file of `lines`, if a line defines it.
    pub fn load(lines: &Vec<String>, key: &str) -> (r: Option<Property>)
        ensures
            loaded(lines.deep_view(), key@) == match r {
                Some(p) => Some(p@),
                None => None,
            },
    {
        match check_file_for_property(lines, key) {
            None => None,
            Some(value) => Some(Property { key: String::from_str(key), value }),
        }
    }
}

/// Loading is repeatable: two loads of the same lines under the same key give the same
/// entry, or both give none.
pub proof fn law_load_is_repeatable(
    lines: Seq<Seq<char>>,
    key: Seq<char>,
    first: Option<(Seq<char>, Seq<char>)>,
    second: Option<(Seq<char>, Seq<char>)>,
)
    requires
        first == loaded(lines, key),
        second == loaded(lines, key),
    ensures
        first == second,
{
}

/// The first line that defines a key decides its value: nothing that follows it counts.
pub proof fn law_first_match_wins(lines: Seq<Seq<char>>, key: Seq<char>, i: int)
    requires
        0 <= i < lines.len(),
        defines(lines[i], key),
        forall|j: int| 0 <= j < i ==> !defines(lines[j], key),
    ensures
        lookup(lines, key) == Some(value_of(lines[i])),
    decreases i,
{
    if i > 0 {
        let rest = lines.drop_first();
        assert(rest[i - 1] == lines[i]);
        assert forall|j: int| 0 <= j < i - 1 implies !defines(rest[j], key) by {
            assert(rest[j] == lines[j + 1]);
        }
        law_first_match_wins(rest, key, i - 1);
    }
}

/// A key that no line defines is not found.
pub proof fn law_undefined_key_is_not_found(lines: Seq<Seq<char>>, key: Seq<char>)
    requires
        forall|j: int| 0 <= j < lines.len() ==> !defines(lines[j], key),
    ensures
        lookup(lines, key) is None,
    decreases lines.len(),
{
    if lines.len() > 0 {
        let rest = lines.drop_first();
        assert forall|j: int| 0 <= j < rest.len() implies !defines(rest[j], key) by {
            assert(rest[j] == lines[j + 1]);
        }
        law_undefined_key_is_not_found(rest, key);
    }
}

} // verus!
