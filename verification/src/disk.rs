//! The answers that a look at the disk gives.
//!
//! Four kinds of question are about nothing but a path: whether it is a file, whether it
//! is a directory, whether it exists, and what it resolves to. This module answers them.
//! What the answers are depends on the disk and on the moment; what is proved is that
//! each question gets an answer of the kind that its topic calls for.

use crate::facts::{fits, Answer, Facts, Query, Topic};
use vstd::prelude::*;

verus! {

/// `std::path::Path::is_file`: whether the path leads to a regular file. Nothing is
/// claimed of the answer: it depends on what is on the disk.
#[verifier::external_body]
pub(crate) fn probe_is_file(path: &str) -> (r: bool) {
    std::path::Path::new(path).is_file()
}

/// `std::path::Path::is_dir`: whether the path leads to a directory. Nothing is claimed
/// of the answer: it depends on what is on the disk.
#[verifier::external_body]
pub(crate) fn probe_is_dir(path: &str) -> (r: bool) {
    std::path::Path::new(path).is_dir()
}

/// `std::path::Path::exists`: whether the path leads to anything. Nothing is claimed of
/// the answer: it depends on what is on the disk.
#[verifier::external_body]
pub(crate) fn probe_exists(path: &str) -> (r: bool) {
    std::path::Path::new(path).exists()
}

/// `dunce::canonicalize`: the path with its links and relative parts resolved, in the
/// form that most programs understand; `None` where the path cannot be resolved. Nothing
/// is claimed of the answer: it depends on what is on the disk.
#[verifier::external_body]
pub(crate) fn probe_canonical(path: &str) -> (r: Option<String>) {
    match dunce::canonicalize(path) {
        Ok(resolved) => Some(resolved.to_string_lossy().into_owned()),
        Err(_) => None,
    }
}

/// Whether a look at the disk answers the questions of a topic.
pub open spec fn is_disk_topic(topic: Topic) -> bool {
    topic == Topic::IsFile || topic == Topic::IsDir || topic == Topic::Exists || topic
        == Topic::Canonical
}

/// Answers a question about a path by a look at the disk. A question of another topic
/// gets no answer here.
pub fn answer_from_disk(query: &Query) -> (r: Option<Answer>)
    ensures
        r is Some == is_disk_topic(query.topic),
        r matches Some(a) ==> fits(query.topic, a@),
{
    let path = query.subject.as_str();
    match query.topic {
        Topic::IsFile => Some(Answer::Flag(probe_is_file(path))),
        Topic::IsDir => Some(Answer::Flag(probe_is_dir(path))),
        Topic::Exists => Some(Answer::Flag(probe_exists(path))),
        Topic::Canonical => Some(Answer::Text(probe_canonical(path))),
        _ => None,
    }
}

/// Puts the answer to a question about a path into the table and hands nothing back; a
/// question of another topic is handed back and the table stays as it is. A question that
/// had no answer in the table has a usable one afterwards.
pub fn learn_from_disk(facts: &mut Facts, query: Query) -> (r: Option<Query>)
    ensures
        r is None == is_disk_topic(query.topic),
        r matches Some(q) ==> q@ == query@ && final(facts)@ == old(facts)@,
        r is None && !old(facts)@.answers.contains_key(query@) ==> final(facts)@.usable(query@),
        r is None && old(facts)@.answers.contains_key(query@) ==> final(facts)@ == old(facts)@,
{
    match answer_from_disk(&query) {
        Some(answer) => {
            facts.record(query, answer);
            None
        },
        None => Some(query),
    }
}

} // verus!
