//! What the launcher has learned about the machine it runs on.
//!
//! The decisions of the launcher never touch the machine. Whatever a function needs to
//! know about it (a variable of the environment, whether a path is a file, the lines of a
//! file) it looks up in a table of [`Facts`]. When the table has no answer, the function
//! stops and hands back the [`Query`] it could not answer. The caller finds the answer,
//! records it and calls again. Every such function is therefore a function of its
//! arguments and of the table alone.

use crate::text::str_eq;
use vstd::prelude::*;
use vstd::string::*;

verus! {

/// The kinds of question that can be put to the machine.
#[derive(Clone, Copy, PartialEq, Eq, Debug, Structural)]
pub enum Topic {
    /// Value of the environment variable named by the subject; answered by a text.
    EnvVar,
    /// Path of the running executable (the subject is empty); answered by a text.
    CurrentProgram,
    /// Whether the subject is a regular file; answered by a flag.
    IsFile,
    /// Whether the subject is a directory; answered by a flag.
    IsDir,
    /// Whether the subject exists at all; answered by a flag.
    Exists,
    /// The subject with links and relative parts resolved; answered by a text.
    Canonical,
    /// The lines of the regular file named by the subject; answered by lines.
    FileLines,
    /// The directories of the executable search path (the subject is empty); answered by lines.
    SearchPath,
    /// Name of the last subkey of the registry key named by the subject; answered by a text.
    RegistryLastSubkey,
    /// The Java home recorded under the registry key named by the subject; answered by a text.
    RegistryJavaHome,
    /// What the `java` of the runtime in the subject prints for `-version`; answered by lines.
    JavaVersion,
}

/// A question: a topic and what it is asked about.
#[derive(Debug)]
pub struct Query {
    pub topic: Topic,
    pub subject: String,
}

/// A question as contracts speak of it.
pub type QueryView = (Topic, Seq<char>);

impl View for Query {
    type V = QueryView;

    open spec fn view(&self) -> QueryView {
        (self.topic, self.subject@)
    }
}

impl DeepView for Query {
    type V = QueryView;

    open spec fn deep_view(&self) -> QueryView {
        self@
    }
}

impl Clone for Query {
    fn clone(&self) -> (r: Query)
        ensures
            r@ == self@,
    {
        Query { topic: self.topic, subject: self.subject.clone() }
    }
}

impl PartialEq for Query {
    fn eq(&self, other: &Query) -> (r: bool) {
        self.topic == other.topic && str_eq(self.subject.as_str(), other.subject.as_str())
    }
}

impl vstd::std_specs::cmp::PartialEqSpecImpl for Query {
    open spec fn obeys_eq_spec() -> bool {
        true
    }

    open spec fn eq_spec(&self, other: &Query) -> bool {
        self@ == other@
    }
}

impl Query {
    /// The question about `subject` under `topic`.
    pub fn new(topic: Topic, subject: &str) -> (q: Query)
        ensures
            q@ == (topic, subject@),
    {
        Query { topic, subject: String::from_str(subject) }
    }
}

/// An answer: a flag, a text that may be missing, or lines that may be missing.
#[derive(Debug)]
pub enum Answer {
    Flag(bool),
    Text(Option<String>),
    Lines(Option<Vec<String>>),
}

/// An answer as contracts speak of it.
pub enum AnswerView {
    Flag(bool),
    Text(Option<Seq<char>>),
    Lines(Option<Seq<Seq<char>>>),
}

impl View for Answer {
    type V = AnswerView;

    open spec fn view(&self) -> AnswerView {
        match self {
            Answer::Flag(b) => AnswerView::Flag(*b),
            Answer::Text(t) => AnswerView::Text(t.deep_view()),
            Answer::Lines(l) => AnswerView::Lines(l.deep_view()),
        }
    }
}

/// A question with its answer.
#[derive(Debug)]
pub struct Fact {
    pub query: Query,
    pub answer: Answer,
}

impl View for Fact {
    type V = (QueryView, AnswerView);

    open spec fn view(&self) -> (QueryView, AnswerView) {
        (self.query@, self.answer@)
    }
}

/// The answer that a list of facts gives to `q`: that of the first fact about `q`.
pub open spec fn first_answer(known: Seq<(QueryView, AnswerView)>, q: QueryView) -> Option<
    AnswerView,
>
    decreases known.len(),
{
    if known.len() == 0 {
        None
    } else if known[0].0 == q {
        Some(known[0].1)
    } else {
        first_answer(known.drop_first(), q)
    }
}

/// Whether an answer is of the kind that a topic calls for: a flag where the topic asks
/// whether, lines where it asks for lines, a text where it asks for a text, and a text
/// that is there where it asks for the running program.
pub open spec fn fits(topic: Topic, answer: AnswerView) -> bool {
    match topic {
        Topic::IsFile | Topic::IsDir | Topic::Exists => answer is Flag,
        Topic::EnvVar
        | Topic::Canonical
        | Topic::RegistryLastSubkey
        | Topic::RegistryJavaHome => answer is Text,
        Topic::CurrentProgram => answer matches AnswerView::Text(Some(_)),
        Topic::FileLines | Topic::SearchPath | Topic::JavaVersion => answer is Lines,
    }
}

/// What is known: the questions that have an answer, each with its answer.
pub struct Knowledge {
    pub answers: Map<QueryView, AnswerView>,
}

/// What a list of facts makes known.
pub open spec fn knowledge_of(known: Seq<(QueryView, AnswerView)>) -> Knowledge {
    Knowledge {
        answers: Map::new(
            |q: QueryView| first_answer(known, q) is Some,
            |q: QueryView| first_answer(known, q)->0,
        ),
    }
}

impl Knowledge {
    /// The recorded answer to `q`, if there is one.
    pub open spec fn answer(self, q: QueryView) -> Option<AnswerView> {
        if self.answers.contains_key(q) {
            Some(self.answers[q])
        } else {
            None
        }
    }

    /// Whether the table holds an answer to `q` that the library can use: an answer of the
    /// kind that the topic calls for.
    pub open spec fn usable(self, q: QueryView) -> bool {
        match self.answer(q) {
            Some(a) => fits(q.0, a),
            None => false,
        }
    }

    /// Whether the table has a usable answer to every question.
    pub open spec fn complete(self) -> bool {
        forall|q: QueryView| #[trigger] self.usable(q)
    }

    /// Whether `other` knows all that `self` knows, with the same answers.
    pub open spec fn within(self, other: Knowledge) -> bool {
        self.answers.submap_of(other.answers)
    }

    /// The flag recorded for `q`, or the question itself when no flag is recorded.
    pub open spec fn flag(self, topic: Topic, subject: Seq<char>) -> Result<bool, QueryView> {
        match self.answer((topic, subject)) {
            Some(AnswerView::Flag(b)) => Ok(b),
            _ => Err((topic, subject)),
        }
    }

    /// The text recorded for `q`, or the question itself when no text is recorded.
    pub open spec fn text(self, topic: Topic, subject: Seq<char>) -> Result<
        Option<Seq<char>>,
        QueryView,
    > {
        match self.answer((topic, subject)) {
            Some(AnswerView::Text(t)) => Ok(t),
            _ => Err((topic, subject)),
        }
    }

    /// The lines recorded for `q`, or the question itself when no lines are recorded.
    pub open spec fn lines(self, topic: Topic, subject: Seq<char>) -> Result<
        Option<Seq<Seq<char>>>,
        QueryView,
    > {
        match self.answer((topic, subject)) {
            Some(AnswerView::Lines(l)) => Ok(l),
            _ => Err((topic, subject)),
        }
    }

}

/// Whether a function asked only for what is missing: whether its result is there, or
/// else names a question to which the table has no usable answer.
pub open spec fn asks_what_is_missing<T>(r: Result<T, QueryView>, k: Knowledge) -> bool {
    r matches Err(q) ==> !k.usable(q)
}

/// With every question answered, a function that asks only for what is missing has its
/// result.
pub proof fn lemma_complete_knowledge_suffices<T>(r: Result<T, QueryView>, k: Knowledge)
    requires
        asks_what_is_missing(r, k),
        k.complete(),
    ensures
        r is Ok,
{
    if r is Err {
        assert(k.usable(r->Err_0));
    }
}

/// Whether a result stays: whether `after` is the same as `before`, provided that `before`
/// is a result and not a question.
pub open spec fn stays<T>(before: Result<T, QueryView>, after: Result<T, QueryView>) -> bool {
    before is Ok ==> after == before
}

/// What a table says stays when the table learns more.
pub proof fn lemma_answers_stay(k: Knowledge, more: Knowledge, topic: Topic, subject: Seq<char>)
    requires
        k.within(more),
    ensures
        stays(k.flag(topic, subject), more.flag(topic, subject)),
        stays(k.text(topic, subject), more.text(topic, subject)),
        stays(k.lines(topic, subject), more.lines(topic, subject)),
{
    if k.answers.contains_key((topic, subject)) {
        assert(more.answers.contains_key((topic, subject)));
    }
}

/// An answer that fits its question settles it: once it is in the table, the question
/// has a usable answer. So a function that asks only for what is missing never asks the
/// same question twice.
pub proof fn law_fitting_answer_settles_the_question(
    k: Knowledge,
    q: QueryView,
    answer: AnswerView,
)
    requires
        !k.answers.contains_key(q),
        fits(q.0, answer),
    ensures
        (Knowledge { answers: k.answers.insert(q, answer) }).usable(q),
{
}

/// What a function that consults the facts returns, as contracts speak of it.
pub open spec fn seen<T: DeepView>(r: Result<T, Query>) -> Result<T::V, QueryView> {
    match r {
        Ok(t) => Ok(t.deep_view()),
        Err(q) => Err(q@),
    }
}

/// The table of facts.
#[derive(Debug)]
pub struct Facts {
    pub known: Vec<Fact>,
}

impl View for Facts {
    type V = Knowledge;

    open spec fn view(&self) -> Knowledge {
        knowledge_of(self.listed())
    }
}

/// A copy of a vector of strings.
pub fn copy_lines(lines: &Vec<String>) -> (r: Vec<String>)
    ensures
        r.deep_view() == lines.deep_view(),
{
    let mut r: Vec<String> = Vec::new();
    let mut i: usize = 0;
    while i < lines.len()
        invariant
            i <= lines.len(),
            r@.len() == i,
            forall|j: int| 0 <= j < i ==> r@[j]@ == lines@[j]@,
        decreases lines.len() - i,
    {
        r.push(lines[i].clone());
        i += 1;
    }
    assert(r.deep_view() =~= lines.deep_view());
    r
}

impl Facts {
    /// The facts in the order in which they were recorded.
    pub open spec fn listed(&self) -> Seq<(QueryView, AnswerView)> {
        Seq::new(self.known@.len(), |i: int| self.known@[i]@)
    }

    /// A table that knows nothing.
    pub fn new() -> (f: Facts)
        ensures
            f@.answers == Map::<QueryView, AnswerView>::empty(),
    {
        let f = Facts { known: Vec::new() };
        assert(f@.answers =~= Map::<QueryView, AnswerView>::empty());
        f
    }

    /// Adds a fact. An answer that is already there stays: the first answer counts.
    pub fn record(&mut self, query: Query, answer: Answer)
        ensures
            final(self)@.answers == if old(self)@.answers.contains_key(query@) {
                old(self)@.answers
            } else {
                old(self)@.answers.insert(query@, answer@)
            },
    {
        let ghost before = self.listed();
        self.known.push(Fact { query, answer });
        proof {
            let after = self.listed();
            assert(after =~= before.push((query@, answer@)));
            assert forall|q: QueryView|
                first_answer(after, q) == if first_answer(before, q) is Some {
                    first_answer(before, q)
                } else if q == query@ {
                    Some(answer@)
                } else {
                    None
                } by {
                lemma_push_answers(before, (query@, answer@), q);
            }
            if first_answer(before, query@) is Some {
                assert(knowledge_of(after).answers =~= knowledge_of(before).answers);
            } else {
                assert(knowledge_of(after).answers =~= knowledge_of(before).answers.insert(
                    query@,
                    answer@,
                ));
            }
        }
    }

    /// Position of the first fact about the question, or the number of facts.
    fn position(&self, topic: Topic, subject: &str) -> (i: usize)
        ensures
            i <= self.known@.len(),
            i < self.known@.len() ==> self.known@[i as int].query@ == (topic, subject@)
                && self@.answer((topic, subject@)) == Some(self.known@[i as int].answer@),
            i == self.known@.len() ==> self@.answer((topic, subject@)) is None,
    {
        let mut i: usize = 0;
        assert(self.listed().subrange(0, self.known@.len() as int) =~= self.listed());
        while i < self.known.len()
            invariant
                i <= self.known@.len(),
                self@.answer((topic, subject@)) == first_answer(
                    self.listed().subrange(i as int, self.known@.len() as int),
                    (topic, subject@),
                ),
            decreases self.known@.len() - i,
        {
            proof {
                let rest = self.listed().subrange(i as int, self.known@.len() as int);
                assert(rest[0] == self.known@[i as int]@);
                assert(rest.drop_first() =~= self.listed().subrange(
                    i + 1,
                    self.known@.len() as int,
                ));
            }
            let fact = &self.known[i];
            if fact.query.topic == topic && str_eq(fact.query.subject.as_str(), subject) {
                return i;
            }
            i += 1;
        }
        i
    }

    /// Whether the question has an answer of any kind.
    pub fn knows(&self, query: &Query) -> (r: bool)
        ensures
            r == self@.answer(query@).is_some(),
    {
        self.position(query.topic, query.subject.as_str()) < self.known.len()
    }

    /// The flag recorded for the question; the question itself where none is recorded.
    pub fn flag(&self, topic: Topic, subject: &str) -> (r: Result<bool, Query>)
        ensures
            seen(r) == self@.flag(topic, subject@),
    {
        let i: usize = self.position(topic, subject);
        if i < self.known.len() {
            match &self.known[i].answer {
                Answer::Flag(b) => {
                    return Ok(*b);
                },
                _ => {},
            }
        }
        Err(Query::new(topic, subject))
    }

    /// The text recorded for the question; the question itself where none is recorded.
    pub fn text(&self, topic: Topic, subject: &str) -> (r: Result<Option<String>, Query>)
        ensures
            seen(r) == self@.text(topic, subject@),
    {
        let i: usize = self.position(topic, subject);
        if i < self.known.len() {
            match &self.known[i].answer {
                Answer::Text(t) => {
                    return Ok(
                        match t {
                            Some(s) => Some(s.clone()),
                            None => None,
                        },
                    );
                },
                _ => {},
            }
        }
        Err(Query::new(topic, subject))
    }

    /// The lines recorded for the question; the question itself where none are recorded.
    pub fn lines(&self, topic: Topic, subject: &str) -> (r: Result<Option<Vec<String>>, Query>)
        ensures
            seen(r) == self@.lines(topic, subject@),
    {
        let i: usize = self.position(topic, subject);
        if i < self.known.len() {
            match &self.known[i].answer {
                Answer::Lines(l) => {
                    return Ok(
                        match l {
                            Some(v) => Some(copy_lines(v)),
                            None => None,
                        },
                    );
                },
                _ => {},
            }
        }
        Err(Query::new(topic, subject))
    }
}

/// A fact added at the end changes no answer that was there, and answers its own question
/// where there was no answer.
pub proof fn lemma_push_answers(
    known: Seq<(QueryView, AnswerView)>,
    fact: (QueryView, AnswerView),
    q: QueryView,
)
    ensures
        first_answer(known.push(fact), q) == if first_answer(known, q) is Some {
            first_answer(known, q)
        } else if q == fact.0 {
            Some(fact.1)
        } else {
            None
        },
    decreases known.len(),
{
    if known.len() > 0 {
        assert(known.push(fact).drop_first() =~= known.drop_first().push(fact));
        if known[0].0 != q {
            lemma_push_answers(known.drop_first(), fact, q);
        }
    } else {
        assert(known.push(fact).drop_first() =~= known);
    }
}

} // verus!
