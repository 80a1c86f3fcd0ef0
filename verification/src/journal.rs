//! The account that the launcher gives of what it tried and what it found.
//!
//! Nothing is printed by the library. Each function notes what it did in a [`Journal`];
//! the caller decides where the notes go.

use crate::facts::{Query, QueryView};
use crate::text::joined;
use vstd::prelude::*;
use vstd::string::*;

verus! {

/// How much a note matters.
#[derive(Clone, Copy, PartialEq, Eq, Debug, Structural)]
pub enum Level {
    /// Always shown: something the user has to act on.
    Important,
    /// Normally shown.
    Info,
    /// Shown only when the launcher runs verbosely.
    Debug,
}

/// One note.
#[derive(Debug)]
pub struct Note {
    pub level: Level,
    pub text: String,
}

/// A note as contracts speak of it.
pub type NoteView = (Level, Seq<char>);

impl View for Note {
    type V = NoteView;

    open spec fn view(&self) -> NoteView {
        (self.level, self.text@)
    }
}

/// The notes in the order in which they were made.
#[derive(Debug)]
pub struct Journal {
    pub notes: Vec<Note>,
}

impl View for Journal {
    type V = Seq<NoteView>;

    open spec fn view(&self) -> Seq<NoteView> {
        Seq::new(self.notes@.len(), |i: int| self.notes@[i]@)
    }
}

/// The texts of a sequence of notes.
pub open spec fn texts(notes: Seq<NoteView>) -> Seq<Seq<char>> {
    Seq::new(notes.len(), |i: int| notes[i].1)
}

/// What a function that consults the facts and keeps a journal comes to: a value and the
/// journal as it stands afterwards, or the question that has no answer yet.
pub type Outcome<V> = Result<(V, Seq<NoteView>), QueryView>;

/// Whether `after` is `before` with notes added at its end.
pub open spec fn extends(after: Seq<NoteView>, before: Seq<NoteView>) -> bool {
    before.len() <= after.len() && forall|i: int|
        0 <= i < before.len() ==> #[trigger] after[i] == before[i]
}

/// Whether a result and the journal after the call are what `expected` says. Notes are
/// only ever added. Where the function stopped at a question, the journal is an unfinished
/// account: the journal as it was before the call, with the notes that were made until
/// the question came up.
pub open spec fn settled<T: DeepView>(
    r: Result<T, Query>,
    before: Seq<NoteView>,
    journal: Seq<NoteView>,
    expected: Outcome<T::V>,
) -> bool {
    &&& extends(journal, before)
    &&& match expected {
        Ok((v, notes)) => r matches Ok(t) && t.deep_view() == v && journal == notes,
        Err(q) => r matches Err(e) && e@ == q,
    }
}

/// `a` followed by `b`.
pub fn glue(a: &str, b: &str) -> (r: String)
    ensures
        r@ == a@ + b@,
{
    String::from_str(a).concat(b)
}

/// `a`, `b` and `c` one after another.
pub fn glue3(a: &str, b: &str, c: &str) -> (r: String)
    ensures
        r@ == a@ + b@ + c@,
{
    String::from_str(a).concat(b).concat(c)
}

/// Writes `parts` one after another with `sep` between neighbours.
pub fn join(parts: &Vec<String>, sep: &str) -> (r: String)
    ensures
        r@ == joined(parts.deep_view(), sep@),
{
    let mut r = String::new();
    let mut i: usize = 0;
    assert(parts.deep_view().subrange(0, 0) =~= Seq::<Seq<char>>::empty());
    while i < parts.len()
        invariant
            i <= parts.len(),
            r@ == joined(parts.deep_view().subrange(0, i as int), sep@),
        decreases parts.len() - i,
    {
        proof {
            let before = parts.deep_view().subrange(0, i as int);
            let now = parts.deep_view().subrange(0, i + 1);
            assert(now.drop_last() =~= before);
            assert(now.last() == parts@[i as int]@);
            if i == 0 {
                assert(r@ + parts@[i as int]@ =~= parts@[i as int]@);
            }
        }
        if i > 0 {
            r.append(sep);
        }
        r.append(parts[i].as_str());
        i += 1;
    }
    assert(parts.deep_view().subrange(0, parts.len() as int) =~= parts.deep_view());
    r
}

impl Journal {
    /// A journal without notes.
    pub fn new() -> (j: Journal)
        ensures
            j@ == Seq::<NoteView>::empty(),
    {
        let j = Journal { notes: Vec::new() };
        assert(j@ =~= Seq::<NoteView>::empty());
        j
    }

    /// Adds a note.
    pub fn note(&mut self, level: Level, s: &str)
        ensures
            final(self)@ == old(self)@.push((level, s@)),
    {
        let ghost before = self@;
        self.notes.push(Note { level, text: String::from_str(s) });
        assert(self@ =~= before.push((level, s@)));
    }

    /// Notes something that is of interest only to someone who debugs the launcher.
    pub fn log(&mut self, s: &str)
        ensures
            final(self)@ == old(self)@.push((Level::Debug, s@)),
    {
        self.note(Level::Debug, s)
    }

    /// Notes something the user should normally see.
    pub fn info(&mut self, s: &str)
        ensures
            final(self)@ == old(self)@.push((Level::Info, s@)),
    {
        self.note(Level::Info, s)
    }

    /// Notes something the user has to see.
    pub fn important(&mut self, s: &str)
        ensures
            final(self)@ == old(self)@.push((Level::Important, s@)),
    {
        self.note(Level::Important, s)
    }

    /// Number of notes.
    pub fn len(&self) -> (n: usize)
        ensures
            n == self@.len(),
    {
        self.notes.len()
    }

    /// All notes on one line, each parted from the next by `"; "`.
    pub fn get_log(&self) -> (r: String)
        ensures
            r@ == joined(texts(self@), "; "@),
    {
        let mut all: Vec<String> = Vec::new();
        let mut i: usize = 0;
        while i < self.notes.len()
            invariant
                i <= self.notes@.len(),
                all@.len() == i,
                forall|j: int| 0 <= j < i ==> all@[j]@ == self.notes@[j].text@,
            decreases self.notes@.len() - i,
        {
            all.push(self.notes[i].text.clone());
            i += 1;
        }
        assert(all.deep_view() =~= texts(self@));
        join(&all, "; ")
    }
}

} // verus!
