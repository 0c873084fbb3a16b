//! Per-pass shared state.
//!
//! One evaluation pass creates a fresh context, threads it by reference
//! through the validate and pre-action phases of every active guard, and
//! discards it at the end of the pass. It carries a cursor into the
//! caller-supplied resource list — each guard claims the next unclaimed
//! position, so independently written guards never collide — and a
//! label-to-position map that lets a guard's validate phase hand a claimed
//! position to its own pre-action phase. Labels are namespaced per guard
//! kind by convention; within one pass each label is written at most once.
use vstd::prelude::*;

use crate::errors::GuardError;
use crate::resource::Resource;

verus! {

/// The mutable state shared by all guards of one evaluation pass.
pub struct EvaluationContext {
    /// The next unclaimed position of the resource list. Only ever grows
    /// within a pass and is never reset mid-pass.
    pub account_cursor: usize,
    /// The label/position entries recorded so far, in write order; read it
    /// through `indices()`.
    pub entries: Vec<(String, usize)>,
}

/// The map a sequence of label/position entries denotes; a later entry for
/// the same label would win, though a well-formed context never holds two.
pub open spec fn entries_map(s: Seq<(String, usize)>) -> Map<Seq<char>, usize>
    decreases s.len(),
{
    if s.len() == 0 {
        Map::empty()
    } else {
        entries_map(s.drop_last()).insert(s.last().0@, s.last().1)
    }
}

/// No two entries carry the same label.
pub open spec fn labels_unique(s: Seq<(String, usize)>) -> bool {
    forall|i: int, j: int| 0 <= i < j < s.len() ==> s[i].0@ != s[j].0@
}

proof fn lemma_entries_map_covers(s: Seq<(String, usize)>)
    ensures
        forall|j: int| 0 <= j < s.len() ==> entries_map(s).contains_key(s[j].0@),
    decreases s.len(),
{
    if s.len() > 0 {
        lemma_entries_map_covers(s.drop_last());
        assert(forall|j: int|
            0 <= j < s.len() - 1 ==> s.drop_last()[j].0@ == s[j].0@);
    }
}

proof fn lemma_entries_map_value(s: Seq<(String, usize)>, j: int)
    requires
        labels_unique(s),
        0 <= j < s.len(),
    ensures
        entries_map(s).contains_key(s[j].0@),
        entries_map(s)[s[j].0@] == s[j].1,
    decreases s.len(),
{
    if j == s.len() - 1 {
    } else {
        assert(s[j].0@ != s.last().0@);
        assert(labels_unique(s.drop_last())) by {
            assert(forall|a: int, b: int|
                0 <= a < b < s.len() - 1 ==> s.drop_last()[a].0@ != s.drop_last()[b].0@);
        }
        lemma_entries_map_value(s.drop_last(), j);
    }
}

proof fn lemma_entries_map_absent(s: Seq<(String, usize)>, k: Seq<char>)
    requires
        forall|j: int| 0 <= j < s.len() ==> s[j].0@ != k,
    ensures
        !entries_map(s).contains_key(k),
    decreases s.len(),
{
    if s.len() > 0 {
        assert(forall|j: int|
            0 <= j < s.len() - 1 ==> s.drop_last()[j].0@ != k);
        lemma_entries_map_absent(s.drop_last(), k);
    }
}

impl EvaluationContext {
    /// The label-indexed positions recorded so far this pass.
    pub open spec fn indices(self) -> Map<Seq<char>, usize> {
        entries_map(self.entries@)
    }

    /// Each label was written at most once this pass.
    pub open spec fn wf(self) -> bool {
        labels_unique(self.entries@)
    }

    /// A fresh context: cursor at the head of the list, nothing recorded.
    pub fn new() -> (r: EvaluationContext)
        ensures
            r.account_cursor == 0,
            r.indices() == Map::<Seq<char>, usize>::empty(),
            r.wf(),
    {
        EvaluationContext { account_cursor: 0, entries: Vec::new() }
    }

    /// Claims the resource at the cursor and advances the cursor by one;
    /// fails with `MissingResource`, leaving the context untouched, when the
    /// caller-supplied list is shorter than the cursor demands.
    pub fn next_resource(&mut self, resources: &Vec<Resource>) -> (r: Result<
        usize,
        GuardError,
    >)
        ensures
            final(self).indices() == old(self).indices(),
            final(self).wf() == old(self).wf(),
            match r {
                Ok(idx) => idx == old(self).account_cursor && idx < resources@.len()
                    && final(self).account_cursor == idx + 1,
                Err(e) => e == GuardError::MissingResource && old(self).account_cursor
                    >= resources@.len() && *final(self) == *old(self),
            },
    {
        let idx = self.account_cursor;
        if idx >= resources.len() {
            return Err(GuardError::MissingResource);
        }
        self.account_cursor = idx + 1;
        Ok(idx)
    }

    /// Records `position` under `label` for later phases of the same pass.
    /// Each label may be written at most once per pass, by the guard that
    /// owns it.
    pub fn remember(&mut self, label: &str, position: usize)
        requires
            old(self).wf(),
            !old(self).indices().contains_key(label@),
        ensures
            final(self).wf(),
            final(self).indices() == old(self).indices().insert(label@, position),
            final(self).account_cursor == old(self).account_cursor,
    {
        proof {
            if exists|j: int|
                0 <= j < self.entries@.len() && self.entries@[j].0@ == label@ {
                let j = choose|j: int|
                    0 <= j < self.entries@.len() && self.entries@[j].0@ == label@;
                lemma_entries_map_covers(self.entries@);
                assert(self.indices().contains_key(self.entries@[j].0@));
            }
            assert(forall|j: int|
                0 <= j < self.entries@.len() ==> self.entries@[j].0@ != label@);
        }
        let ghost before = self.entries@;
        self.entries.push((label.to_owned(), position));
        proof {
            assert(self.entries@.drop_last() =~= before);
        }
    }

    /// Retrieves the position recorded under `label` this pass. A label that
    /// was never remembered is a fatal condition — it means validate did not
    /// run before pre-action, or two guards collided on a label — surfaced
    /// as `UnknownLabel`, distinct from every user-facing failure.
    pub fn recall(&self, label: &str) -> (r: Result<usize, GuardError>)
        requires
            self.wf(),
        ensures
            match r {
                Ok(p) => self.indices().contains_key(label@) && p == self.indices()[label@],
                Err(e) => e == GuardError::UnknownLabel && !self.indices().contains_key(
                    label@,
                ),
            },
    {
        let key: String = label.to_owned();
        let n = self.entries.len();
        let mut i: usize = 0;
        while i < n
            invariant
                i <= n,
                n == self.entries@.len(),
                key@ == label@,
                self.wf(),
                forall|j: int| 0 <= j < i ==> self.entries@[j].0@ != label@,
            decreases n - i,
        {
            if self.entries[i].0 == key {
                proof {
                    lemma_entries_map_value(self.entries@, i as int);
                }
                return Ok(self.entries[i].1);
            }
            i += 1;
        }
        proof {
            lemma_entries_map_absent(self.entries@, label@);
        }
        Err(GuardError::UnknownLabel)
    }
}

} // verus!
