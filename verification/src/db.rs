//! The challenge store: a single table of challenge rows.
//!
//! The store assigns each inserted row a fresh, monotonically increasing
//! identifier — the row at position `i` holds id `i + 1`, as an auto-assigned
//! integer primary key numbers rows that are only ever inserted. Rows are
//! never updated or deleted; lookups match the stored flag exactly,
//! case-sensitive and untrimmed.
//!
//! The surrounding binary owns one store for the process lifetime and guards
//! it with a mutual-exclusion lock held for the span of a single operation;
//! a failure to acquire that lock surfaces as [`DbError::PoisonedLock`]. The
//! store itself, on values it holds, cannot fail: every operation here states
//! that it returns `Ok`.

use vstd::prelude::*;

use crate::db::models::Challenge;
use crate::db::models::flag_index;
use crate::text::str_eq;

pub mod models;

verus! {

/// A storage failure, surfaced to handlers as their storage error kind.
#[derive(Debug, Clone, Copy, PartialEq, Eq, Structural)]
pub enum DbError {
    /// The backing store failed or refused an operation.
    Storage,
    /// The store's mutual-exclusion lock was poisoned by an earlier panic
    /// while held; the store is not silently recreated.
    PoisonedLock,
}

/// The challenge table. Its abstract value is the sequence of rows in
/// insertion order.
pub struct Database {
    challenges: Vec<Challenge>,
}

impl View for Database {
    type V = Seq<Challenge>;

    closed spec fn view(&self) -> Seq<Challenge> {
        self.challenges@
    }
}

impl Database {
    /// Well-formedness: the row at position `i` holds id `i + 1`. Ids are
    /// therefore unique, immutable after creation, and increase by one with
    /// each insertion.
    pub open spec fn wf(&self) -> bool {
        forall|i: int| 0 <= i < self@.len() ==> #[trigger] self@[i].id as int == i + 1
    }

    /// Room for one more row: the next id must fit in the id type.
    pub open spec fn can_insert(&self) -> bool {
        self@.len() < 0x7fff_ffff_ffff_ffff
    }

    /// Creates an empty store.
    pub fn new() -> (r: Database)
        ensures
            r@ =~= Seq::<Challenge>::empty(),
            r.wf(),
    {
        Database { challenges: Vec::new() }
    }

    /// True iff the store can take one more row: what a caller outside the
    /// proofs tests before asking for an insertion.
    pub fn has_room(&self) -> (r: bool)
        ensures
            r == self.can_insert(),
    {
        (self.challenges.len() as u64) < 0x7fff_ffff_ffff_ffff
    }

    /// Appends a row holding the given name and flag, assigning the next id.
    /// Every row already present keeps its position and value.
    pub(crate) fn insert(&mut self, name: &str, flag: &str) -> (id: i64)
        requires
            old(self).wf(),
            old(self).can_insert(),
        ensures
            final(self).wf(),
            id as int == old(self)@.len() + 1,
            final(self)@.len() == old(self)@.len() + 1,
            forall|i: int|
                0 <= i < old(self)@.len() ==> final(self)@[i] == old(self)@[i],
            final(self)@.last().id == id,
            final(self)@.last().name@ == name@,
            final(self)@.last().flag@ == flag@,
    {
        let id: i64 = (self.challenges.len() as i64) + 1;
        let row = Challenge { id, name: name.to_owned(), flag: flag.to_owned() };
        self.challenges.push(row);
        id
    }

    /// Returns a copy of the first row whose flag equals `flag` exactly, or
    /// `None` when no row matches.
    pub(crate) fn lookup(&self, flag: &str) -> (r: Option<Challenge>)
        ensures
            match flag_index(self@, flag@) {
                Some(i) => r matches Some(c) && c.id == self@[i].id && c.name@ == self@[i].name@
                    && c.flag@ == self@[i].flag@,
                None => r is None,
            },
    {
        proof {
            models::lemma_flag_index(self@, flag@);
        }
        let mut i: usize = 0;
        while i < self.challenges.len()
            invariant
                i <= self.challenges.len(),
                forall|j: int| 0 <= j < i ==> self@[j].flag@ != flag@,
            decreases self.challenges.len() - i,
        {
            if str_eq(self.challenges[i].flag.as_str(), flag) {
                proof {
                    models::lemma_flag_index(self@, flag@);
                    assert(self@[i as int].flag@ == flag@);
                }
                let c = &self.challenges[i];
                return Some(Challenge { id: c.id, name: c.name.clone(), flag: c.flag.clone() });
            }
            i = i + 1;
        }
        None
    }

    /// Looks a flag up and returns the matching challenge's name, or `None`
    /// when no row holds exactly that flag. Never an error on a miss: a miss
    /// is an answer, not a failure.
    pub fn check_flag(&self, flag: &str) -> (r: Result<Option<String>, DbError>)
        ensures
            match flag_index(self@, flag@) {
                Some(i) => r matches Ok(Some(name)) && name@ == self@[i].name@,
                None => r matches Ok(None),
            },
    {
        match self.lookup(flag) {
            Some(c) => Ok(Some(c.name)),
            None => Ok(None),
        }
    }

    /// Inserts a challenge row without reporting the assigned id.
    pub fn add_challenge(&mut self, name: &str, flag: &str) -> (r: Result<(), DbError>)
        requires
            old(self).wf(),
            old(self).can_insert(),
        ensures
            final(self).wf(),
            r is Ok,
            final(self)@.len() == old(self)@.len() + 1,
            forall|i: int|
                0 <= i < old(self)@.len() ==> final(self)@[i] == old(self)@[i],
            final(self)@.last().id as int == old(self)@.len() + 1,
            final(self)@.last().name@ == name@,
            final(self)@.last().flag@ == flag@,
    {
        let _ = self.insert(name, flag);
        Ok(())
    }
}

} // verus!
