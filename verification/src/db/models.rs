//! The challenge row, its lookup semantics, and the laws the store obeys.

use vstd::prelude::*;

use super::Database;
use super::DbError;

verus! {

/// One registered challenge: a store-assigned identifier, a display name,
/// and the secret flag that submissions are compared against verbatim.
pub struct Challenge {
    pub id: i64,
    pub name: String,
    pub flag: String,
}

/// The index of the first row whose flag equals `flag` exactly, if any: the
/// row a lookup returns. An earlier row shadows a later one with the same
/// flag, since the schema does not enforce flag uniqueness.
pub open spec fn flag_index(rows: Seq<Challenge>, flag: Seq<char>) -> Option<int>
    decreases rows.len(),
{
    if rows.len() == 0 {
        None
    } else if rows[0].flag@ == flag {
        Some(0int)
    } else {
        match flag_index(rows.drop_first(), flag) {
            Some(i) => Some(i + 1),
            None => None,
        }
    }
}

/// `flag_index` finds exactly the first match: a returned index is in range,
/// its row's flag is `flag`, no earlier row's flag is; and `None` means no
/// row at all matches.
pub proof fn lemma_flag_index(rows: Seq<Challenge>, flag: Seq<char>)
    ensures
        match flag_index(rows, flag) {
            Some(i) => 0 <= i < rows.len() && rows[i].flag@ == flag && forall|j: int|
                0 <= j < i ==> #[trigger] rows[j].flag@ != flag,
            None => forall|j: int| 0 <= j < rows.len() ==> #[trigger] rows[j].flag@ != flag,
        },
    decreases rows.len(),
{
    if rows.len() == 0 {
    } else if rows[0].flag@ == flag {
    } else {
        let rest = rows.drop_first();
        lemma_flag_index(rest, flag);
        match flag_index(rest, flag) {
            Some(i) => {
                assert(rows[i + 1] == rest[i]);
                assert forall|j: int| 0 <= j < i + 1 implies #[trigger] rows[j].flag@ != flag by {
                    if j > 0 {
                        assert(rows[j] == rest[j - 1]);
                        assert(rest[j - 1].flag@ != flag);
                    }
                }
            },
            None => {
                assert forall|j: int|
                    0 <= j < rows.len() implies #[trigger] rows[j].flag@ != flag by {
                    if j > 0 {
                        assert(rows[j] == rest[j - 1]);
                        assert(rest[j - 1].flag@ != flag);
                    }
                }
            },
        }
    }
}

/// True iff some row holds the given id.
pub open spec fn contains_id(rows: Seq<Challenge>, id: i64) -> bool {
    exists|i: int| 0 <= i < rows.len() && #[trigger] rows[i].id == id
}

impl Challenge {
    /// Inserts a new challenge row and returns the id the store assigned to
    /// it: one past the previous row count, so no two insertions — however
    /// interleaved their callers, since each holds the store exclusively for
    /// the whole operation — ever return the same id. Every row already
    /// present keeps its position and value.
    pub fn create_challenge(db: &mut Database, name: &str, flag: &str) -> (r: Result<
        i64,
        DbError,
    >)
        requires
            old(db).wf(),
            old(db).can_insert(),
        ensures
            final(db).wf(),
            r matches Ok(id) && id as int == old(db)@.len() + 1,
            final(db)@.len() == old(db)@.len() + 1,
            forall|i: int| 0 <= i < old(db)@.len() ==> final(db)@[i] == old(db)@[i],
            final(db)@.last().id as int == old(db)@.len() + 1,
            final(db)@.last().name@ == name@,
            final(db)@.last().flag@ == flag@,
    {
        Ok(db.insert(name, flag))
    }

    /// Fetches a copy of the first row whose flag equals `flag` exactly, or
    /// `Ok(None)` when no row matches — a miss is an answer, not an error.
    pub fn get_by_flag(db: &Database, flag: &str) -> (r: Result<Option<Challenge>, DbError>)
        ensures
            match flag_index(db@, flag@) {
                Some(i) => r matches Ok(Some(c)) && c.id == db@[i].id && c.name@ == db@[i].name@
                    && c.flag@ == db@[i].flag@,
                None => r matches Ok(None),
            },
    {
        Ok(db.lookup(flag))
    }
}

/// Law: in a well-formed store, distinct rows hold distinct ids; two
/// insertions can never have produced the same id.
pub proof fn lemma_ids_unique(db: &Database)
    requires
        db.wf(),
    ensures
        forall|i: int, j: int|
            0 <= i < db@.len() && 0 <= j < db@.len() && i != j ==> #[trigger] db@[i].id
                != #[trigger] db@[j].id,
{
}

/// Law: the id the next insertion will assign differs from every id already
/// in a well-formed store.
pub proof fn lemma_fresh_id(db: &Database)
    requires
        db.wf(),
    ensures
        forall|i: int| 0 <= i < db@.len() ==> #[trigger] db@[i].id as int != db@.len() + 1,
{
}

/// Law: an id, once present, survives any later insertion — an insertion
/// appends and touches no existing row.
pub proof fn lemma_insert_keeps_ids(rows: Seq<Challenge>, c: Challenge, id: i64)
    requires
        contains_id(rows, id),
    ensures
        contains_id(rows.push(c), id),
{
    let i = choose|i: int| 0 <= i < rows.len() && #[trigger] rows[i].id == id;
    assert(rows.push(c)[i].id == id);
}

/// Law: a flag that already resolves to a row keeps resolving to that same
/// row — same position, so same id, name and flag — however many rows are
/// appended after it.
pub proof fn lemma_lookup_stable_under_insert(rows: Seq<Challenge>, c: Challenge, flag: Seq<char>)
    requires
        flag_index(rows, flag) is Some,
    ensures
        flag_index(rows.push(c), flag) == flag_index(rows, flag),
{
    let i = flag_index(rows, flag).unwrap();
    lemma_flag_index(rows, flag);
    lemma_flag_index(rows.push(c), flag);
    assert(rows.push(c)[i] == rows[i]);
    match flag_index(rows.push(c), flag) {
        None => {
            assert(false);
        },
        Some(k) => {
            if k < i {
                assert(rows.push(c)[k] == rows[k]);
                assert(false);
            }
            if k > i {
                assert(false);
            }
        },
    }
}

/// Law: after a row is appended, looking its flag up succeeds; the found row
/// holds exactly that flag; and when no earlier row held the same flag, the
/// found row is the appended one itself — same id, name, and flag.
pub proof fn lemma_insert_then_lookup(rows: Seq<Challenge>, c: Challenge)
    ensures
        flag_index(rows.push(c), c.flag@) is Some,
        ({
            let i = flag_index(rows.push(c), c.flag@).unwrap();
            0 <= i < rows.push(c).len() && rows.push(c)[i].flag@ == c.flag@
        }),
        flag_index(rows, c.flag@) is None ==> flag_index(rows.push(c), c.flag@) == Some(
            rows.len() as int,
        ) && rows.push(c)[rows.len() as int] == c,
{
    lemma_flag_index(rows.push(c), c.flag@);
    lemma_flag_index(rows, c.flag@);
    assert(rows.push(c)[rows.len() as int] == c);
    if flag_index(rows.push(c), c.flag@) is None {
        assert(rows.push(c)[rows.len() as int].flag@ != c.flag@);
        assert(false);
    }
    if flag_index(rows, c.flag@) is None {
        let i = flag_index(rows.push(c), c.flag@).unwrap();
        if i < rows.len() {
            assert(rows.push(c)[i] == rows[i]);
            assert(false);
        }
    }
}

} // verus!
