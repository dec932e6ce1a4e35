//! The `users` table as the storage gateway sees it: rows in the order in
//! which they were inserted, no two with the same `id`. The spec functions
//! say what each of the four operations answers and leaves behind;
//! `UserTable` is a table in memory that does exactly that.

use vstd::prelude::*;
use crate::error::StorageError;
use crate::models::User;

verus! {

/// Some row of `rows` has the key `id`.
pub open spec fn holds_id(rows: Seq<User>, id: Seq<char>) -> bool {
    exists|i: int| 0 <= i < rows.len() && (#[trigger] rows[i]).id@ == id
}

/// The place of a row with the key `id`.
pub open spec fn position_of(rows: Seq<User>, id: Seq<char>) -> int {
    choose|i: int| 0 <= i < rows.len() && (#[trigger] rows[i]).id@ == id
}

/// No two rows share a key.
pub open spec fn distinct_ids(rows: Seq<User>) -> bool {
    forall|i: int, j: int|
        0 <= i < j < rows.len() ==> (#[trigger] rows[i]).id@ != (#[trigger] rows[j]).id@
}

/// What an insert of `user` answers: the row itself, or a conflict when its
/// key is taken.
pub open spec fn insert_answer(rows: Seq<User>, user: User) -> Result<User, StorageError> {
    if holds_id(rows, user.id@) {
        Err(StorageError::Conflict)
    } else {
        Ok(user)
    }
}

/// The rows after an insert of `user`: one more at the end, or the same
/// rows when its key is taken.
pub open spec fn after_insert(rows: Seq<User>, user: User) -> Seq<User> {
    if holds_id(rows, user.id@) {
        rows
    } else {
        rows.push(user)
    }
}

/// What a lookup of `id` answers: the row with that key, or a miss.
pub open spec fn lookup_answer(rows: Seq<User>, id: Seq<char>) -> Result<User, StorageError> {
    if holds_id(rows, id) {
        Ok(rows[position_of(rows, id)])
    } else {
        Err(StorageError::NotFound)
    }
}

/// The number of rows that a delete of `id` removes: one or none.
pub open spec fn delete_count(rows: Seq<User>, id: Seq<char>) -> u64 {
    if holds_id(rows, id) {
        1
    } else {
        0
    }
}

/// The rows after a delete of `id`.
pub open spec fn after_delete(rows: Seq<User>, id: Seq<char>) -> Seq<User> {
    if holds_id(rows, id) {
        rows.remove(position_of(rows, id))
    } else {
        rows
    }
}

/// Where keys are distinct, the place of a key is the only place that has it.
pub proof fn lemma_position_unique(rows: Seq<User>, id: Seq<char>, at: int)
    requires
        distinct_ids(rows),
        0 <= at < rows.len(),
        rows[at].id@ == id,
    ensures
        holds_id(rows, id),
        position_of(rows, id) == at,
{
    let chosen = position_of(rows, id);
    assert(0 <= chosen < rows.len() && rows[chosen].id@ == id);
    if chosen < at {
        assert(rows[chosen].id@ != rows[at].id@);
    } else if at < chosen {
        assert(rows[at].id@ != rows[chosen].id@);
    }
}

/// An insert keeps keys distinct.
pub proof fn lemma_insert_keeps_distinct(rows: Seq<User>, user: User)
    requires
        distinct_ids(rows),
    ensures
        distinct_ids(after_insert(rows, user)),
{
    if !holds_id(rows, user.id@) {
        let next = rows.push(user);
        assert forall|i: int, j: int| 0 <= i < j < next.len() implies (#[trigger] next[i]).id@ != (
        #[trigger] next[j]).id@ by {
            if j == rows.len() {
                assert(next[i] == rows[i]);
                assert(rows[i].id@ != user.id@);
            } else {
                assert(next[i] == rows[i] && next[j] == rows[j]);
            }
        }
    }
}

/// A delete keeps keys distinct and leaves no row with the deleted key.
pub proof fn lemma_delete_removes_key(rows: Seq<User>, id: Seq<char>)
    requires
        distinct_ids(rows),
    ensures
        distinct_ids(after_delete(rows, id)),
        !holds_id(after_delete(rows, id), id),
{
    if holds_id(rows, id) {
        let at = position_of(rows, id);
        let rest = rows.remove(at);
        assert forall|i: int, j: int| 0 <= i < j < rest.len() implies (#[trigger] rest[i]).id@ != (
        #[trigger] rest[j]).id@ by {
            let i0 = if i < at { i } else { i + 1 };
            let j0 = if j < at { j } else { j + 1 };
            assert(rest[i] == rows[i0] && rest[j] == rows[j0]);
            assert(rows[i0].id@ != rows[j0].id@);
        }
        assert forall|i: int| 0 <= i < rest.len() implies (#[trigger] rest[i]).id@ != id by {
            let i0 = if i < at { i } else { i + 1 };
            assert(rest[i] == rows[i0]);
            if i0 < at {
                assert(rows[i0].id@ != rows[at].id@);
            } else {
                assert(rows[at].id@ != rows[i0].id@);
            }
        }
    }
}

/// A table of users in memory.
pub struct UserTable {
    rows: Vec<User>,
}

impl View for UserTable {
    type V = Seq<User>;

    closed spec fn view(&self) -> Seq<User> {
        self.rows@
    }
}

impl UserTable {
    /// The table is well formed: no two rows share a key.
    pub open spec fn wf(&self) -> bool {
        distinct_ids(self@)
    }

    /// An empty table.
    pub fn new() -> (table: UserTable)
        ensures
            table.wf(),
            table@ == Seq::<User>::empty(),
    {
        UserTable { rows: Vec::new() }
    }

    /// The number of rows.
    pub fn len(&self) -> (count: usize)
        ensures
            count == self@.len(),
    {
        self.rows.len()
    }

    /// The place of the row with the key `id`, if there is one.
    fn find(&self, id: &str) -> (place: Option<usize>)
        requires
            self.wf(),
        ensures
            match place {
                Some(at) => holds_id(self@, id@) && at == position_of(self@, id@),
                None => !holds_id(self@, id@),
            },
    {
        let key: String = id.to_owned();
        let mut at: usize = 0;
        while at < self.rows.len()
            invariant
                at <= self.rows@.len(),
                distinct_ids(self.rows@),
                key@ == id@,
                forall|i: int| 0 <= i < at ==> (#[trigger] self.rows@[i]).id@ != id@,
            decreases self.rows@.len() - at,
        {
            if self.rows[at].id == key {
                proof {
                    lemma_position_unique(self.rows@, id@, at as int);
                }
                return Some(at);
            }
            at += 1;
        }
        None
    }

    /// Inserts `user` at the end and hands the row back; a taken key is a
    /// conflict and leaves the table as it was.
    pub fn insert(&mut self, user: User) -> (answer: Result<User, StorageError>)
        requires
            old(self).wf(),
        ensures
            final(self).wf(),
            answer == insert_answer(old(self)@, user),
            final(self)@ == after_insert(old(self)@, user),
    {
        match self.find(user.id.as_str()) {
            Some(_) => Err(StorageError::Conflict),
            None => {
                proof {
                    lemma_insert_keeps_distinct(self.rows@, user);
                }
                let stored = user.clone();
                self.rows.push(user);
                Ok(stored)
            },
        }
    }

    /// Every row, in the order of insertion. An empty table gives an empty
    /// list, not a failure.
    pub fn select_all(&self) -> (answer: Result<Vec<User>, StorageError>)
        ensures
            answer matches Ok(users) && users@ == self@,
    {
        let mut users: Vec<User> = Vec::new();
        let mut at: usize = 0;
        while at < self.rows.len()
            invariant
                at <= self.rows@.len(),
                users@ == self.rows@.take(at as int),
            decreases self.rows@.len() - at,
        {
            users.push(self.rows[at].clone());
            at += 1;
        }
        Ok(users)
    }

    /// The row with the key `id`, or a miss.
    pub fn select_by_id(&self, id: &str) -> (answer: Result<User, StorageError>)
        requires
            self.wf(),
        ensures
            answer == lookup_answer(self@, id@),
            answer matches Ok(user) ==> user.id@ == id@ && self@.contains(user),
            answer is Err ==> !holds_id(self@, id@),
    {
        match self.find(id) {
            Some(at) => Ok(self.rows[at].clone()),
            None => Err(StorageError::NotFound),
        }
    }

    /// Deletes the row with the key `id` and tells how many rows went: one,
    /// or none when no row has that key, which is no failure.
    pub fn delete_by_id(&mut self, id: &str) -> (answer: Result<u64, StorageError>)
        requires
            old(self).wf(),
        ensures
            final(self).wf(),
            answer == Ok::<u64, StorageError>(delete_count(old(self)@, id@)),
            final(self)@ == after_delete(old(self)@, id@),
    {
        match self.find(id) {
            Some(at) => {
                proof {
                    lemma_delete_removes_key(self.rows@, id@);
                }
                let _ = self.rows.remove(at);
                Ok(1)
            },
            None => Ok(0),
        }
    }
}

} // verus!
