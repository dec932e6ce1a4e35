//! The storage gateway: the statements it sends to the store and the way it
//! classifies what the store reports.

use vstd::prelude::*;
use crate::error::StorageError;
use crate::models::User;
use crate::text::{contains, occurs_in};

verus! {

/// Inserts a full row and hands it back.
pub const INSERT_USER: &'static str =
    "INSERT INTO users (id, email, name, password, role) VALUES ($1, $2, $3, $4, $5) RETURNING id, email, name, password, role";

/// Reads every row.
pub const SELECT_ALL_USERS: &'static str = "SELECT * FROM users";

/// Reads the row with a given `id`.
pub const SELECT_USER_BY_ID: &'static str = "SELECT * FROM users WHERE id = $1";

/// Deletes the row with a given `id`.
pub const DELETE_USER_BY_ID: &'static str = "DELETE FROM users WHERE id = $1";

/// The words by which the store reports a primary key that is taken.
pub const DUPLICATE_KEY: &'static str = "duplicate key value";

/// The words by which the driver reports a lookup without a row.
pub const NO_ROWS: &'static str = "no rows returned";

/// What a statement hands back.
#[derive(Clone, Copy, Debug, PartialEq, Eq, Structural)]
pub enum Expect {
    /// Exactly one row; none is a failure.
    OneRow,
    /// Every row that matches, possibly none.
    AllRows,
    /// The number of rows that the statement changed.
    RowCount,
}

/// A parameterized statement: its text, the values bound to `$1`, `$2`, ...
/// in that order, and what comes back.
#[derive(Clone, Debug, PartialEq, Eq)]
pub struct Statement {
    pub sql: &'static str,
    pub bindings: Vec<String>,
    pub expects: Expect,
}

/// The gateway to the `users` table.
pub struct UserRepository {}

impl StorageError {
    /// The kind of a failed insert that reported `text`.
    pub open spec fn of_insert_failure(text: Seq<char>) -> StorageError {
        if occurs_in(text, DUPLICATE_KEY@) {
            StorageError::Conflict
        } else {
            StorageError::Other
        }
    }

    /// The kind of a failed lookup that reported `text`.
    pub open spec fn of_lookup_failure(text: Seq<char>) -> StorageError {
        if occurs_in(text, NO_ROWS@) {
            StorageError::NotFound
        } else {
            StorageError::Other
        }
    }

    /// Classifies a failed insert by the words in which the driver reported
    /// it: a taken key is a conflict, anything else is a plain storage
    /// failure.
    pub fn insert_failure(text: &str) -> (kind: StorageError)
        ensures
            kind == StorageError::of_insert_failure(text@),
    {
        if contains(text, DUPLICATE_KEY) {
            StorageError::Conflict
        } else {
            StorageError::Other
        }
    }

    /// Classifies a failed lookup by the words in which the driver reported
    /// it: no row is a miss, anything else is a plain storage failure.
    pub fn lookup_failure(text: &str) -> (kind: StorageError)
        ensures
            kind == StorageError::of_lookup_failure(text@),
    {
        if contains(text, NO_ROWS) {
            StorageError::NotFound
        } else {
            StorageError::Other
        }
    }
}

impl UserRepository {
    /// The statement that inserts `user`.
    pub fn create(user: User) -> (statement: Statement)
        ensures
            statement.sql@ == INSERT_USER@,
            statement.bindings@ == seq![user.id, user.email, user.name, user.password, user.role],
            statement.expects == Expect::OneRow,
    {
        let User { id, email, name, role, password } = user;
        let mut bindings: Vec<String> = Vec::new();
        bindings.push(id);
        bindings.push(email);
        bindings.push(name);
        bindings.push(password);
        bindings.push(role);
        Statement { sql: INSERT_USER, bindings, expects: Expect::OneRow }
    }

    /// The statement that reads every user.
    pub fn get_all_users() -> (statement: Statement)
        ensures
            statement.sql@ == SELECT_ALL_USERS@,
            statement.bindings@ == Seq::<String>::empty(),
            statement.expects == Expect::AllRows,
    {
        Statement { sql: SELECT_ALL_USERS, bindings: Vec::new(), expects: Expect::AllRows }
    }

    /// The statement that reads the user with the given `id`.
    pub fn get_user_by_id(id: String) -> (statement: Statement)
        ensures
            statement.sql@ == SELECT_USER_BY_ID@,
            statement.bindings@ == seq![id],
            statement.expects == Expect::OneRow,
    {
        let mut bindings: Vec<String> = Vec::new();
        bindings.push(id);
        Statement { sql: SELECT_USER_BY_ID, bindings, expects: Expect::OneRow }
    }

    /// The statement that deletes the user with the given `id`.
    pub fn delete_user_by_id(id: String) -> (statement: Statement)
        ensures
            statement.sql@ == DELETE_USER_BY_ID@,
            statement.bindings@ == seq![id],
            statement.expects == Expect::RowCount,
    {
        let mut bindings: Vec<String> = Vec::new();
        bindings.push(id);
        Statement { sql: DELETE_USER_BY_ID, bindings, expects: Expect::RowCount }
    }
}

} // verus!
