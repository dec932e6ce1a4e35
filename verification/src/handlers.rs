//! The resource service: one decision per operation, from what the store
//! answered to the outcome that the caller gets.

use vstd::prelude::*;
use crate::combinations::{combinations, count_combinations, lemma_count_in_range};
use crate::error::StorageError;
use crate::identity::{fresh_id, is_random_uuid};
use crate::models::{User, UserRequest};
use crate::outcome::Outcome;
use crate::text::{decimal, decimal_string};

verus! {

/// Builds the row that a creation request asks for. A request that names an
/// `id` keeps it as it is; one that names none gets a fresh random UUID.
pub fn new_user(request: UserRequest) -> (user: User)
    ensures
        match request.id {
            Some(id) => user.id == id,
            None => is_random_uuid(user.id@),
        },
        user.email == request.email,
        user.name == request.name,
        user.role == request.role,
        user.password == request.password,
{
    let fallback_id = if request.id.is_none() {
        fresh_id()
    } else {
        String::new()
    };
    User::from_request(request, fallback_id)
}

/// The outcome of a create, given what the insert came to.
pub open spec fn outcome_of_create(stored: Result<User, StorageError>) -> Outcome<User> {
    match stored {
        Ok(user) => Outcome::Created(user),
        Err(StorageError::Conflict) => Outcome::Rejected,
        Err(_) => Outcome::Failed,
    }
}

/// The outcome of a listing, given what the read came to. An empty table
/// counts as nothing found, not as an empty success.
pub open spec fn outcome_of_list(listed: Result<Vec<User>, StorageError>) -> Outcome<Vec<User>> {
    match listed {
        Ok(users) => if users@.len() == 0 {
            Outcome::Missing
        } else {
            Outcome::Found(users)
        },
        Err(_) => Outcome::Failed,
    }
}

/// The outcome of a lookup by `id`, given what the read came to.
pub open spec fn outcome_of_lookup(found: Result<User, StorageError>) -> Outcome<User> {
    match found {
        Ok(user) => Outcome::Found(user),
        Err(StorageError::NotFound) => Outcome::Missing,
        Err(_) => Outcome::Failed,
    }
}

/// The outcome of a delete, given how many rows it removed.
pub open spec fn outcome_of_delete(deleted: Result<u64, StorageError>) -> Outcome<User> {
    match deleted {
        Ok(count) => if count > 0 {
            Outcome::Deleted
        } else {
            Outcome::Missing
        },
        Err(_) => Outcome::Failed,
    }
}

/// Decides the reply to a create: the stored row on success, a rejection
/// when the `id` was taken, a failure otherwise.
pub fn create_user(stored: Result<User, StorageError>) -> (outcome: Outcome<User>)
    ensures
        outcome == outcome_of_create(stored),
{
    match stored {
        Ok(user) => Outcome::Created(user),
        Err(StorageError::Conflict) => Outcome::Rejected,
        Err(_) => Outcome::Failed,
    }
}

/// Decides the reply to a listing: every row when there is one, nothing
/// found for an empty table, a failure when the store failed.
pub fn get_all_user(listed: Result<Vec<User>, StorageError>) -> (outcome: Outcome<Vec<User>>)
    ensures
        outcome == outcome_of_list(listed),
{
    match listed {
        Ok(users) => {
            if users.len() == 0 {
                Outcome::Missing
            } else {
                Outcome::Found(users)
            }
        },
        Err(_) => Outcome::Failed,
    }
}

/// Decides the reply to a lookup: the row on success, nothing found when no
/// row matched, a failure otherwise.
pub fn get_user_by_id(found: Result<User, StorageError>) -> (outcome: Outcome<User>)
    ensures
        outcome == outcome_of_lookup(found),
{
    match found {
        Ok(user) => Outcome::Found(user),
        Err(StorageError::NotFound) => Outcome::Missing,
        Err(_) => Outcome::Failed,
    }
}

/// Decides the reply to a delete: success when a row went, nothing found
/// when none matched, a failure when the store failed.
pub fn delete_user_by_id(deleted: Result<u64, StorageError>) -> (outcome: Outcome<User>)
    ensures
        outcome == outcome_of_delete(deleted),
{
    match deleted {
        Ok(count) => {
            if count > 0 {
                Outcome::Deleted
            } else {
                Outcome::Missing
            }
        },
        Err(_) => Outcome::Failed,
    }
}

/// Counts the combinations of `word` and renders the count in decimal. A
/// word without a count, empty or too long, is rejected.
pub fn calculate_possible_combinations(word: &str) -> (outcome: Outcome<String>)
    ensures
        match combinations(word@.len()) {
            Ok(count) => outcome matches Outcome::Found(text) && text@ == decimal(count as nat),
            Err(_) => outcome == Outcome::<String>::Rejected,
        },
{
    match count_combinations(word) {
        Ok(count) => {
            proof {
                lemma_count_in_range(word@.len());
            }
            Outcome::Found(decimal_string(count as u32))
        },
        Err(_) => Outcome::Rejected,
    }
}

} // verus!
