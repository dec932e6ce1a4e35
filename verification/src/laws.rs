//! What holds of the service as a whole: the table's answers put through the
//! service's decisions.

use vstd::prelude::*;
use crate::error::StorageError;
use crate::handlers::{outcome_of_create, outcome_of_delete, outcome_of_list, outcome_of_lookup};
use crate::identity::is_random_uuid;
use crate::models::{User, UserRequest};
use crate::outcome::{Outcome, Reply, LABEL_DELETED};
use crate::status::HttpStatus;
use crate::table::{
    after_delete,
    after_insert,
    delete_count,
    distinct_ids,
    holds_id,
    insert_answer,
    lemma_delete_removes_key,
    lemma_insert_keeps_distinct,
    lemma_position_unique,
    lookup_answer,
    position_of,
};

verus! {

/// Every reply has its outcome's status and an envelope, and the envelope
/// carries a payload exactly when the outcome is a success that produces
/// one.
pub proof fn law_payload_iff_success<T>(outcome: Outcome<T>, reply: Reply<T>)
    requires
        outcome.is_rendered_by(reply),
    ensures
        reply.status == outcome.status(),
        reply.body.status_code@ == reply.status.line(),
        reply.body.data is Some <==> (outcome is Found || outcome is Created),
{
}

/// A delete that removed a row is answered with success in the envelope,
/// without a payload.
pub proof fn law_delete_is_answered_in_the_envelope(rows: Seq<User>, id: Seq<char>, reply: Reply<User>)
    requires
        holds_id(rows, id),
        outcome_of_delete(Ok(delete_count(rows, id))).is_rendered_by(reply),
    ensures
        reply.status == HttpStatus::NoContent,
        reply.body.status@ == LABEL_DELETED@,
        reply.body.status_code@ == "204 No Content"@,
        reply.body.data is None,
{
}

/// A generated identifier is never empty.
pub proof fn law_generated_id_is_not_empty(id: Seq<char>)
    requires
        is_random_uuid(id),
    ensures
        id.len() > 0,
{
}

/// Creating a user under a key that is taken is a conflict: the request is
/// rejected and the table stays as it was.
pub proof fn law_reused_id_is_rejected(rows: Seq<User>, user: User)
    requires
        holds_id(rows, user.id@),
    ensures
        insert_answer(rows, user) == Err::<User, StorageError>(StorageError::Conflict),
        after_insert(rows, user) == rows,
        outcome_of_create(insert_answer(rows, user)) == Outcome::<User>::Rejected,
{
}

/// Listing an empty table finds nothing.
pub proof fn law_empty_table_lists_nothing(listed: Vec<User>)
    requires
        listed@ == Seq::<User>::empty(),
    ensures
        outcome_of_list(Ok(listed)) == Outcome::<Vec<User>>::Missing,
{
}

/// After one create on an empty table, a listing holds exactly the created
/// user.
pub proof fn law_first_create_is_listed(user: User, listed: Vec<User>)
    requires
        listed@ == after_insert(Seq::<User>::empty(), user),
    ensures
        insert_answer(Seq::<User>::empty(), user) == Ok::<User, StorageError>(user),
        listed@ == seq![user],
        outcome_of_list(Ok(listed)) == Outcome::Found(listed),
{
    assert(!holds_id(Seq::<User>::empty(), user.id@));
    assert(Seq::<User>::empty().push(user) =~= seq![user]);
}

/// A user that was created is found under its key, equal to what was
/// created.
pub proof fn law_created_user_is_found(rows: Seq<User>, user: User)
    requires
        distinct_ids(rows),
        insert_answer(rows, user) is Ok,
    ensures
        outcome_of_create(insert_answer(rows, user)) == Outcome::Created(user),
        lookup_answer(after_insert(rows, user), user.id@) == Ok::<User, StorageError>(user),
        outcome_of_lookup(lookup_answer(after_insert(rows, user), user.id@)) == Outcome::Found(
            user,
        ),
{
    let next = after_insert(rows, user);
    assert(next == rows.push(user));
    lemma_insert_keeps_distinct(rows, user);
    assert(next[rows.len() as int] == user);
    lemma_position_unique(next, user.id@, rows.len() as int);
}

/// A key that no row has is not found.
pub proof fn law_unknown_id_is_missing(rows: Seq<User>, id: Seq<char>)
    requires
        !holds_id(rows, id),
    ensures
        lookup_answer(rows, id) == Err::<User, StorageError>(StorageError::NotFound),
        outcome_of_lookup(lookup_answer(rows, id)) == Outcome::<User>::Missing,
{
}

/// Deleting a key that a row has removes that row and only that row: one
/// row is counted, the delete succeeds, and the key is not found afterwards.
pub proof fn law_delete_removes_the_row(rows: Seq<User>, id: Seq<char>)
    requires
        distinct_ids(rows),
        holds_id(rows, id),
    ensures
        delete_count(rows, id) == 1,
        after_delete(rows, id).len() == rows.len() - 1,
        outcome_of_delete(Ok(delete_count(rows, id))) == Outcome::<User>::Deleted,
        !holds_id(after_delete(rows, id), id),
        outcome_of_lookup(lookup_answer(after_delete(rows, id), id)) == Outcome::<User>::Missing,
{
    lemma_delete_removes_key(rows, id);
}

/// Deleting a key that no row has is no failure: no row is counted, the
/// table stays as it was, and the caller is told that nothing was found.
pub proof fn law_delete_of_unknown_id_is_missing(rows: Seq<User>, id: Seq<char>)
    requires
        !holds_id(rows, id),
    ensures
        delete_count(rows, id) == 0,
        after_delete(rows, id) == rows,
        outcome_of_delete(Ok(delete_count(rows, id))) == Outcome::<User>::Missing,
{
}

/// A create leaves every other row as it was found before.
pub proof fn law_create_keeps_other_rows(rows: Seq<User>, user: User, other: Seq<char>)
    requires
        distinct_ids(rows),
        other != user.id@,
    ensures
        lookup_answer(after_insert(rows, user), other) == lookup_answer(rows, other),
{
    if !holds_id(rows, user.id@) {
        let next = rows.push(user);
        lemma_insert_keeps_distinct(rows, user);
        if holds_id(rows, other) {
            let place = position_of(rows, other);
            assert(next[place] == rows[place]);
            lemma_position_unique(next, other, place);
        } else {
            if holds_id(next, other) {
                let place = position_of(next, other);
                if place < rows.len() {
                    assert(next[place] == rows[place]);
                    assert(rows[place].id@ == other);
                }
            }
        }
    }
}

/// A delete leaves every other row as it was found before.
pub proof fn law_delete_keeps_other_rows(rows: Seq<User>, id: Seq<char>, other: Seq<char>)
    requires
        distinct_ids(rows),
        other != id,
    ensures
        lookup_answer(after_delete(rows, id), other) == lookup_answer(rows, other),
{
    if holds_id(rows, id) {
        let at = position_of(rows, id);
        let rest = rows.remove(at);
        lemma_delete_removes_key(rows, id);
        if holds_id(rows, other) {
            let place = position_of(rows, other);
            let moved = if place < at {
                place
            } else {
                place - 1
            };
            assert(rest[moved] == rows[place]);
            lemma_position_unique(rest, other, moved);
        } else {
            if holds_id(rest, other) {
                let place = position_of(rest, other);
                let origin = if place < at {
                    place
                } else {
                    place + 1
                };
                assert(rest[place] == rows[origin]);
                assert(rows[origin].id@ == other);
            }
        }
    }
}

/// Round trip: what a create stored under a key that was free comes back
/// from a lookup with every field as the request gave it, and with the
/// request's own `id` where it named one.
pub proof fn law_round_trip(rows: Seq<User>, request: UserRequest, fallback_id: String)
    requires
        distinct_ids(rows),
        !holds_id(rows, User::of_request(request, fallback_id).id@),
    ensures
        ({
            let user = User::of_request(request, fallback_id);
            let found = lookup_answer(after_insert(rows, user), user.id@);
            &&& found matches Ok(row)
            &&& row.email == request.email
            &&& row.name == request.name
            &&& row.role == request.role
            &&& row.password == request.password
            &&& request.id matches Some(id) ==> row.id == id
            &&& request.id is None ==> row.id == fallback_id
        }),
{
    law_created_user_is_found(rows, User::of_request(request, fallback_id));
}

} // verus!
