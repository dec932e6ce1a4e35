use user_service::error::StorageError;
use user_service::models::User;
use user_service::repository::{
    Expect, Statement, UserRepository, DELETE_USER_BY_ID, INSERT_USER, SELECT_ALL_USERS,
    SELECT_USER_BY_ID,
};

fn user() -> User {
    User {
        id: "id-1".to_string(),
        email: "e@example.org".to_string(),
        name: "N".to_string(),
        role: "R".to_string(),
        password: "P".to_string(),
    }
}

#[test]
fn insert_binds_the_fields_in_column_order() {
    let statement = UserRepository::create(user());
    assert_eq!(
        statement,
        Statement {
            sql: INSERT_USER,
            bindings: vec![
                "id-1".to_string(),
                "e@example.org".to_string(),
                "N".to_string(),
                "P".to_string(),
                "R".to_string(),
            ],
            expects: Expect::OneRow,
        }
    );
    assert_eq!(
        statement.sql,
        "INSERT INTO users (id, email, name, password, role) VALUES ($1, $2, $3, $4, $5) RETURNING id, email, name, password, role"
    );
}

#[test]
fn select_all_binds_nothing() {
    let statement = UserRepository::get_all_users();
    assert_eq!(statement.sql, SELECT_ALL_USERS);
    assert_eq!(statement.sql, "SELECT * FROM users");
    assert!(statement.bindings.is_empty());
    assert_eq!(statement.expects, Expect::AllRows);
}

#[test]
fn select_by_id_binds_the_id() {
    let statement = UserRepository::get_user_by_id("id-7".to_string());
    assert_eq!(statement.sql, SELECT_USER_BY_ID);
    assert_eq!(statement.sql, "SELECT * FROM users WHERE id = $1");
    assert_eq!(statement.bindings, vec!["id-7".to_string()]);
    assert_eq!(statement.expects, Expect::OneRow);
}

#[test]
fn delete_by_id_binds_the_id_and_counts_rows() {
    let statement = UserRepository::delete_user_by_id("id-9".to_string());
    assert_eq!(statement.sql, DELETE_USER_BY_ID);
    assert_eq!(statement.sql, "DELETE FROM users WHERE id = $1");
    assert_eq!(statement.bindings, vec!["id-9".to_string()]);
    assert_eq!(statement.expects, Expect::RowCount);
}

#[test]
fn taken_key_is_a_conflict() {
    let text = "error returned from database: duplicate key value violates unique constraint \"users_pkey\"";
    assert_eq!(StorageError::insert_failure(text), StorageError::Conflict);
    assert_eq!(StorageError::insert_failure("duplicate key value"), StorageError::Conflict);
}

#[test]
fn other_insert_failures_are_plain() {
    assert_eq!(StorageError::insert_failure(""), StorageError::Other);
    assert_eq!(
        StorageError::insert_failure("pool timed out while waiting for an open connection"),
        StorageError::Other
    );
    assert_eq!(
        StorageError::insert_failure("no rows returned by a query that expected to return at least one row"),
        StorageError::Other
    );
    assert_eq!(StorageError::insert_failure("duplicate key"), StorageError::Other);
}

#[test]
fn no_rows_is_a_miss() {
    let text = "no rows returned by a query that expected to return at least one row";
    assert_eq!(StorageError::lookup_failure(text), StorageError::NotFound);
    assert_eq!(StorageError::lookup_failure("no rows returned"), StorageError::NotFound);
}

#[test]
fn other_lookup_failures_are_plain() {
    assert_eq!(StorageError::lookup_failure(""), StorageError::Other);
    assert_eq!(StorageError::lookup_failure("duplicate key value"), StorageError::Other);
    assert_eq!(StorageError::lookup_failure("no rows"), StorageError::Other);
}

#[test]
fn driver_errors_are_classified_by_their_wording() {
    let no_row = sqlx::Error::RowNotFound.to_string();
    assert_eq!(StorageError::lookup_failure(&no_row), StorageError::NotFound);
    assert_eq!(StorageError::insert_failure(&no_row), StorageError::Other);
    let timed_out = sqlx::Error::PoolTimedOut.to_string();
    assert_eq!(StorageError::lookup_failure(&timed_out), StorageError::Other);
    assert_eq!(StorageError::insert_failure(&timed_out), StorageError::Other);
    let closed = sqlx::Error::PoolClosed.to_string();
    assert_eq!(StorageError::insert_failure(&closed), StorageError::Other);
    let duplicate = sqlx::Error::Protocol(
        "duplicate key value violates unique constraint \"users_pkey\"".to_string(),
    )
    .to_string();
    assert_eq!(StorageError::insert_failure(&duplicate), StorageError::Conflict);
    assert_eq!(StorageError::lookup_failure(&duplicate), StorageError::Other);
}
