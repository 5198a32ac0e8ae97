use backend::{
    answer_signup, create_user, delete_user, get_user, list_users, signup_user, Reply,
    SignupError, Status, UserModel,
};

fn alice(id: i64) -> UserModel {
    UserModel {
        id,
        username: "alice".to_string(),
        first_name: "A".to_string(),
        last_name: "L".to_string(),
        email: "alice@x.com".to_string(),
        password: "p".to_string(),
    }
}

fn bob(id: i64) -> UserModel {
    UserModel {
        id,
        username: "bob".to_string(),
        first_name: "B".to_string(),
        last_name: "M".to_string(),
        email: "bob@x.com".to_string(),
        password: "q".to_string(),
    }
}

#[test]
fn signup_of_alice_is_created_at_her_location() {
    let reply = signup_user(Ok(alice(1)));
    assert_eq!(reply.status().code(), 201);
    assert_eq!(reply, Reply::Created { location: "/users/1".to_string(), user: alice(1) });
}

#[test]
fn signup_keeps_every_field_of_the_stored_user() {
    match signup_user(Ok(alice(42))) {
        Reply::Created { location, user } => {
            assert_eq!(location, "/users/42");
            assert_eq!(user.id, 42);
            assert_eq!(user.username, "alice");
            assert_eq!(user.first_name, "A");
            assert_eq!(user.last_name, "L");
            assert_eq!(user.email, "alice@x.com");
            assert_eq!(user.password, "p");
        }
        other => panic!("{other:?}"),
    }
}

#[test]
fn signup_with_a_taken_username_is_a_conflict() {
    let reply = answer_signup(Err(SignupError::NonUniqueIdError));
    assert_eq!(reply.status().code(), 409);
    assert_eq!(
        reply,
        Reply::Rejected {
            status: Status::Conflict,
            message: "Duplicate username or email contained a duplicate key.".to_string(),
        }
    );
}

#[test]
fn signup_that_failed_otherwise_is_an_internal_error() {
    let reply = answer_signup(Err(SignupError::UnknownQueryError));
    assert_eq!(reply.status().code(), 500);
    assert_eq!(
        reply,
        Reply::Rejected {
            status: Status::InternalServerError,
            message: "Database query contained an unspecified error.".to_string(),
        }
    );
    let reply = answer_signup(Err(SignupError::UnknownDatabaseError));
    assert_eq!(reply.status().code(), 500);
    assert_eq!(
        reply,
        Reply::Rejected {
            status: Status::InternalServerError,
            message: "Database error, not query related.".to_string(),
        }
    );
}

#[test]
fn signup_when_storage_is_unreachable_is_an_internal_error() {
    let reply = signup_user(Err(sqlx::Error::PoolTimedOut));
    assert_eq!(
        reply,
        Reply::Rejected {
            status: Status::InternalServerError,
            message: "Database error, not query related.".to_string(),
        }
    );
}

#[test]
fn created_user_passes_through_unchanged() {
    assert_eq!(create_user(Ok(alice(7))), Ok(alice(7)));
}

#[test]
fn create_user_classifies_the_failure() {
    assert_eq!(create_user(Err(sqlx::Error::PoolClosed)), Err(SignupError::UnknownDatabaseError));
}

#[test]
fn fetching_an_unknown_id_is_not_found() {
    let reply = get_user(Ok(None));
    assert_eq!(reply, Reply::Absent);
    assert_eq!(reply.status().code(), 404);
}

#[test]
fn fetching_a_stored_user_returns_it() {
    let reply = get_user(Ok(Some(alice(1))));
    assert_eq!(reply, Reply::User(alice(1)));
    assert_eq!(reply.status().code(), 200);
}

#[test]
fn fetching_when_storage_fails_is_an_internal_error() {
    let reply = get_user(Err(sqlx::Error::RowNotFound));
    assert_eq!(reply, Reply::Failed);
    assert_eq!(reply.status().code(), 500);
}

#[test]
fn listing_an_empty_store_is_an_empty_sequence() {
    let reply = list_users(Ok(vec![]));
    assert_eq!(reply, Reply::Users(vec![]));
    assert_eq!(reply.status().code(), 200);
}

#[test]
fn listing_keeps_the_order_of_storage() {
    let reply = list_users(Ok(vec![bob(2), alice(1)]));
    assert_eq!(reply, Reply::Users(vec![bob(2), alice(1)]));
    assert_eq!(reply.status(), Status::Success);
}

#[test]
fn listing_when_storage_fails_is_an_internal_error() {
    let reply = list_users(Err(sqlx::Error::WorkerCrashed));
    assert_eq!(reply, Reply::Failed);
    assert_eq!(reply.status().code(), 500);
}

#[test]
fn deleting_exactly_one_row_is_removed() {
    let reply = delete_user(Ok(1));
    assert_eq!(reply, Reply::Removed);
    assert_eq!(reply.status().code(), 200);
}

#[test]
fn deleting_an_unknown_id_removes_nothing_and_is_no_failure() {
    let reply = delete_user(Ok(0));
    assert_eq!(reply, Reply::Absent);
    assert_ne!(reply, Reply::Failed);
    assert_eq!(reply.status().code(), 404);
}

#[test]
fn deleting_more_than_one_row_does_not_count_as_removed() {
    assert_eq!(delete_user(Ok(2)), Reply::Absent);
    assert_eq!(delete_user(Ok(u64::MAX)), Reply::Absent);
}

#[test]
fn deleting_when_storage_fails_is_an_internal_error() {
    let reply = delete_user(Err(sqlx::Error::PoolTimedOut));
    assert_eq!(reply, Reply::Failed);
    assert_eq!(reply.status().code(), 500);
}

#[test]
fn deleted_user_is_absent_when_fetched_again() {
    assert_eq!(delete_user(Ok(1)), Reply::Removed);
    assert_eq!(get_user(Ok(None)), Reply::Absent);
}
