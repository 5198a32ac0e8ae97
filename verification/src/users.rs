//! The four operations on users and the signup workflow: how what storage
//! answered becomes the reply to the request.

use crate::error::{classified, failure_of, unique_violation, FailureView, SignupError};
use crate::location::{location, location_path};
use crate::model::{UserModel, UserView};
use crate::status::Status;
use vstd::prelude::*;

verus! {

/// What a request is answered with.
#[derive(Debug, Clone, PartialEq, Eq)]
pub enum Reply {
    /// Every user, in the order of storage.
    Users(Vec<UserModel>),
    /// The user that was asked for.
    User(UserModel),
    /// The user that was created, and where it can be fetched.
    Created { location: String, user: UserModel },
    /// The one matching row was removed.
    Removed,
    /// No row matched. This is an answer, not a failure.
    Absent,
    /// The signup was turned down, with the message for the caller.
    Rejected { status: Status, message: String },
    /// Storage failed. Nothing of the failure is shown to the caller.
    Failed,
}

/// The model of a [`Reply`].
pub enum ReplyView {
    Users(Seq<UserView>),
    User(UserView),
    Created { location: Seq<char>, user: UserView },
    Removed,
    Absent,
    Rejected { status: Status, message: Seq<char> },
    Failed,
}

impl View for Reply {
    type V = ReplyView;

    open spec fn view(&self) -> ReplyView {
        match self {
            Reply::Users(users) => ReplyView::Users(users.deep_view()),
            Reply::User(user) => ReplyView::User(user@),
            Reply::Created { location, user } => ReplyView::Created {
                location: location@,
                user: user@,
            },
            Reply::Removed => ReplyView::Removed,
            Reply::Absent => ReplyView::Absent,
            Reply::Rejected { status, message } => ReplyView::Rejected {
                status: *status,
                message: message@,
            },
            Reply::Failed => ReplyView::Failed,
        }
    }
}

impl ReplyView {
    /// The status that the reply goes out with.
    pub open spec fn status(self) -> Status {
        match self {
            ReplyView::Users(_) => Status::Success,
            ReplyView::User(_) => Status::Success,
            ReplyView::Created { .. } => Status::Created,
            ReplyView::Removed => Status::Success,
            ReplyView::Absent => Status::NotFound,
            ReplyView::Rejected { status, .. } => status,
            ReplyView::Failed => Status::InternalServerError,
        }
    }
}

impl Reply {
    /// The status that the reply goes out with.
    pub fn status(&self) -> (status: Status)
        ensures
            status == self@.status(),
    {
        match self {
            Reply::Users(_) => Status::Success,
            Reply::User(_) => Status::Success,
            Reply::Created { .. } => Status::Created,
            Reply::Removed => Status::Success,
            Reply::Absent => Status::NotFound,
            Reply::Rejected { status, .. } => *status,
            Reply::Failed => Status::InternalServerError,
        }
    }
}

/// The reply to a request for every user: the users as storage returned
/// them, or a failure where it returned none (`None`).
pub open spec fn list_reply(fetched: Option<Seq<UserView>>) -> ReplyView {
    match fetched {
        Some(users) => ReplyView::Users(users),
        None => ReplyView::Failed,
    }
}

/// The reply to a signup, from the stored user or the kind of error.
pub open spec fn signup_reply(created: Result<UserView, SignupError>) -> ReplyView {
    match created {
        Ok(user) => ReplyView::Created { location: location_path(user.id), user },
        Err(kind) => ReplyView::Rejected { status: kind.spec_status(), message: kind.message_text() },
    }
}

/// The reply to a request to remove one user, from the number of rows that
/// storage removed, or a failure where it reported none (`None`).
pub open spec fn delete_reply(executed: Option<u64>) -> ReplyView {
    match executed {
        Some(rows) => if rows == 1 {
            ReplyView::Removed
        } else {
            ReplyView::Absent
        },
        None => ReplyView::Failed,
    }
}

/// The reply to a request for one user: the user that storage returned,
/// absence where it found no row (`Some(None)`), or a failure where it
/// returned nothing (`None`).
pub open spec fn fetch_reply(fetched: Option<Option<UserView>>) -> ReplyView {
    match fetched {
        Some(Some(user)) => ReplyView::User(user),
        Some(None) => ReplyView::Absent,
        None => ReplyView::Failed,
    }
}

/// Answers `GET /users` from what storage returned for the statement that
/// reads every user: the users as they came, or a failure.
pub fn list_users(fetched: Result<Vec<UserModel>, sqlx::Error>) -> (reply: Reply)
    ensures
        reply@ == list_reply(
            match fetched {
                Ok(users) => Some(users.deep_view()),
                Err(_) => None,
            },
        ),
{
    match fetched {
        Ok(users) => Reply::Users(users),
        Err(_) => Reply::Failed,
    }
}

/// Turns what storage returned for the insert into the created user or
/// the kind of signup error.
pub fn create_user(inserted: Result<UserModel, sqlx::Error>) -> (created: Result<
    UserModel,
    SignupError,
>)
    ensures
        created == match inserted {
            Ok(user) => Ok::<UserModel, SignupError>(user),
            Err(error) => Err(classified(failure_of(error))),
        },
{
    match inserted {
        Ok(user) => Ok(user),
        Err(error) => Err(SignupError::from(error)),
    }
}

/// Builds the reply to a signup: the created user with its location, or
/// the status and message of the error.
pub fn answer_signup(created: Result<UserModel, SignupError>) -> (reply: Reply)
    ensures
        reply@ == signup_reply(
            match created {
                Ok(user) => Ok(user@),
                Err(kind) => Err(kind),
            },
        ),
{
    match created {
        Ok(user) => {
            let location = location(user.id);
            Reply::Created { location, user }
        },
        Err(kind) => Reply::Rejected { status: kind.status(), message: kind.message() },
    }
}

/// Answers `POST /signup` from what storage returned for the insert.
pub fn signup_user(inserted: Result<UserModel, sqlx::Error>) -> (reply: Reply)
    ensures
        reply@ == signup_reply(
            match inserted {
                Ok(user) => Ok(user@),
                Err(error) => Err(classified(failure_of(error))),
            },
        ),
{
    answer_signup(create_user(inserted))
}

/// Answers `DELETE /users/{id}` from the number of rows that storage
/// reported as removed: exactly one row means removed, any other number
/// means that nothing was.
pub fn delete_user(executed: Result<u64, sqlx::Error>) -> (reply: Reply)
    ensures
        reply@ == delete_reply(
            match executed {
                Ok(rows) => Some(rows),
                Err(_) => None,
            },
        ),
{
    match executed {
        Ok(rows) => if rows == 1 {
            Reply::Removed
        } else {
            Reply::Absent
        },
        Err(_) => Reply::Failed,
    }
}

/// Answers `GET /users/{id}` from what storage returned for the fetch:
/// the user, its absence, or a failure.
pub fn get_user(fetched: Result<Option<UserModel>, sqlx::Error>) -> (reply: Reply)
    ensures
        reply@ == fetch_reply(
            match fetched {
                Ok(Some(user)) => Some(Some(user@)),
                Ok(None) => Some(None),
                Err(_) => None,
            },
        ),
{
    match fetched {
        Ok(Some(user)) => Reply::User(user),
        Ok(None) => Reply::Absent,
        Err(_) => Reply::Failed,
    }
}

/// A signup that storage refused for a breached uniqueness constraint is
/// classified as a duplicate key and answered with 409 Conflict and the
/// message of a duplicate key. Nothing else is looked at: not the rest of
/// the failure, and no field of the input.
pub proof fn lemma_duplicate_is_conflict(failure: FailureView)
    requires
        failure == (FailureView::Database { code: Some(unique_violation()) }),
    ensures
        classified(failure) == SignupError::NonUniqueIdError,
        signup_reply(Err(classified(failure))) == (ReplyView::Rejected {
            status: Status::Conflict,
            message: "Duplicate username or email contained a duplicate key."@,
        }),
        signup_reply(Err(classified(failure))).status().spec_code() == 409,
{
}

/// A signup is answered with 201 exactly when storage returned the stored
/// user, with 409 exactly when the failure is a breached uniqueness
/// constraint, and with 500 for every other failure.
pub proof fn lemma_signup_statuses(stored: Result<UserView, FailureView>)
    ensures
        ({
            let reply = signup_reply(
                match stored {
                    Ok(user) => Ok(user),
                    Err(failure) => Err(classified(failure)),
                },
            );
            let duplicate = stored == Err::<UserView, FailureView>(
                FailureView::Database { code: Some(unique_violation()) },
            );
            &&& reply.status().spec_code() == 201 <==> stored is Ok
            &&& reply.status().spec_code() == 409 <==> duplicate
            &&& reply.status().spec_code() == 500 <==> stored is Err && !duplicate
        }),
{
}

/// The service hands a stored user on as it is: the reply to a signup holds
/// the user that storage returned for the insert, at the location of its
/// identifier, and the reply to a fetch holds the user that storage returned
/// for the fetch. So for one row the two replies hold the same user, equal
/// in every field.
pub proof fn lemma_stored_user_is_handed_on(user: UserView)
    ensures
        signup_reply(Ok(user)) == (ReplyView::Created { location: location_path(user.id), user }),
        fetch_reply(Some(Some(user))) == ReplyView::User(user),
        signup_reply(Ok(user))->Created_user == fetch_reply(Some(Some(user)))->User_0,
{
}

/// Removing reports "removed" exactly when storage removed one row. Where
/// it removed none, the reply is absence with 404, not a failure; and so
/// is the reply to a fetch for which storage found no row.
pub proof fn lemma_absence_is_no_failure(rows: u64)
    ensures
        delete_reply(Some(rows)) == ReplyView::Removed <==> rows == 1,
        rows != 1 ==> delete_reply(Some(rows)) == ReplyView::Absent,
        delete_reply(Some(rows)) != ReplyView::Failed,
        fetch_reply(Some(None)) == ReplyView::Absent,
        ReplyView::Absent.status().spec_code() == 404,
        ReplyView::Removed.status().spec_code() == 200,
{
}

/// Listing what storage returned is never a failure, and an empty store
/// is listed as the empty sequence, with 200.
pub proof fn lemma_listing_is_no_failure(users: Seq<UserView>)
    ensures
        list_reply(Some(users)) == ReplyView::Users(users),
        list_reply(Some(users)).status().spec_code() == 200,
        list_reply(Some(Seq::<UserView>::empty())) == ReplyView::Users(Seq::<UserView>::empty()),
{
}

} // verus!
