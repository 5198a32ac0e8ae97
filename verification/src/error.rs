//! Classification of storage failures on the signup path.

use crate::status::Status;
use vstd::prelude::*;
use vstd::std_specs::convert::FromSpecImpl;
use vstd::string::StringExecFns;

verus! {

/// `sqlx::Error`, the failure that a statement may end in. Nothing inside it
/// is visible here; what the service needs of it is read by one call and
/// named by [`failure_of`].
#[verifier::external_type_specification]
#[verifier::external_body]
pub struct ExSqlxError(sqlx::Error);

/// What the service reads of a failure that storage reported.
#[derive(Debug, Clone, PartialEq, Eq)]
pub enum StorageFailure {
    /// The database itself returned an error, with this SQLSTATE if it gave one.
    Database { code: Option<String> },
    /// Anything else: the connection, the pool, the protocol, decoding.
    Other,
}

/// The model of a [`StorageFailure`].
pub enum FailureView {
    Database { code: Option<Seq<char>> },
    Other,
}

impl View for StorageFailure {
    type V = FailureView;

    open spec fn view(&self) -> FailureView {
        match self {
            StorageFailure::Database { code: Some(code) } => FailureView::Database {
                code: Some(code@),
            },
            StorageFailure::Database { code: None } => FailureView::Database { code: None },
            StorageFailure::Other => FailureView::Other,
        }
    }
}

/// What `sqlx` reports of an error: `Database` with the code that its
/// `DatabaseError::code` returns when the error is the `Database` variant,
/// `Other` for every other variant.
pub uninterp spec fn failure_of(error: sqlx::Error) -> FailureView;

/// Reads a `sqlx::Error`. The contract claims that the result is
/// `Database`, holding what `DatabaseError::code` returns, exactly when the
/// error is the variant `sqlx::Error::Database`, and `Other` otherwise; this
/// is what [`failure_of`] names.
#[verifier::external_body]
fn read_failure(error: &sqlx::Error) -> (failure: StorageFailure)
    ensures
        failure@ == failure_of(*error),
{
    match error {
        sqlx::Error::Database(db_error) => StorageFailure::Database {
            code: db_error.code().map(|code| code.into_owned()),
        },
        _ => StorageFailure::Other,
    }
}

/// Why a signup was turned down.
#[derive(Debug, Clone, Copy, PartialEq, Eq)]
pub enum SignupError {
    /// The username or the email is already taken.
    NonUniqueIdError,
    /// The database reported an error other than a unique violation.
    UnknownQueryError,
    /// The failure did not come from the database itself.
    UnknownDatabaseError,
}

/// The SQLSTATE with which the database reports a breached uniqueness
/// constraint.
pub open spec fn unique_violation() -> Seq<char> {
    "23505"@
}

/// The kind of signup error that a storage failure amounts to.
pub open spec fn classified(failure: FailureView) -> SignupError {
    match failure {
        FailureView::Database { code } => if code == Some(unique_violation()) {
            SignupError::NonUniqueIdError
        } else {
            SignupError::UnknownQueryError
        },
        FailureView::Other => SignupError::UnknownDatabaseError,
    }
}

impl SignupError {
    /// The fixed text shown to the caller for each kind of failure.
    pub open spec fn message_text(self) -> Seq<char> {
        match self {
            SignupError::NonUniqueIdError => "Duplicate username or email contained a duplicate key."@,
            SignupError::UnknownQueryError => "Database query contained an unspecified error."@,
            SignupError::UnknownDatabaseError => "Database error, not query related."@,
        }
    }

    /// The status that goes with each kind of signup error: a conflict for a
    /// duplicate key, an internal error for the rest.
    pub open spec fn spec_status(&self) -> Status {
        match self {
            SignupError::NonUniqueIdError => Status::Conflict,
            SignupError::UnknownQueryError => Status::InternalServerError,
            SignupError::UnknownDatabaseError => Status::InternalServerError,
        }
    }

    /// Classifies a storage failure. Never fails: every failure has a kind.
    pub fn classify(failure: &StorageFailure) -> (kind: SignupError)
        ensures
            kind == classified(failure@),
    {
        match failure {
            StorageFailure::Database { code: Some(code) } => {
                let unique = String::from_str("23505");
                if *code == unique {
                    SignupError::NonUniqueIdError
                } else {
                    SignupError::UnknownQueryError
                }
            },
            StorageFailure::Database { code: None } => SignupError::UnknownQueryError,
            StorageFailure::Other => SignupError::UnknownDatabaseError,
        }
    }

    /// The status that goes with this kind of signup error.
    #[verifier::when_used_as_spec(spec_status)]
    pub fn status(&self) -> (status: Status)
        ensures
            status == self.spec_status(),
    {
        match self {
            SignupError::NonUniqueIdError => Status::Conflict,
            _ => Status::InternalServerError,
        }
    }

    /// The user-facing message of this error.
    pub fn message(&self) -> (text: String)
        ensures
            text@ == self.message_text(),
    {
        match self {
            SignupError::NonUniqueIdError => String::from_str(
                "Duplicate username or email contained a duplicate key.",
            ),
            SignupError::UnknownQueryError => String::from_str(
                "Database query contained an unspecified error.",
            ),
            SignupError::UnknownDatabaseError => String::from_str(
                "Database error, not query related.",
            ),
        }
    }
}

impl From<sqlx::Error> for SignupError {
    fn from(error: sqlx::Error) -> (kind: SignupError) {
        let failure = read_failure(&error);
        SignupError::classify(&failure)
    }
}

impl FromSpecImpl<sqlx::Error> for SignupError {
    open spec fn obeys_from_spec() -> bool {
        true
    }

    open spec fn from_spec(error: sqlx::Error) -> SignupError {
        classified(failure_of(error))
    }
}

} // verus!
