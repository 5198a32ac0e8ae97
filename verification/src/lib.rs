//! The verified core of a small user-management service: what is asked of
//! storage, how its answers become HTTP replies, how its failures are
//! classified, and which access-control headers every response carries.

pub mod cors;
pub mod error;
pub mod location;
pub mod model;
pub mod statement;
pub mod status;
pub mod users;

pub use cors::CORS;
pub use error::{SignupError, StorageFailure};
pub use location::location;
pub use model::{CreateUserSchema, UserModel};
pub use statement::{Param, Statement};
pub use status::Status;
pub use users::{
    answer_signup, create_user, delete_user, get_user, list_users, signup_user, Reply,
};
