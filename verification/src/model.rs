//! The user record and the input from which one is created.

use vstd::prelude::*;

verus! {

/// The five fields that a caller supplies to create a user.
#[derive(Debug, Clone, PartialEq, Eq)]
pub struct CreateUserSchema {
    pub username: String,
    pub first_name: String,
    pub last_name: String,
    pub email: String,
    pub password: String,
}

/// The model of a [`CreateUserSchema`].
pub struct CreateUserView {
    pub username: Seq<char>,
    pub first_name: Seq<char>,
    pub last_name: Seq<char>,
    pub email: Seq<char>,
    pub password: Seq<char>,
}

impl View for CreateUserSchema {
    type V = CreateUserView;

    open spec fn view(&self) -> CreateUserView {
        CreateUserView {
            username: self.username@,
            first_name: self.first_name@,
            last_name: self.last_name@,
            email: self.email@,
            password: self.password@,
        }
    }
}

/// A stored user: the five supplied fields and the identifier that storage
/// assigned.
#[derive(Debug, Clone, PartialEq, Eq)]
pub struct UserModel {
    pub id: i64,
    pub username: String,
    pub first_name: String,
    pub last_name: String,
    pub email: String,
    pub password: String,
}

/// The model of a [`UserModel`].
pub struct UserView {
    pub id: int,
    pub username: Seq<char>,
    pub first_name: Seq<char>,
    pub last_name: Seq<char>,
    pub email: Seq<char>,
    pub password: Seq<char>,
}

impl View for UserModel {
    type V = UserView;

    open spec fn view(&self) -> UserView {
        UserView {
            id: self.id as int,
            username: self.username@,
            first_name: self.first_name@,
            last_name: self.last_name@,
            email: self.email@,
            password: self.password@,
        }
    }
}

impl DeepView for UserModel {
    type V = UserView;

    open spec fn deep_view(&self) -> UserView {
        self@
    }
}

} // verus!
