//! What the service asks of storage: one statement for each of the four
//! operations on the relation of users, with the values bound to it.

use crate::model::{CreateUserSchema, CreateUserView};
use vstd::prelude::*;

verus! {

/// A value bound to a placeholder of a statement.
#[derive(Debug, Clone, PartialEq, Eq)]
pub enum Param {
    Int(i64),
    Text(String),
}

/// The model of a [`Param`].
pub enum ParamView {
    Int(int),
    Text(Seq<char>),
}

impl View for Param {
    type V = ParamView;

    open spec fn view(&self) -> ParamView {
        match self {
            Param::Int(number) => ParamView::Int(*number as int),
            Param::Text(text) => ParamView::Text(text@),
        }
    }
}

impl DeepView for Param {
    type V = ParamView;

    open spec fn deep_view(&self) -> ParamView {
        self@
    }
}

/// One statement: its text, with placeholders `$1`, `$2`, ..., and the
/// values bound to them, in that order.
#[derive(Debug, Clone, PartialEq, Eq)]
pub struct Statement {
    pub sql: &'static str,
    pub params: Vec<Param>,
}

/// The model of a [`Statement`].
pub struct StatementView {
    pub sql: Seq<char>,
    pub params: Seq<ParamView>,
}

impl View for Statement {
    type V = StatementView;

    open spec fn view(&self) -> StatementView {
        StatementView { sql: self.sql@, params: self.params.deep_view() }
    }
}

/// The statement that reads every user.
pub open spec fn list_statement() -> StatementView {
    StatementView { sql: "SELECT * FROM user_profile"@, params: seq![] }
}

/// The statement that stores a new user and returns the stored row. It
/// binds the five supplied fields in the order of the columns that it names.
pub open spec fn insert_statement(user: CreateUserView) -> StatementView {
    StatementView {
        sql: "INSERT INTO user_profile (username, first_name, last_name, email, password) VALUES ($1, $2, $3, $4, $5) RETURNING *"@,
        params: seq![
            ParamView::Text(user.username),
            ParamView::Text(user.first_name),
            ParamView::Text(user.last_name),
            ParamView::Text(user.email),
            ParamView::Text(user.password),
        ],
    }
}

/// The statement that reads the user with one identifier.
pub open spec fn fetch_statement(id: int) -> StatementView {
    StatementView { sql: "SELECT * FROM user_profile WHERE id = $1"@, params: seq![ParamView::Int(id)] }
}

/// The statement that removes the user with one identifier.
pub open spec fn delete_statement(id: int) -> StatementView {
    StatementView { sql: "DELETE FROM user_profile WHERE id = $1"@, params: seq![ParamView::Int(id)] }
}

impl Statement {
    /// Reads every user, in the order of storage.
    pub fn list_users() -> (statement: Statement)
        ensures
            statement@ == list_statement(),
    {
        let statement = Statement { sql: "SELECT * FROM user_profile", params: Vec::new() };
        assert(statement.params.deep_view() =~= seq![]);
        statement
    }

    /// Stores a new user; storage assigns the identifier.
    pub fn insert_user(user: &CreateUserSchema) -> (statement: Statement)
        ensures
            statement@ == insert_statement(user@),
    {
        let mut params: Vec<Param> = Vec::new();
        params.push(Param::Text(user.username.clone()));
        params.push(Param::Text(user.first_name.clone()));
        params.push(Param::Text(user.last_name.clone()));
        params.push(Param::Text(user.email.clone()));
        params.push(Param::Text(user.password.clone()));
        assert(params.deep_view() =~= insert_statement(user@).params);
        Statement {
            sql: "INSERT INTO user_profile (username, first_name, last_name, email, password) VALUES ($1, $2, $3, $4, $5) RETURNING *",
            params,
        }
    }

    /// Reads the user with this identifier, if there is one.
    pub fn fetch_user(id: i64) -> (statement: Statement)
        ensures
            statement@ == fetch_statement(id as int),
    {
        let mut params: Vec<Param> = Vec::new();
        params.push(Param::Int(id));
        assert(params.deep_view() =~= seq![ParamView::Int(id as int)]);
        Statement { sql: "SELECT * FROM user_profile WHERE id = $1", params }
    }

    /// Removes the user with this identifier, if there is one.
    pub fn delete_user(id: i64) -> (statement: Statement)
        ensures
            statement@ == delete_statement(id as int),
    {
        let mut params: Vec<Param> = Vec::new();
        params.push(Param::Int(id));
        assert(params.deep_view() =~= seq![ParamView::Int(id as int)]);
        Statement { sql: "DELETE FROM user_profile WHERE id = $1", params }
    }
}

} // verus!
