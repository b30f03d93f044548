//! Capability tokens: credential strings bound to the capability they were
//! issued for.

use std::marker::PhantomData;
use vstd::prelude::*;

verus! {

/// A capability that the server issues tokens for.
///
/// `in_type` is the name under which a token of this kind is asked for,
/// `out_type` the name of the field in which the server hands it out.
pub trait TokenType {
    /// The characters of [`TokenType::in_type`].
    spec fn in_name() -> Seq<char>;

    /// The characters of [`TokenType::out_type`].
    spec fn out_name() -> Seq<char>;

    fn in_type() -> (name: &'static str)
        ensures
            name@ == Self::in_name(),
    ;

    fn out_type() -> (name: &'static str)
        ensures
            name@ == Self::out_name(),
    ;
}

/// A token of kind `T`. The kind exists only in the type: a token fetched
/// for one capability cannot be passed where another is expected.
#[derive(Debug)]
pub struct Token<T>(pub(crate) String, pub(crate) PhantomData<T>);

impl<T> View for Token<T> {
    type V = Seq<char>;

    closed spec fn view(&self) -> Seq<char> {
        self.0@
    }
}

impl<T> Token<T> {
    /// Wraps a credential string.
    pub fn new(token: &str) -> (wrapped: Token<T>)
        ensures
            wrapped@ == token@,
    {
        Token(token.to_owned(), PhantomData)
    }

    /// The credential string.
    pub fn value(&self) -> (token: &str)
        ensures
            token@ == self@,
    {
        self.0.as_str()
    }
}

#[derive(Debug)]
pub struct CreateAccount;

impl TokenType for CreateAccount {
    open spec fn in_name() -> Seq<char> {
        "createaccount"@
    }

    open spec fn out_name() -> Seq<char> {
        "createaccounttoken"@
    }

    fn in_type() -> &'static str {
        "createaccount"
    }

    fn out_type() -> &'static str {
        "createaccounttoken"
    }
}

#[derive(Debug)]
pub struct Csrf;

impl TokenType for Csrf {
    open spec fn in_name() -> Seq<char> {
        "csrf"@
    }

    open spec fn out_name() -> Seq<char> {
        "csrftoken"@
    }

    fn in_type() -> &'static str {
        "csrf"
    }

    fn out_type() -> &'static str {
        "csrftoken"
    }
}

#[derive(Debug)]
pub struct Login;

impl TokenType for Login {
    open spec fn in_name() -> Seq<char> {
        "login"@
    }

    open spec fn out_name() -> Seq<char> {
        "logintoken"@
    }

    fn in_type() -> &'static str {
        "login"
    }

    fn out_type() -> &'static str {
        "logintoken"
    }
}

#[derive(Debug)]
pub struct Patrol;

impl TokenType for Patrol {
    open spec fn in_name() -> Seq<char> {
        "patrol"@
    }

    open spec fn out_name() -> Seq<char> {
        "patroltoken"@
    }

    fn in_type() -> &'static str {
        "patrol"
    }

    fn out_type() -> &'static str {
        "patroltoken"
    }
}

#[derive(Debug)]
pub struct Rollback;

impl TokenType for Rollback {
    open spec fn in_name() -> Seq<char> {
        "rollback"@
    }

    open spec fn out_name() -> Seq<char> {
        "rollbacktoken"@
    }

    fn in_type() -> &'static str {
        "rollback"
    }

    fn out_type() -> &'static str {
        "rollbacktoken"
    }
}

#[derive(Debug)]
pub struct UserRights;

impl TokenType for UserRights {
    open spec fn in_name() -> Seq<char> {
        "userrights"@
    }

    open spec fn out_name() -> Seq<char> {
        "userrightstoken"@
    }

    fn in_type() -> &'static str {
        "userrights"
    }

    fn out_type() -> &'static str {
        "userrightstoken"
    }
}

#[derive(Debug)]
pub struct Watch;

impl TokenType for Watch {
    open spec fn in_name() -> Seq<char> {
        "watch"@
    }

    open spec fn out_name() -> Seq<char> {
        "watchtoken"@
    }

    fn in_type() -> &'static str {
        "watch"
    }

    fn out_type() -> &'static str {
        "watchtoken"
    }
}

} // verus!
