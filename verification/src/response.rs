//! What a flow answers a request with, and how the answer is put on the wire:
//! a status code and a plain-text body.

use vstd::prelude::*;
use vstd::string::StringExecFns;
use crate::failure::{Failure, StatusClass};

verus! {

/// The answer to a request.  It has no room for a password or a hash.
#[derive(Clone, Debug, PartialEq, Eq)]
pub enum Response {
    /// The user was registered.
    Registered { username: String },
    /// The user was logged in and holds a new session token.
    LoggedIn { username: String, token: String },
    /// The request failed.
    Rejected(Failure),
}

/// An answer as plain text.
pub enum ResponseView {
    Registered { username: Seq<char> },
    LoggedIn { username: Seq<char>, token: Seq<char> },
    Rejected(Failure),
}

impl View for Response {
    type V = ResponseView;

    open spec fn view(&self) -> ResponseView {
        match *self {
            Response::Registered { username } => ResponseView::Registered { username: username@ },
            Response::LoggedIn { username, token } => ResponseView::LoggedIn {
                username: username@,
                token: token@,
            },
            Response::Rejected(failure) => ResponseView::Rejected(failure),
        }
    }
}

impl ResponseView {
    /// The status category of an answer.
    pub open spec fn class(self) -> StatusClass {
        match self {
            ResponseView::Registered { .. } | ResponseView::LoggedIn { .. } => StatusClass::Success,
            ResponseView::Rejected(failure) => failure.class(),
        }
    }

    /// The status code of an answer: created, ok, bad request or internal
    /// server error.
    pub open spec fn status_code(self) -> u16 {
        match self {
            ResponseView::Registered { .. } => 201,
            ResponseView::LoggedIn { .. } => 200,
            ResponseView::Rejected(failure) => if failure.is_internal() {
                500
            } else {
                400
            },
        }
    }

    /// The body of an answer.  An internal failure has an empty body: no
    /// detail of it reaches the client.
    pub open spec fn body(self) -> Seq<char> {
        match self {
            ResponseView::Registered { username } => "Registered "@ + username,
            ResponseView::LoggedIn { username, token } => "Logged In "@ + username + ": "@ + token,
            ResponseView::Rejected(Failure::PolicyViolation) => "Invalid Password"@,
            ResponseView::Rejected(Failure::InvalidCredentials) => "Invalid login information"@,
            ResponseView::Rejected(_) => Seq::empty(),
        }
    }
}

impl Response {
    /// The status category of the answer.
    pub fn class(&self) -> (class: StatusClass)
        ensures
            class == self@.class(),
    {
        match self {
            Response::Registered { .. } => StatusClass::Success,
            Response::LoggedIn { .. } => StatusClass::Success,
            Response::Rejected(failure) => failure.class(),
        }
    }

    /// The status code the answer is sent with.
    pub fn status_code(&self) -> (code: u16)
        ensures
            code == self@.status_code(),
    {
        match self {
            Response::Registered { .. } => 201,
            Response::LoggedIn { .. } => 200,
            Response::Rejected(failure) => if failure.is_internal() {
                500
            } else {
                400
            },
        }
    }

    /// The plain-text body the answer is sent with.
    pub fn body(&self) -> (body: String)
        ensures
            body@ == self@.body(),
    {
        match self {
            Response::Registered { username } => {
                let mut text = String::from_str("Registered ");
                text.append(username.as_str());
                text
            },
            Response::LoggedIn { username, token } => {
                let mut text = String::from_str("Logged In ");
                text.append(username.as_str());
                text.append(": ");
                text.append(token.as_str());
                text
            },
            Response::Rejected(Failure::PolicyViolation) => String::from_str("Invalid Password"),
            Response::Rejected(Failure::InvalidCredentials) => String::from_str(
                "Invalid login information",
            ),
            Response::Rejected(_) => String::new(),
        }
    }
}

/// The status code of an answer lies in the range of its category.
pub proof fn lemma_status_code_in_class(response: ResponseView)
    ensures
        response.class() == StatusClass::Success <==> 200 <= response.status_code() < 300,
        response.class() == StatusClass::ClientError <==> 400 <= response.status_code() < 500,
        response.class() == StatusClass::ServerError <==> 500 <= response.status_code() < 600,
{
}

/// An internal failure is answered with a server error and an empty body,
/// whatever its cause.
pub proof fn lemma_internal_failure_is_opaque(failure: Failure)
    requires
        failure.is_internal(),
    ensures
        ResponseView::Rejected(failure).class() == StatusClass::ServerError,
        ResponseView::Rejected(failure).status_code() == 500,
        ResponseView::Rejected(failure).body() == Seq::<char>::empty(),
{
}

} // verus!
