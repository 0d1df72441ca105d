//! The credentials that a request carries.

use vstd::prelude::*;

verus! {

/// A username and a password in plain text.  The password lives as long as
/// the request does: a flow hands it on to be hashed or verified and keeps no
/// copy.
#[derive(Clone, Debug, PartialEq, Eq)]
pub struct Credentials {
    pub username: String,
    pub password: String,
}

/// A request's credentials as plain text.
pub struct CredentialsView {
    pub username: Seq<char>,
    pub password: Seq<char>,
}

impl View for Credentials {
    type V = CredentialsView;

    open spec fn view(&self) -> CredentialsView {
        CredentialsView { username: self.username@, password: self.password@ }
    }
}

} // verus!
