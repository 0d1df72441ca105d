//! The settings the components are built from.  They are read once when the
//! process starts and handed to each flow by reference; nothing changes them
//! afterwards.

use vstd::prelude::*;
use crate::policy::PasswordPolicy;

verus! {

/// The text of an optional setting, if it is set.
pub open spec fn text_of(setting: Option<String>) -> Option<Seq<char>> {
    match setting {
        Some(text) => Some(text@),
        None => None,
    }
}

/// What the flows need to know of the process's configuration.
#[derive(Debug)]
pub struct Settings {
    /// The secret key that every hash is keyed with.  Without it nothing can
    /// be hashed or verified.
    pub secret: Option<String>,
    /// The policy that new passwords have to meet.
    pub policy: PasswordPolicy,
    /// A well-formed hash that belongs to no user.  Where it is set, a login
    /// under an unknown username is verified against it before it is turned
    /// down, so that it takes as long as one under a known username.  Where
    /// it is not set, such a login is turned down at once.
    pub placeholder_hash: Option<String>,
}

impl Settings {
    /// The secret key, if one is configured.
    pub open spec fn spec_secret(&self) -> Option<Seq<char>> {
        text_of(self.secret)
    }

    /// The placeholder hash, if one is configured.
    pub open spec fn spec_placeholder(&self) -> Option<Seq<char>> {
        text_of(self.placeholder_hash)
    }

    /// Settings with the given policy and secret, and no placeholder hash.
    pub fn new(policy: PasswordPolicy, secret: Option<String>) -> (settings: Settings)
        ensures
            settings.policy == policy,
            settings.secret == secret,
            settings.placeholder_hash is None,
    {
        Settings { secret, policy, placeholder_hash: None }
    }
}

} // verus!
