//! The registration flow: check the password against the policy, have it
//! hashed, have the new user stored, answer.

use vstd::prelude::*;
use crate::failure::{Failure, HashingFault, StoreFault};
use crate::credentials::{Credentials, CredentialsView};
use crate::response::{Response, ResponseView};
use crate::settings::Settings;

verus! {

/// The statement that stores a new user.  Its parameters are the username and
/// the password hash.
pub const INSERT_USER: &'static str = "INSERT INTO users (username, password_hash) VALUES($1, $2);";

/// How far a registration has come.
#[derive(Clone, Debug, PartialEq, Eq)]
pub enum RegisterState {
    /// The password meets the policy and is being hashed.
    Validated { username: String },
    /// The password is hashed and the user is being stored.
    Hashed { username: String },
    /// The user is stored and the response is out.
    Responded,
    /// The registration failed and the response is out.
    Failed(Failure),
}

/// What the registration flow asks its driver to do next.
#[derive(Clone, Debug, PartialEq, Eq)]
pub enum RegisterAction {
    /// Hash the password under the secret key, off the request's own thread.
    Hash { password: String, secret: String },
    /// Run [`INSERT_USER`] on a connection of the store.
    Store { username: String, password_hash: String },
    /// Send the response.  The request is over.
    Respond(Response),
}

/// What came of the work that the registration flow asked for.
#[derive(Clone, Debug, PartialEq, Eq)]
pub enum RegisterEvent {
    /// The password was hashed.
    Hashed { password_hash: String },
    /// The password could not be hashed.
    HashFailed(HashingFault),
    /// The store took the new user.
    Stored,
    /// The store did not take the new user.
    StoreFailed(StoreFault),
}

/// A registration's state, with its texts as plain sequences of characters.
pub enum RegisterStateView {
    Validated { username: Seq<char> },
    Hashed { username: Seq<char> },
    Responded,
    Failed(Failure),
}

/// An action of the registration flow, with its texts as plain sequences of
/// characters.
pub enum RegisterActionView {
    Hash { password: Seq<char>, secret: Seq<char> },
    Store { username: Seq<char>, password_hash: Seq<char> },
    Respond(ResponseView),
}

/// An event of the registration flow, with its texts as plain sequences of
/// characters.
pub enum RegisterEventView {
    Hashed { password_hash: Seq<char> },
    HashFailed(HashingFault),
    Stored,
    StoreFailed(StoreFault),
}

impl View for RegisterState {
    type V = RegisterStateView;

    open spec fn view(&self) -> RegisterStateView {
        match *self {
            RegisterState::Validated { username } => RegisterStateView::Validated {
                username: username@,
            },
            RegisterState::Hashed { username } => RegisterStateView::Hashed { username: username@ },
            RegisterState::Responded => RegisterStateView::Responded,
            RegisterState::Failed(failure) => RegisterStateView::Failed(failure),
        }
    }
}

impl View for RegisterAction {
    type V = RegisterActionView;

    open spec fn view(&self) -> RegisterActionView {
        match *self {
            RegisterAction::Hash { password, secret } => RegisterActionView::Hash {
                password: password@,
                secret: secret@,
            },
            RegisterAction::Store { username, password_hash } => RegisterActionView::Store {
                username: username@,
                password_hash: password_hash@,
            },
            RegisterAction::Respond(response) => RegisterActionView::Respond(response@),
        }
    }
}

impl View for RegisterEvent {
    type V = RegisterEventView;

    open spec fn view(&self) -> RegisterEventView {
        match *self {
            RegisterEvent::Hashed { password_hash } => RegisterEventView::Hashed {
                password_hash: password_hash@,
            },
            RegisterEvent::HashFailed(fault) => RegisterEventView::HashFailed(fault),
            RegisterEvent::Stored => RegisterEventView::Stored,
            RegisterEvent::StoreFailed(fault) => RegisterEventView::StoreFailed(fault),
        }
    }
}

/// The view of an action that may be absent.
pub open spec fn register_action_view(action: Option<RegisterAction>) -> Option<
    RegisterActionView,
> {
    match action {
        Some(action) => Some(action@),
        None => None,
    }
}

/// A registration that ends in `failure`: the state and the response.
pub open spec fn register_fail(failure: Failure) -> (RegisterStateView, RegisterActionView) {
    (
        RegisterStateView::Failed(failure),
        RegisterActionView::Respond(ResponseView::Rejected(failure)),
    )
}

/// How a registration starts.  `allowed` says whether the password meets the
/// policy.  A password that does not is turned down at once; one that does is
/// sent off to be hashed, unless there is no secret key to hash it with.
pub open spec fn register_begin(
    allowed: bool,
    secret: Option<Seq<char>>,
    credentials: CredentialsView,
) -> (RegisterStateView, RegisterActionView) {
    if !allowed {
        register_fail(Failure::PolicyViolation)
    } else {
        match secret {
            None => register_fail(Failure::HashingError(HashingFault::MissingSecret)),
            Some(key) => (
                RegisterStateView::Validated { username: credentials.username },
                RegisterActionView::Hash { password: credentials.password, secret: key },
            ),
        }
    }
}

/// How a registration goes on when `event` comes in: the next state, and the
/// next action if there is one.  An event that the state is not waiting for
/// changes nothing and asks for nothing.
pub open spec fn register_step(state: RegisterStateView, event: RegisterEventView) -> (
    RegisterStateView,
    Option<RegisterActionView>,
) {
    match (state, event) {
        (
            RegisterStateView::Validated { username },
            RegisterEventView::Hashed { password_hash },
        ) => (
            RegisterStateView::Hashed { username },
            Some(RegisterActionView::Store { username, password_hash }),
        ),
        (RegisterStateView::Validated { .. }, RegisterEventView::HashFailed(fault)) => {
            let (failed, respond) = register_fail(Failure::HashingError(fault));
            (failed, Some(respond))
        },
        (RegisterStateView::Hashed { username }, RegisterEventView::Stored) => (
            RegisterStateView::Responded,
            Some(RegisterActionView::Respond(ResponseView::Registered { username })),
        ),
        (RegisterStateView::Hashed { .. }, RegisterEventView::StoreFailed(fault)) => {
            let (failed, respond) = register_fail(Failure::StoreError(fault));
            (failed, Some(respond))
        },
        _ => (state, None),
    }
}

impl RegisterState {
    /// Whether the response is out, so that nothing more will be asked for.
    pub open spec fn spec_is_finished(&self) -> bool {
        *self is Responded || *self is Failed
    }

    /// Whether the response is out, so that nothing more will be asked for.
    #[verifier::when_used_as_spec(spec_is_finished)]
    pub fn is_finished(&self) -> (finished: bool)
        ensures
            finished == self.spec_is_finished(),
    {
        match self {
            RegisterState::Responded => true,
            RegisterState::Failed(_) => true,
            _ => false,
        }
    }

    /// Starts a registration whose password was already held against the
    /// policy, with `allowed` as the outcome.
    pub fn begin_checked(
        allowed: bool,
        secret: &Option<String>,
        credentials: Credentials,
    ) -> (started: (RegisterState, RegisterAction))
        ensures
            (started.0@, started.1@) == register_begin(
                allowed,
                crate::settings::text_of(*secret),
                credentials@,
            ),
    {
        if !allowed {
            return Self::fail(Failure::PolicyViolation);
        }
        match secret {
            None => Self::fail(Failure::HashingError(HashingFault::MissingSecret)),
            Some(key) => (
                RegisterState::Validated { username: credentials.username },
                RegisterAction::Hash { password: credentials.password, secret: key.clone() },
            ),
        }
    }

    /// Starts a registration: holds the password against the policy and asks
    /// for it to be hashed, or turns it down before anything else is done.
    pub fn begin(settings: &Settings, credentials: Credentials) -> (started: (
        RegisterState,
        RegisterAction,
    ))
        ensures
            (started.0@, started.1@) == register_begin(
                settings.policy.allows(credentials.password@),
                settings.spec_secret(),
                credentials@,
            ),
    {
        let allowed = settings.policy.validate(credentials.password.as_str());
        Self::begin_checked(allowed, &settings.secret, credentials)
    }

    /// Takes the outcome of the action asked for last and says what to do
    /// next.
    pub fn step(self, event: RegisterEvent) -> (next: (RegisterState, Option<RegisterAction>))
        ensures
            (next.0@, register_action_view(next.1)) == register_step(self@, event@),
    {
        match self {
            RegisterState::Validated { username } => match event {
                RegisterEvent::Hashed { password_hash } => {
                    let store = RegisterAction::Store { username: username.clone(), password_hash };
                    (RegisterState::Hashed { username }, Some(store))
                },
                RegisterEvent::HashFailed(fault) => {
                    let (failed, respond) = Self::fail(Failure::HashingError(fault));
                    (failed, Some(respond))
                },
                _ => (RegisterState::Validated { username }, None),
            },
            RegisterState::Hashed { username } => match event {
                RegisterEvent::Stored => (
                    RegisterState::Responded,
                    Some(RegisterAction::Respond(Response::Registered { username })),
                ),
                RegisterEvent::StoreFailed(fault) => {
                    let (failed, respond) = Self::fail(Failure::StoreError(fault));
                    (failed, Some(respond))
                },
                _ => (RegisterState::Hashed { username }, None),
            },
            finished => (finished, None),
        }
    }

    fn fail(failure: Failure) -> (failed: (RegisterState, RegisterAction))
        ensures
            (failed.0@, failed.1@) == register_fail(failure),
    {
        (RegisterState::Failed(failure), RegisterAction::Respond(Response::Rejected(failure)))
    }
}

} // verus!
