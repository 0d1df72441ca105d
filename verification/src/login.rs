//! The login flow: look the user up, have the password verified against the
//! stored hash, issue a session token, have the login recorded, answer.

use vstd::prelude::*;
use crate::failure::{Failure, HashingFault, StoreFault};
use crate::credentials::{Credentials, CredentialsView};
use crate::response::{Response, ResponseView};
use crate::settings::Settings;
use crate::token::{is_session_token, new_session_token};

verus! {

/// The statement that finds a user's id and password hash.  Its parameter is
/// the username.
pub const SELECT_USER: &'static str =
    "SELECT user_id, password_hash FROM users WHERE username = $1;";

/// The statement that records a login.  Its parameters are the user's id and
/// the session token; the store supplies the time.
pub const INSERT_LOGIN: &'static str = "INSERT INTO logins VALUES($1, 'now', $2)";

/// How far a login has come.  A login goes from received to looked up, to
/// verified, to token issued, to recorded, to responded, and may fail at the
/// lookup, at the verification or at the record.  The states here are those
/// in which it waits for its driver: it is verified and has its token issued
/// within one step, and is recorded and has responded within one step.
#[derive(Clone, Debug, PartialEq, Eq)]
pub enum LoginState {
    /// The request is in and the user is being looked up.
    Received { username: String, password: String },
    /// The user is known and the password is being verified against the
    /// stored hash.
    LookedUp { username: String, user_id: i32 },
    /// The user is unknown and the password is being verified against the
    /// placeholder hash, to no effect but the time it takes.
    Unknown,
    /// The password was verified, a token is issued and the login is being
    /// recorded.
    TokenIssued { username: String, token: String },
    /// The login is recorded and the response is out.
    Responded,
    /// The login failed and the response is out.
    Failed(Failure),
}

/// What the login flow asks its driver to do next.
#[derive(Clone, Debug, PartialEq, Eq)]
pub enum LoginAction {
    /// Run [`SELECT_USER`] on a connection of the store.
    Lookup { username: String },
    /// Verify the password against the hash under the secret key, off the
    /// request's own thread.
    Verify { stored_hash: String, password: String, secret: String },
    /// Run [`INSERT_LOGIN`] on the connection.
    Record { user_id: i32, token: String },
    /// Send the response.  The request is over.
    Respond(Response),
}

/// What came of the work that the login flow asked for.
#[derive(Clone, Debug, PartialEq, Eq)]
pub enum LoginEvent {
    /// The store has a user of that name.
    Found { user_id: i32, password_hash: String },
    /// The store has no user of that name.
    NotFound,
    /// The store could not be asked.
    LookupFailed(StoreFault),
    /// The verification ran; the flag says whether the password matches.
    Verified(bool),
    /// The verification could not run.
    VerifyFailed(HashingFault),
    /// The store took the login record.
    Recorded,
    /// The store did not take the login record.
    RecordFailed(StoreFault),
}

/// A login's state, with its texts as plain sequences of characters.
pub enum LoginStateView {
    Received { username: Seq<char>, password: Seq<char> },
    LookedUp { username: Seq<char>, user_id: i32 },
    Unknown,
    TokenIssued { username: Seq<char>, token: Seq<char> },
    Responded,
    Failed(Failure),
}

/// An action of the login flow, with its texts as plain sequences of characters.
pub enum LoginActionView {
    Lookup { username: Seq<char> },
    Verify { stored_hash: Seq<char>, password: Seq<char>, secret: Seq<char> },
    Record { user_id: i32, token: Seq<char> },
    Respond(ResponseView),
}

/// An event of the login flow, with its texts as plain sequences of characters.
pub enum LoginEventView {
    Found { user_id: i32, password_hash: Seq<char> },
    NotFound,
    LookupFailed(StoreFault),
    Verified(bool),
    VerifyFailed(HashingFault),
    Recorded,
    RecordFailed(StoreFault),
}

impl View for LoginState {
    type V = LoginStateView;

    open spec fn view(&self) -> LoginStateView {
        match *self {
            LoginState::Received { username, password } => LoginStateView::Received {
                username: username@,
                password: password@,
            },
            LoginState::LookedUp { username, user_id } => LoginStateView::LookedUp {
                username: username@,
                user_id,
            },
            LoginState::Unknown => LoginStateView::Unknown,
            LoginState::TokenIssued { username, token } => LoginStateView::TokenIssued {
                username: username@,
                token: token@,
            },
            LoginState::Responded => LoginStateView::Responded,
            LoginState::Failed(failure) => LoginStateView::Failed(failure),
        }
    }
}

impl View for LoginAction {
    type V = LoginActionView;

    open spec fn view(&self) -> LoginActionView {
        match *self {
            LoginAction::Lookup { username } => LoginActionView::Lookup { username: username@ },
            LoginAction::Verify { stored_hash, password, secret } => LoginActionView::Verify {
                stored_hash: stored_hash@,
                password: password@,
                secret: secret@,
            },
            LoginAction::Record { user_id, token } => LoginActionView::Record {
                user_id,
                token: token@,
            },
            LoginAction::Respond(response) => LoginActionView::Respond(response@),
        }
    }
}

impl View for LoginEvent {
    type V = LoginEventView;

    open spec fn view(&self) -> LoginEventView {
        match *self {
            LoginEvent::Found { user_id, password_hash } => LoginEventView::Found {
                user_id,
                password_hash: password_hash@,
            },
            LoginEvent::NotFound => LoginEventView::NotFound,
            LoginEvent::LookupFailed(fault) => LoginEventView::LookupFailed(fault),
            LoginEvent::Verified(matches) => LoginEventView::Verified(matches),
            LoginEvent::VerifyFailed(fault) => LoginEventView::VerifyFailed(fault),
            LoginEvent::Recorded => LoginEventView::Recorded,
            LoginEvent::RecordFailed(fault) => LoginEventView::RecordFailed(fault),
        }
    }
}

/// The view of an action that may be absent.
pub open spec fn login_action_view(action: Option<LoginAction>) -> Option<LoginActionView> {
    match action {
        Some(action) => Some(action@),
        None => None,
    }
}

/// The settings that bear on a login, as plain text.
pub struct LoginSettings {
    /// The secret key, if one is configured.
    pub secret: Option<Seq<char>>,
    /// The placeholder hash, if one is configured.
    pub placeholder: Option<Seq<char>>,
}

/// A login that ends in `failure`: the state and the response.
pub open spec fn login_fail(failure: Failure) -> (LoginStateView, Option<LoginActionView>) {
    (
        LoginStateView::Failed(failure),
        Some(LoginActionView::Respond(ResponseView::Rejected(failure))),
    )
}

/// How a login starts: with the lookup of the user.
pub open spec fn login_begin(credentials: CredentialsView) -> (LoginStateView, LoginActionView) {
    (
        LoginStateView::Received {
            username: credentials.username,
            password: credentials.password,
        },
        LoginActionView::Lookup { username: credentials.username },
    )
}

/// Whether `event` is the one on which `state` issues a token: the password
/// of a known user was verified and matches.
pub open spec fn login_issues_token(state: LoginStateView, event: LoginEventView) -> bool {
    state is LookedUp && event == LoginEventView::Verified(true)
}

/// How a login goes on when `event` comes in: the next state, and the next
/// action if there is one.  `token` is the token to issue if one is issued
/// (see [`login_issues_token`]).  An event that the state is not waiting for
/// changes nothing and asks for nothing.
pub open spec fn login_step(
    state: LoginStateView,
    event: LoginEventView,
    settings: LoginSettings,
    token: Seq<char>,
) -> (LoginStateView, Option<LoginActionView>) {
    match (state, event) {
        (
            LoginStateView::Received { username, password },
            LoginEventView::Found { user_id, password_hash },
        ) => match settings.secret {
            None => login_fail(Failure::HashingError(HashingFault::MissingSecret)),
            Some(key) => (
                LoginStateView::LookedUp { username, user_id },
                Some(LoginActionView::Verify { stored_hash: password_hash, password, secret: key }),
            ),
        },
        (LoginStateView::Received { username, password }, LoginEventView::NotFound) => match (
            settings.placeholder,
            settings.secret,
        ) {
            (None, _) => login_fail(Failure::InvalidCredentials),
            (Some(_), None) => login_fail(Failure::HashingError(HashingFault::MissingSecret)),
            (Some(placeholder), Some(key)) => (
                LoginStateView::Unknown,
                Some(LoginActionView::Verify { stored_hash: placeholder, password, secret: key }),
            ),
        },
        (LoginStateView::Received { .. }, LoginEventView::LookupFailed(fault)) => login_fail(
            Failure::StoreError(fault),
        ),
        (LoginStateView::LookedUp { username, user_id }, LoginEventView::Verified(true)) => (
            LoginStateView::TokenIssued { username, token },
            Some(LoginActionView::Record { user_id, token }),
        ),
        (LoginStateView::LookedUp { .. }, LoginEventView::Verified(false)) => login_fail(
            Failure::InvalidCredentials,
        ),
        (LoginStateView::LookedUp { .. }, LoginEventView::VerifyFailed(fault)) => login_fail(
            Failure::HashingError(fault),
        ),
        (LoginStateView::Unknown, LoginEventView::Verified(_)) => login_fail(
            Failure::InvalidCredentials,
        ),
        (LoginStateView::Unknown, LoginEventView::VerifyFailed(fault)) => login_fail(
            Failure::HashingError(fault),
        ),
        (LoginStateView::TokenIssued { username, token: issued }, LoginEventView::Recorded) => (
            LoginStateView::Responded,
            Some(LoginActionView::Respond(ResponseView::LoggedIn { username, token: issued })),
        ),
        (LoginStateView::TokenIssued { .. }, LoginEventView::RecordFailed(fault)) => login_fail(
            Failure::StoreError(fault),
        ),
        _ => (state, None),
    }
}

impl LoginStateView {
    /// The token that the state holds: the one that was issued, or the empty
    /// text where none was.
    pub open spec fn issued_token(self) -> Seq<char> {
        match self {
            LoginStateView::TokenIssued { token, .. } => token,
            _ => Seq::empty(),
        }
    }
}

impl Settings {
    /// The settings that bear on a login.
    pub open spec fn for_login(&self) -> LoginSettings {
        LoginSettings { secret: self.spec_secret(), placeholder: self.spec_placeholder() }
    }
}

impl LoginState {
    /// Whether the response is out, so that nothing more will be asked for.
    pub open spec fn spec_is_finished(&self) -> bool {
        *self is Responded || *self is Failed
    }

    /// Whether the response is out, so that nothing more will be asked for.
    #[verifier::when_used_as_spec(spec_is_finished)]
    pub fn is_finished(&self) -> (finished: bool)
        ensures
            finished == self.spec_is_finished(),
    {
        match self {
            LoginState::Responded => true,
            LoginState::Failed(_) => true,
            _ => false,
        }
    }

    /// Starts a login by asking for the user to be looked up.
    pub fn begin(credentials: Credentials) -> (started: (LoginState, LoginAction))
        ensures
            (started.0@, started.1@) == login_begin(credentials@),
    {
        let lookup = LoginAction::Lookup { username: credentials.username.clone() };
        (
            LoginState::Received { username: credentials.username, password: credentials.password },
            lookup,
        )
    }

    /// Takes the outcome of the action asked for last and says what to do
    /// next, issuing `token` if this is the step that issues one.
    pub fn step_with_token(self, settings: &Settings, event: LoginEvent, token: String) -> (next: (
        LoginState,
        Option<LoginAction>,
    ))
        ensures
            (next.0@, login_action_view(next.1)) == login_step(
                self@,
                event@,
                settings.for_login(),
                token@,
            ),
    {
        match self {
            LoginState::Received { username, password } => match event {
                LoginEvent::Found { user_id, password_hash } => match &settings.secret {
                    None => Self::fail(Failure::HashingError(HashingFault::MissingSecret)),
                    Some(key) => (
                        LoginState::LookedUp { username, user_id },
                        Some(
                            LoginAction::Verify {
                                stored_hash: password_hash,
                                password,
                                secret: key.clone(),
                            },
                        ),
                    ),
                },
                LoginEvent::NotFound => match &settings.placeholder_hash {
                    None => Self::fail(Failure::InvalidCredentials),
                    Some(placeholder) => match &settings.secret {
                        None => Self::fail(Failure::HashingError(HashingFault::MissingSecret)),
                        Some(key) => (
                            LoginState::Unknown,
                            Some(
                                LoginAction::Verify {
                                    stored_hash: placeholder.clone(),
                                    password,
                                    secret: key.clone(),
                                },
                            ),
                        ),
                    },
                },
                LoginEvent::LookupFailed(fault) => Self::fail(Failure::StoreError(fault)),
                _ => (LoginState::Received { username, password }, None),
            },
            LoginState::LookedUp { username, user_id } => match event {
                LoginEvent::Verified(true) => {
                    let record = LoginAction::Record { user_id, token: token.clone() };
                    (LoginState::TokenIssued { username, token }, Some(record))
                },
                LoginEvent::Verified(false) => Self::fail(Failure::InvalidCredentials),
                LoginEvent::VerifyFailed(fault) => Self::fail(Failure::HashingError(fault)),
                _ => (LoginState::LookedUp { username, user_id }, None),
            },
            LoginState::Unknown => match event {
                LoginEvent::Verified(_) => Self::fail(Failure::InvalidCredentials),
                LoginEvent::VerifyFailed(fault) => Self::fail(Failure::HashingError(fault)),
                _ => (LoginState::Unknown, None),
            },
            LoginState::TokenIssued { username, token: issued } => match event {
                LoginEvent::Recorded => (
                    LoginState::Responded,
                    Some(LoginAction::Respond(Response::LoggedIn { username, token: issued })),
                ),
                LoginEvent::RecordFailed(fault) => Self::fail(Failure::StoreError(fault)),
                _ => (LoginState::TokenIssued { username, token: issued }, None),
            },
            finished => (finished, None),
        }
    }

    /// Whether `event` is the one on which this state issues a token.
    pub fn issues_token(&self, event: &LoginEvent) -> (issues: bool)
        ensures
            issues == login_issues_token(self@, event@),
    {
        match self {
            LoginState::LookedUp { .. } => match event {
                LoginEvent::Verified(true) => true,
                _ => false,
            },
            _ => false,
        }
    }

    /// Takes the outcome of the action asked for last and says what to do
    /// next.  Where the password of a known user was verified, a fresh
    /// session token is drawn and issued; which token that is, is the one
    /// thing the outcome does not depend on the arguments for.
    pub fn step(self, settings: &Settings, event: LoginEvent) -> (next: (
        LoginState,
        Option<LoginAction>,
    ))
        ensures
            login_issues_token(self@, event@) ==> is_session_token(next.0@.issued_token()),
            (next.0@, login_action_view(next.1)) == login_step(
                self@,
                event@,
                settings.for_login(),
                next.0@.issued_token(),
            ),
    {
        if self.issues_token(&event) {
            let token = new_session_token();
            self.step_with_token(settings, event, token)
        } else {
            proof {
                lemma_token_only_matters_when_issued(
                    self@,
                    event@,
                    settings.for_login(),
                    Seq::empty(),
                    login_step(self@, event@, settings.for_login(), Seq::empty()).0.issued_token(),
                );
            }
            self.step_with_token(settings, event, String::new())
        }
    }

    fn fail(failure: Failure) -> (failed: (LoginState, Option<LoginAction>))
        ensures
            (failed.0@, login_action_view(failed.1)) == login_fail(failure),
    {
        (LoginState::Failed(failure), Some(LoginAction::Respond(Response::Rejected(failure))))
    }
}

/// On a step that issues no token, the outcome is the same whatever token is
/// offered.
pub proof fn lemma_token_only_matters_when_issued(
    state: LoginStateView,
    event: LoginEventView,
    settings: LoginSettings,
    token: Seq<char>,
    other: Seq<char>,
)
    requires
        !login_issues_token(state, event),
    ensures
        login_step(state, event, settings, token) == login_step(state, event, settings, other),
{
}

} // verus!
