//! Whole logins: what the flow asks for over any sequence of events, and what
//! that says about tokens, login records and responses.

use vstd::prelude::*;
use crate::failure::{Failure, StatusClass};
use crate::login::{
    login_begin, login_step, LoginActionView, LoginEventView, LoginSettings, LoginStateView,
};
use crate::credentials::CredentialsView;
use crate::response::ResponseView;

verus! {

/// Runs a login from `state` through `events`, one step for each, and appends
/// the actions it asks for to `asked`.  `token` is the token to issue.
pub open spec fn login_run(
    state: LoginStateView,
    asked: Seq<LoginActionView>,
    events: Seq<LoginEventView>,
    settings: LoginSettings,
    token: Seq<char>,
) -> (LoginStateView, Seq<LoginActionView>)
    decreases events.len(),
{
    if events.len() == 0 {
        (state, asked)
    } else {
        let (next, action) = login_step(state, events.first(), settings, token);
        let asked = match action {
            Some(action) => asked.push(action),
            None => asked,
        };
        login_run(next, asked, events.drop_first(), settings, token)
    }
}

/// A whole login: the state it ends in and all it asked for, from the lookup
/// on, when its driver answers with `events`.
pub open spec fn login_session(
    credentials: CredentialsView,
    events: Seq<LoginEventView>,
    settings: LoginSettings,
    token: Seq<char>,
) -> (LoginStateView, Seq<LoginActionView>) {
    let (state, lookup) = login_begin(credentials);
    login_run(state, seq![lookup], events, settings, token)
}

/// How many login records the actions ask for.
pub open spec fn records_asked(asked: Seq<LoginActionView>) -> nat
    decreases asked.len(),
{
    if asked.len() == 0 {
        0
    } else {
        records_asked(asked.drop_last()) + if asked.last() is Record {
            1nat
        } else {
            0nat
        }
    }
}

/// How many responses the actions ask for.
pub open spec fn responses_asked(asked: Seq<LoginActionView>) -> nat
    decreases asked.len(),
{
    if asked.len() == 0 {
        0
    } else {
        responses_asked(asked.drop_last()) + if asked.last() is Respond {
            1nat
        } else {
            0nat
        }
    }
}

/// What holds of a login's state and of all it has asked for so far.
pub open spec fn login_coherent(
    state: LoginStateView,
    asked: Seq<LoginActionView>,
    token: Seq<char>,
) -> bool {
    &&& asked.len() > 0
    &&& match state {
        LoginStateView::Received { .. }
        | LoginStateView::LookedUp { .. }
        | LoginStateView::Unknown => {
            &&& records_asked(asked) == 0
            &&& responses_asked(asked) == 0
        },
        LoginStateView::TokenIssued { token: issued, .. } => {
            &&& issued == token
            &&& records_asked(asked) == 1
            &&& responses_asked(asked) == 0
        },
        LoginStateView::Responded => {
            &&& records_asked(asked) == 1
            &&& responses_asked(asked) == 1
            &&& asked.last() matches LoginActionView::Respond(
                ResponseView::LoggedIn { token: issued, .. },
            )
            &&& issued == token
        },
        LoginStateView::Failed(failure) => {
            &&& records_asked(asked) <= 1
            &&& responses_asked(asked) == 1
            &&& asked.last() == LoginActionView::Respond(ResponseView::Rejected(failure))
            &&& !(failure is StoreError) ==> records_asked(asked) == 0
        },
    }
}

proof fn lemma_counts_push(asked: Seq<LoginActionView>, action: LoginActionView)
    ensures
        records_asked(asked.push(action)) == records_asked(asked) + if action is Record {
            1nat
        } else {
            0nat
        },
        responses_asked(asked.push(action)) == responses_asked(asked) + if action is Respond {
            1nat
        } else {
            0nat
        },
{
    assert(asked.push(action).drop_last() =~= asked);
}

proof fn lemma_step_keeps_coherent(
    state: LoginStateView,
    asked: Seq<LoginActionView>,
    event: LoginEventView,
    settings: LoginSettings,
    token: Seq<char>,
)
    requires
        login_coherent(state, asked, token),
    ensures
        ({
            let (next, action) = login_step(state, event, settings, token);
            match action {
                Some(action) => login_coherent(next, asked.push(action), token),
                None => next == state,
            }
        }),
{
    let (next, action) = login_step(state, event, settings, token);
    if let Some(action) = action {
        lemma_counts_push(asked, action);
    }
}

proof fn lemma_run_keeps_coherent(
    state: LoginStateView,
    asked: Seq<LoginActionView>,
    events: Seq<LoginEventView>,
    settings: LoginSettings,
    token: Seq<char>,
)
    requires
        login_coherent(state, asked, token),
    ensures
        ({
            let (end, all) = login_run(state, asked, events, settings, token);
            login_coherent(end, all, token)
        }),
    decreases events.len(),
{
    if events.len() > 0 {
        let (next, action) = login_step(state, events.first(), settings, token);
        lemma_step_keeps_coherent(state, asked, events.first(), settings, token);
        let asked = match action {
            Some(action) => asked.push(action),
            None => asked,
        };
        lemma_run_keeps_coherent(next, asked, events.drop_first(), settings, token);
    }
}

/// Once the response is out, a login asks for nothing more, whatever comes in.
pub proof fn lemma_login_finished_stays(
    state: LoginStateView,
    asked: Seq<LoginActionView>,
    events: Seq<LoginEventView>,
    settings: LoginSettings,
    token: Seq<char>,
)
    requires
        state is Responded || state is Failed,
    ensures
        login_run(state, asked, events, settings, token) == (state, asked),
    decreases events.len(),
{
    if events.len() > 0 {
        lemma_login_finished_stays(state, asked, events.drop_first(), settings, token);
    }
}

/// Whatever its driver answers, a login asks for at most one login record and
/// at most one response, and for a response exactly when it has finished.  A
/// login that succeeds has asked for exactly one record, and its response
/// carries the token that was issued.  A login that fails answers with its
/// failure, and has asked for no record unless it is the store that failed.
pub proof fn lemma_login_records_and_responses(
    credentials: CredentialsView,
    events: Seq<LoginEventView>,
    settings: LoginSettings,
    token: Seq<char>,
)
    ensures
        ({
            let (end, asked) = login_session(credentials, events, settings, token);
            &&& records_asked(asked) <= 1
            &&& responses_asked(asked) <= 1
            &&& responses_asked(asked) == 1 <==> (end is Responded || end is Failed)
            &&& end is Responded ==> {
                &&& records_asked(asked) == 1
                &&& asked.last() matches LoginActionView::Respond(
                    ResponseView::LoggedIn { token: issued, .. },
                )
                &&& issued == token
            }
            &&& end matches LoginStateView::Failed(failure) ==> {
                &&& asked.last() == LoginActionView::Respond(ResponseView::Rejected(failure))
                &&& !(failure is StoreError) ==> records_asked(asked) == 0
            }
        }),
{
    let (state, lookup) = login_begin(credentials);
    let asked = seq![lookup];
    lemma_counts_push(Seq::empty(), lookup);
    lemma_run_keeps_coherent(state, asked, events, settings, token);
}

/// A run takes its first event in one step and goes on with the rest.
pub proof fn lemma_login_run_unfolds(
    state: LoginStateView,
    asked: Seq<LoginActionView>,
    event: LoginEventView,
    rest: Seq<LoginEventView>,
    settings: LoginSettings,
    token: Seq<char>,
)
    ensures
        login_run(state, asked, seq![event] + rest, settings, token) == ({
            let (next, action) = login_step(state, event, settings, token);
            let asked = match action {
                Some(action) => asked.push(action),
                None => asked,
            };
            login_run(next, asked, rest, settings, token)
        }),
{
    let events = seq![event] + rest;
    assert(events.first() == event);
    assert(events.drop_first() =~= rest);
}

/// A login with the right password: the user is found, the password matches
/// and the store takes the record.  The flow asks for the lookup, for the
/// verification of the password against the stored hash, for one login record
/// that binds the issued token to the user, and for a success response that
/// carries the username and the same token.  Nothing that comes in later adds
/// to that.
pub proof fn lemma_login_success(
    credentials: CredentialsView,
    user_id: i32,
    password_hash: Seq<char>,
    secret: Seq<char>,
    settings: LoginSettings,
    token: Seq<char>,
    later: Seq<LoginEventView>,
)
    requires
        settings.secret == Some(secret),
    ensures
        ({
            let events = seq![
                LoginEventView::Found { user_id, password_hash },
                LoginEventView::Verified(true),
                LoginEventView::Recorded,
            ] + later;
            let respond = LoginActionView::Respond(
                ResponseView::LoggedIn { username: credentials.username, token },
            );
            &&& login_session(credentials, events, settings, token) == (
                LoginStateView::Responded,
                seq![
                    LoginActionView::Lookup { username: credentials.username },
                    LoginActionView::Verify {
                        stored_hash: password_hash,
                        password: credentials.password,
                        secret,
                    },
                    LoginActionView::Record { user_id, token },
                    respond,
                ],
            )
            &&& respond->0.class() == StatusClass::Success
        }),
{
    let found = LoginEventView::Found { user_id, password_hash };
    let verified = LoginEventView::Verified(true);
    let recorded = LoginEventView::Recorded;
    let lookup = LoginActionView::Lookup { username: credentials.username };
    let verify = LoginActionView::Verify {
        stored_hash: password_hash,
        password: credentials.password,
        secret,
    };
    let record = LoginActionView::Record { user_id, token };
    let respond = LoginActionView::Respond(
        ResponseView::LoggedIn { username: credentials.username, token },
    );
    let received = login_begin(credentials).0;
    let looked_up = LoginStateView::LookedUp { username: credentials.username, user_id };
    let issued = LoginStateView::TokenIssued { username: credentials.username, token };
    let responded = LoginStateView::Responded;
    let after_verified = seq![recorded] + later;
    let after_found = seq![verified] + after_verified;
    assert(seq![found, verified, recorded] + later =~= seq![found] + after_found);
    let asked = seq![lookup].push(verify).push(record).push(respond);
    assert(asked =~= seq![lookup, verify, record, respond]);
    lemma_login_run_unfolds(received, seq![lookup], found, after_found, settings, token);
    lemma_login_run_unfolds(
        looked_up,
        seq![lookup].push(verify),
        verified,
        after_verified,
        settings,
        token,
    );
    lemma_login_run_unfolds(
        issued,
        seq![lookup].push(verify).push(record),
        recorded,
        later,
        settings,
        token,
    );
    lemma_login_finished_stays(responded, asked, later, settings, token);
}

/// A login with a wrong password: the user is found and the password does not
/// match.  The flow asks for the lookup and the verification, then answers
/// that the credentials are invalid, a client error.  It asks for no login
/// record, whatever comes in later.
pub proof fn lemma_login_wrong_password(
    credentials: CredentialsView,
    user_id: i32,
    password_hash: Seq<char>,
    secret: Seq<char>,
    settings: LoginSettings,
    token: Seq<char>,
    later: Seq<LoginEventView>,
)
    requires
        settings.secret == Some(secret),
    ensures
        ({
            let events = seq![
                LoginEventView::Found { user_id, password_hash },
                LoginEventView::Verified(false),
            ] + later;
            let rejected = ResponseView::Rejected(Failure::InvalidCredentials);
            let (end, asked) = login_session(credentials, events, settings, token);
            &&& end == LoginStateView::Failed(Failure::InvalidCredentials)
            &&& asked == seq![
                LoginActionView::Lookup { username: credentials.username },
                LoginActionView::Verify {
                    stored_hash: password_hash,
                    password: credentials.password,
                    secret,
                },
                LoginActionView::Respond(rejected),
            ]
            &&& rejected.class() == StatusClass::ClientError
            &&& records_asked(asked) == 0
        }),
{
    let found = LoginEventView::Found { user_id, password_hash };
    let verified = LoginEventView::Verified(false);
    let lookup = LoginActionView::Lookup { username: credentials.username };
    let verify = LoginActionView::Verify {
        stored_hash: password_hash,
        password: credentials.password,
        secret,
    };
    let respond = LoginActionView::Respond(ResponseView::Rejected(Failure::InvalidCredentials));
    let received = login_begin(credentials).0;
    let looked_up = LoginStateView::LookedUp { username: credentials.username, user_id };
    let failed = LoginStateView::Failed(Failure::InvalidCredentials);
    let after_found = seq![verified] + later;
    assert(seq![found, verified] + later =~= seq![found] + after_found);
    let asked = seq![lookup].push(verify).push(respond);
    assert(asked =~= seq![lookup, verify, respond]);
    lemma_login_run_unfolds(received, seq![lookup], found, after_found, settings, token);
    lemma_login_run_unfolds(looked_up, seq![lookup].push(verify), verified, later, settings, token);
    lemma_login_finished_stays(failed, asked, later, settings, token);
    lemma_login_records_and_responses(
        credentials,
        seq![found, verified] + later,
        settings,
        token,
    );
}

/// A login under an unknown username, where no placeholder hash is set: the
/// flow answers at once, with the very response that a wrong password gets,
/// and asks for no login record.
pub proof fn lemma_login_unknown_user(
    credentials: CredentialsView,
    settings: LoginSettings,
    token: Seq<char>,
    later: Seq<LoginEventView>,
)
    requires
        settings.placeholder is None,
    ensures
        ({
            let events = seq![LoginEventView::NotFound] + later;
            let (end, asked) = login_session(credentials, events, settings, token);
            &&& end == LoginStateView::Failed(Failure::InvalidCredentials)
            &&& asked == seq![
                LoginActionView::Lookup { username: credentials.username },
                LoginActionView::Respond(ResponseView::Rejected(Failure::InvalidCredentials)),
            ]
            &&& records_asked(asked) == 0
        }),
{
    let lookup = LoginActionView::Lookup { username: credentials.username };
    let respond = LoginActionView::Respond(ResponseView::Rejected(Failure::InvalidCredentials));
    let received = login_begin(credentials).0;
    let failed = LoginStateView::Failed(Failure::InvalidCredentials);
    let asked = seq![lookup].push(respond);
    assert(asked =~= seq![lookup, respond]);
    lemma_login_run_unfolds(
        received,
        seq![lookup],
        LoginEventView::NotFound,
        later,
        settings,
        token,
    );
    lemma_login_finished_stays(failed, asked, later, settings, token);
    lemma_login_records_and_responses(
        credentials,
        seq![LoginEventView::NotFound] + later,
        settings,
        token,
    );
}

/// A login under an unknown username, where a placeholder hash is set: the
/// flow has the password verified against the placeholder, as it would
/// against a stored hash, and then answers as it would to a known user whose
/// password did not match, whatever the verification said.  It asks for no
/// login record.
pub proof fn lemma_login_unknown_user_shadowed(
    credentials: CredentialsView,
    placeholder: Seq<char>,
    secret: Seq<char>,
    matches: bool,
    settings: LoginSettings,
    token: Seq<char>,
    later: Seq<LoginEventView>,
)
    requires
        settings.placeholder == Some(placeholder),
        settings.secret == Some(secret),
    ensures
        ({
            let events = seq![LoginEventView::NotFound, LoginEventView::Verified(matches)] + later;
            let (end, asked) = login_session(credentials, events, settings, token);
            &&& end == LoginStateView::Failed(Failure::InvalidCredentials)
            &&& asked == seq![
                LoginActionView::Lookup { username: credentials.username },
                LoginActionView::Verify {
                    stored_hash: placeholder,
                    password: credentials.password,
                    secret,
                },
                LoginActionView::Respond(ResponseView::Rejected(Failure::InvalidCredentials)),
            ]
            &&& records_asked(asked) == 0
        }),
{
    let not_found = LoginEventView::NotFound;
    let verified = LoginEventView::Verified(matches);
    let lookup = LoginActionView::Lookup { username: credentials.username };
    let verify = LoginActionView::Verify {
        stored_hash: placeholder,
        password: credentials.password,
        secret,
    };
    let respond = LoginActionView::Respond(ResponseView::Rejected(Failure::InvalidCredentials));
    let received = login_begin(credentials).0;
    let failed = LoginStateView::Failed(Failure::InvalidCredentials);
    let after_lookup = seq![verified] + later;
    assert(seq![not_found, verified] + later =~= seq![not_found] + after_lookup);
    let asked = seq![lookup].push(verify).push(respond);
    assert(asked =~= seq![lookup, verify, respond]);
    lemma_login_run_unfolds(received, seq![lookup], not_found, after_lookup, settings, token);
    lemma_login_run_unfolds(
        LoginStateView::Unknown,
        seq![lookup].push(verify),
        verified,
        later,
        settings,
        token,
    );
    lemma_login_finished_stays(failed, asked, later, settings, token);
    lemma_login_records_and_responses(
        credentials,
        seq![not_found, verified] + later,
        settings,
        token,
    );
}

/// An unknown username and a wrong password end alike.  Whether or not a
/// placeholder hash is set, the login under the unknown name ends in the same
/// state and with the same response as the login of a known user whose
/// password did not match, and neither asks for a login record.
pub proof fn lemma_unknown_user_answers_like_wrong_password(
    unknown: CredentialsView,
    known: CredentialsView,
    user_id: i32,
    password_hash: Seq<char>,
    secret: Seq<char>,
    matches: bool,
    settings: LoginSettings,
    token: Seq<char>,
    later_unknown: Seq<LoginEventView>,
    later_known: Seq<LoginEventView>,
)
    requires
        settings.secret == Some(secret),
    ensures
        ({
            let unknown_events = match settings.placeholder {
                None => seq![LoginEventView::NotFound] + later_unknown,
                Some(_) => seq![LoginEventView::NotFound, LoginEventView::Verified(matches)]
                    + later_unknown,
            };
            let known_events = seq![
                LoginEventView::Found { user_id, password_hash },
                LoginEventView::Verified(false),
            ] + later_known;
            let (unknown_end, unknown_asked) = login_session(
                unknown,
                unknown_events,
                settings,
                token,
            );
            let (known_end, known_asked) = login_session(known, known_events, settings, token);
            &&& unknown_end == known_end
            &&& unknown_asked.last() == known_asked.last()
            &&& unknown_asked.last() == LoginActionView::Respond(
                ResponseView::Rejected(Failure::InvalidCredentials),
            )
            &&& records_asked(unknown_asked) == 0
            &&& records_asked(known_asked) == 0
        }),
{
    lemma_login_wrong_password(known, user_id, password_hash, secret, settings, token, later_known);
    match settings.placeholder {
        None => lemma_login_unknown_user(unknown, settings, token, later_unknown),
        Some(placeholder) => lemma_login_unknown_user_shadowed(
            unknown,
            placeholder,
            secret,
            matches,
            settings,
            token,
            later_unknown,
        ),
    }
}

} // verus!
