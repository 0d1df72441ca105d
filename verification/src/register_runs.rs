//! Whole registrations: what the flow asks for over any sequence of events,
//! and what that says about store writes and responses.

use vstd::prelude::*;
use crate::failure::{Failure, HashingFault, StatusClass, StoreFault};
use crate::register::{
    register_begin, register_step, RegisterActionView, RegisterEventView, RegisterStateView,
};
use crate::credentials::CredentialsView;
use crate::response::ResponseView;

verus! {

/// Runs a registration from `state` through `events`, one step for each, and
/// appends the actions it asks for to `asked`.
pub open spec fn register_run(
    state: RegisterStateView,
    asked: Seq<RegisterActionView>,
    events: Seq<RegisterEventView>,
) -> (RegisterStateView, Seq<RegisterActionView>)
    decreases events.len(),
{
    if events.len() == 0 {
        (state, asked)
    } else {
        let (next, action) = register_step(state, events.first());
        let asked = match action {
            Some(action) => asked.push(action),
            None => asked,
        };
        register_run(next, asked, events.drop_first())
    }
}

/// A whole registration: the state it ends in and all it asked for, when the
/// policy's verdict on the password is `allowed` and its driver answers with
/// `events`.
pub open spec fn register_session(
    allowed: bool,
    secret: Option<Seq<char>>,
    credentials: CredentialsView,
    events: Seq<RegisterEventView>,
) -> (RegisterStateView, Seq<RegisterActionView>) {
    let (state, first) = register_begin(allowed, secret, credentials);
    register_run(state, seq![first], events)
}

/// How many store writes the actions ask for.
pub open spec fn stores_asked(asked: Seq<RegisterActionView>) -> nat
    decreases asked.len(),
{
    if asked.len() == 0 {
        0
    } else {
        stores_asked(asked.drop_last()) + if asked.last() is Store {
            1nat
        } else {
            0nat
        }
    }
}

/// How many responses the actions ask for.
pub open spec fn replies_asked(asked: Seq<RegisterActionView>) -> nat
    decreases asked.len(),
{
    if asked.len() == 0 {
        0
    } else {
        replies_asked(asked.drop_last()) + if asked.last() is Respond {
            1nat
        } else {
            0nat
        }
    }
}

/// What holds of a registration's state and of all it has asked for so far.
pub open spec fn register_coherent(
    state: RegisterStateView,
    asked: Seq<RegisterActionView>,
    username: Seq<char>,
) -> bool {
    &&& asked.len() > 0
    &&& match state {
        RegisterStateView::Validated { username: name } => {
            &&& name == username
            &&& stores_asked(asked) == 0
            &&& replies_asked(asked) == 0
        },
        RegisterStateView::Hashed { username: name } => {
            &&& name == username
            &&& stores_asked(asked) == 1
            &&& replies_asked(asked) == 0
        },
        RegisterStateView::Responded => {
            &&& stores_asked(asked) == 1
            &&& replies_asked(asked) == 1
            &&& asked.last() == RegisterActionView::Respond(ResponseView::Registered { username })
        },
        RegisterStateView::Failed(failure) => {
            &&& stores_asked(asked) <= 1
            &&& replies_asked(asked) == 1
            &&& asked.last() == RegisterActionView::Respond(ResponseView::Rejected(failure))
            &&& stores_asked(asked) == 1 <==> failure is StoreError
        },
    }
}

proof fn lemma_counts_push(asked: Seq<RegisterActionView>, action: RegisterActionView)
    ensures
        stores_asked(asked.push(action)) == stores_asked(asked) + if action is Store {
            1nat
        } else {
            0nat
        },
        replies_asked(asked.push(action)) == replies_asked(asked) + if action is Respond {
            1nat
        } else {
            0nat
        },
{
    assert(asked.push(action).drop_last() =~= asked);
}

proof fn lemma_run_keeps_coherent(
    state: RegisterStateView,
    asked: Seq<RegisterActionView>,
    events: Seq<RegisterEventView>,
    username: Seq<char>,
)
    requires
        register_coherent(state, asked, username),
    ensures
        ({
            let (end, all) = register_run(state, asked, events);
            register_coherent(end, all, username)
        }),
    decreases events.len(),
{
    if events.len() > 0 {
        let (next, action) = register_step(state, events.first());
        let asked = match action {
            Some(action) => {
                lemma_counts_push(asked, action);
                asked.push(action)
            },
            None => asked,
        };
        lemma_run_keeps_coherent(next, asked, events.drop_first(), username);
    }
}

/// Once the response is out, a registration asks for nothing more, whatever
/// comes in.
pub proof fn lemma_register_finished_stays(
    state: RegisterStateView,
    asked: Seq<RegisterActionView>,
    events: Seq<RegisterEventView>,
)
    requires
        state is Responded || state is Failed,
    ensures
        register_run(state, asked, events) == (state, asked),
    decreases events.len(),
{
    if events.len() > 0 {
        lemma_register_finished_stays(state, asked, events.drop_first());
    }
}

/// Whatever its driver answers, a registration asks for at most one store
/// write and at most one response, and for a response exactly when it has
/// finished.  One that succeeds has asked for exactly one write and answers
/// with the username.  One that fails answers with its failure, and has asked
/// for a write exactly when it is the store that failed.
pub proof fn lemma_register_stores_and_responses(
    allowed: bool,
    secret: Option<Seq<char>>,
    credentials: CredentialsView,
    events: Seq<RegisterEventView>,
)
    ensures
        ({
            let (end, asked) = register_session(allowed, secret, credentials, events);
            &&& stores_asked(asked) <= 1
            &&& replies_asked(asked) <= 1
            &&& replies_asked(asked) == 1 <==> (end is Responded || end is Failed)
            &&& end is Responded ==> {
                &&& stores_asked(asked) == 1
                &&& asked.last() == RegisterActionView::Respond(
                    ResponseView::Registered { username: credentials.username },
                )
            }
            &&& end matches RegisterStateView::Failed(failure) ==> {
                &&& asked.last() == RegisterActionView::Respond(ResponseView::Rejected(failure))
                &&& stores_asked(asked) == 1 <==> failure is StoreError
            }
        }),
{
    let (state, first) = register_begin(allowed, secret, credentials);
    let asked = seq![first];
    lemma_counts_push(Seq::empty(), first);
    lemma_run_keeps_coherent(state, asked, events, credentials.username);
}

/// A run takes its first event in one step and goes on with the rest.
pub proof fn lemma_register_run_unfolds(
    state: RegisterStateView,
    asked: Seq<RegisterActionView>,
    event: RegisterEventView,
    rest: Seq<RegisterEventView>,
)
    ensures
        register_run(state, asked, seq![event] + rest) == ({
            let (next, action) = register_step(state, event);
            let asked = match action {
                Some(action) => asked.push(action),
                None => asked,
            };
            register_run(next, asked, rest)
        }),
{
    let events = seq![event] + rest;
    assert(events.first() == event);
    assert(events.drop_first() =~= rest);
}

/// A registration whose password does not meet the policy is turned down at
/// once, as a client error.  The response is all the flow ever asks for: no
/// hash and no store write, whatever comes in.
pub proof fn lemma_register_policy_violation(
    secret: Option<Seq<char>>,
    credentials: CredentialsView,
    events: Seq<RegisterEventView>,
)
    ensures
        ({
            let rejected = ResponseView::Rejected(Failure::PolicyViolation);
            &&& register_session(false, secret, credentials, events) == (
                RegisterStateView::Failed(Failure::PolicyViolation),
                seq![RegisterActionView::Respond(rejected)],
            )
            &&& rejected.class() == StatusClass::ClientError
        }),
{
    let (state, first) = register_begin(false, secret, credentials);
    lemma_register_finished_stays(state, seq![first], events);
}

/// A registration that goes through: the password meets the policy, it is
/// hashed and the store takes the user.  The flow asks for the hash, for one
/// store write of the username with that hash, and for a success response
/// that carries the username and nothing else.
pub proof fn lemma_register_success(
    secret: Seq<char>,
    credentials: CredentialsView,
    password_hash: Seq<char>,
    later: Seq<RegisterEventView>,
)
    ensures
        ({
            let events = seq![
                RegisterEventView::Hashed { password_hash },
                RegisterEventView::Stored,
            ] + later;
            let registered = ResponseView::Registered { username: credentials.username };
            &&& register_session(true, Some(secret), credentials, events) == (
                RegisterStateView::Responded,
                seq![
                    RegisterActionView::Hash { password: credentials.password, secret },
                    RegisterActionView::Store { username: credentials.username, password_hash },
                    RegisterActionView::Respond(registered),
                ],
            )
            &&& registered.class() == StatusClass::Success
            &&& registered.body() == "Registered "@ + credentials.username
        }),
{
    let hashed_event = RegisterEventView::Hashed { password_hash };
    let stored = RegisterEventView::Stored;
    let hash = RegisterActionView::Hash { password: credentials.password, secret };
    let store = RegisterActionView::Store { username: credentials.username, password_hash };
    let respond = RegisterActionView::Respond(
        ResponseView::Registered { username: credentials.username },
    );
    let validated = RegisterStateView::Validated { username: credentials.username };
    let hashed = RegisterStateView::Hashed { username: credentials.username };
    let after_hash = seq![stored] + later;
    assert(seq![hashed_event, stored] + later =~= seq![hashed_event] + after_hash);
    let asked = seq![hash].push(store).push(respond);
    assert(asked =~= seq![hash, store, respond]);
    lemma_register_run_unfolds(validated, seq![hash], hashed_event, after_hash);
    lemma_register_run_unfolds(hashed, seq![hash].push(store), stored, later);
    lemma_register_finished_stays(RegisterStateView::Responded, asked, later);
}

/// A registration whose password cannot be hashed: the flow answers with the
/// failure, a server error, and asks for no store write, whatever comes in
/// later.
pub proof fn lemma_register_hash_failure(
    secret: Seq<char>,
    credentials: CredentialsView,
    fault: HashingFault,
    later: Seq<RegisterEventView>,
)
    ensures
        ({
            let events = seq![RegisterEventView::HashFailed(fault)] + later;
            let rejected = ResponseView::Rejected(Failure::HashingError(fault));
            let (end, asked) = register_session(true, Some(secret), credentials, events);
            &&& end == RegisterStateView::Failed(Failure::HashingError(fault))
            &&& asked == seq![
                RegisterActionView::Hash { password: credentials.password, secret },
                RegisterActionView::Respond(rejected),
            ]
            &&& rejected.class() == StatusClass::ServerError
            &&& stores_asked(asked) == 0
        }),
{
    let hash = RegisterActionView::Hash { password: credentials.password, secret };
    let respond = RegisterActionView::Respond(
        ResponseView::Rejected(Failure::HashingError(fault)),
    );
    let validated = RegisterStateView::Validated { username: credentials.username };
    let failed = RegisterStateView::Failed(Failure::HashingError(fault));
    let asked = seq![hash].push(respond);
    assert(asked =~= seq![hash, respond]);
    lemma_register_run_unfolds(validated, seq![hash], RegisterEventView::HashFailed(fault), later);
    lemma_register_finished_stays(failed, asked, later);
    lemma_register_stores_and_responses(
        true,
        Some(secret),
        credentials,
        seq![RegisterEventView::HashFailed(fault)] + later,
    );
}

/// A registration that the store turns down, as it does a username that is
/// taken: the flow answers with the store's failure, a server error with an
/// empty body, and never with a success.
pub proof fn lemma_register_store_failure(
    secret: Seq<char>,
    credentials: CredentialsView,
    password_hash: Seq<char>,
    fault: StoreFault,
    later: Seq<RegisterEventView>,
)
    ensures
        ({
            let events = seq![
                RegisterEventView::Hashed { password_hash },
                RegisterEventView::StoreFailed(fault),
            ] + later;
            let rejected = ResponseView::Rejected(Failure::StoreError(fault));
            &&& register_session(true, Some(secret), credentials, events) == (
                RegisterStateView::Failed(Failure::StoreError(fault)),
                seq![
                    RegisterActionView::Hash { password: credentials.password, secret },
                    RegisterActionView::Store { username: credentials.username, password_hash },
                    RegisterActionView::Respond(rejected),
                ],
            )
            &&& rejected.class() == StatusClass::ServerError
            &&& rejected.body() == Seq::<char>::empty()
        }),
{
    let hashed_event = RegisterEventView::Hashed { password_hash };
    let store_failed = RegisterEventView::StoreFailed(fault);
    let hash = RegisterActionView::Hash { password: credentials.password, secret };
    let store = RegisterActionView::Store { username: credentials.username, password_hash };
    let respond = RegisterActionView::Respond(ResponseView::Rejected(Failure::StoreError(fault)));
    let validated = RegisterStateView::Validated { username: credentials.username };
    let hashed = RegisterStateView::Hashed { username: credentials.username };
    let failed = RegisterStateView::Failed(Failure::StoreError(fault));
    let after_hash = seq![store_failed] + later;
    assert(seq![hashed_event, store_failed] + later =~= seq![hashed_event] + after_hash);
    let asked = seq![hash].push(store).push(respond);
    assert(asked =~= seq![hash, store, respond]);
    lemma_register_run_unfolds(validated, seq![hash], hashed_event, after_hash);
    lemma_register_run_unfolds(hashed, seq![hash].push(store), store_failed, later);
    lemma_register_finished_stays(failed, asked, later);
}

} // verus!
