use auth_core::failure::{Failure, HashingFault, StatusClass, StoreFault};
use auth_core::login::{LoginAction, LoginEvent, LoginState, INSERT_LOGIN, SELECT_USER};
use auth_core::policy::PasswordPolicy;
use auth_core::credentials::Credentials;
use auth_core::response::Response;
use auth_core::settings::Settings;
use auth_core::token::TOKEN_LEN;

fn login_settings(secret: Option<&str>, placeholder: Option<&str>) -> Settings {
    let policy = match PasswordPolicy::compile(".") {
        Ok(policy) => policy,
        Err(error) => panic!("the pattern did not compile: {:?}", error),
    };
    let mut settings = Settings::new(policy, secret.map(String::from));
    settings.placeholder_hash = placeholder.map(String::from);
    settings
}

fn login_credentials(username: &str, password: &str) -> Credentials {
    Credentials { username: String::from(username), password: String::from(password) }
}

/// A store with a users table and a logins table, and a count of verifications.
struct Tables {
    users: Vec<(i32, String, String)>,
    logins: Vec<(i32, String)>,
    verifications: usize,
}

fn one_user() -> Tables {
    Tables {
        users: vec![(7, String::from("alice"), String::from("hash(key,correcthorse1)"))],
        logins: Vec::new(),
        verifications: 0,
    }
}

/// Drives a login to its response, verifying by the rule the hashes above
/// were made by.
fn run_login(settings: &Settings, tables: &mut Tables, username: &str, password: &str) -> Response {
    let (mut state, mut action) = LoginState::begin(login_credentials(username, password));
    loop {
        let event = match action {
            LoginAction::Lookup { username } => {
                match tables.users.iter().find(|row| row.1 == username) {
                    Some(row) => {
                        LoginEvent::Found { user_id: row.0, password_hash: row.2.clone() }
                    }
                    None => LoginEvent::NotFound,
                }
            }
            LoginAction::Verify { stored_hash, password, secret } => {
                tables.verifications += 1;
                LoginEvent::Verified(stored_hash == format!("hash({},{})", secret, password))
            }
            LoginAction::Record { user_id, token } => {
                tables.logins.push((user_id, token));
                LoginEvent::Recorded
            }
            LoginAction::Respond(response) => {
                assert!(state.is_finished());
                return response;
            }
        };
        let (next, asked) = state.step(settings, event);
        state = next;
        action = match asked {
            Some(action) => action,
            None => panic!("the flow asked for nothing"),
        };
    }
}

fn assert_is_token(token: &str) {
    let chars: Vec<char> = token.chars().collect();
    assert_eq!(chars.len(), TOKEN_LEN);
    assert_eq!(chars.len(), 32);
    for c in chars.iter() {
        assert!(matches!(*c, '0'..='9' | 'a'..='f'), "{:?} in {:?}", c, token);
    }
    assert_eq!(chars[12], '4');
    assert!(matches!(chars[16], '8' | '9' | 'a' | 'b'));
}

#[test]
fn statements_are_the_stores_own() {
    assert_eq!(SELECT_USER, "SELECT user_id, password_hash FROM users WHERE username = $1;");
    assert_eq!(INSERT_LOGIN, "INSERT INTO logins VALUES($1, 'now', $2)");
}

#[test]
fn login_starts_with_the_lookup() {
    let (state, action) = LoginState::begin(login_credentials("alice", "correcthorse1"));
    assert_eq!(
        state,
        LoginState::Received {
            username: String::from("alice"),
            password: String::from("correcthorse1"),
        }
    );
    assert_eq!(action, LoginAction::Lookup { username: String::from("alice") });
    assert!(!state.is_finished());
}

#[test]
fn login_with_a_given_token_runs_to_success() {
    let settings = login_settings(Some("key"), None);
    let token = String::from("936da01f9abd4d9d80c702af85c822a8");
    let (state, _) = LoginState::begin(login_credentials("alice", "correcthorse1"));
    let (state, action) = state.step_with_token(
        &settings,
        LoginEvent::Found { user_id: 7, password_hash: String::from("$argon2id$abc") },
        String::new(),
    );
    assert_eq!(state, LoginState::LookedUp { username: String::from("alice"), user_id: 7 });
    assert_eq!(
        action,
        Some(LoginAction::Verify {
            stored_hash: String::from("$argon2id$abc"),
            password: String::from("correcthorse1"),
            secret: String::from("key"),
        })
    );
    assert!(state.issues_token(&LoginEvent::Verified(true)));
    assert!(!state.issues_token(&LoginEvent::Verified(false)));
    let (state, action) = state.step_with_token(&settings, LoginEvent::Verified(true), token.clone());
    assert_eq!(
        state,
        LoginState::TokenIssued { username: String::from("alice"), token: token.clone() }
    );
    assert_eq!(action, Some(LoginAction::Record { user_id: 7, token: token.clone() }));
    let (state, action) = state.step_with_token(&settings, LoginEvent::Recorded, String::new());
    assert_eq!(state, LoginState::Responded);
    assert!(state.is_finished());
    let response = Response::LoggedIn { username: String::from("alice"), token };
    assert_eq!(action, Some(LoginAction::Respond(response.clone())));
    assert_eq!(response.status_code(), 200);
    assert_eq!(response.body(), "Logged In alice: 936da01f9abd4d9d80c702af85c822a8");
}

#[test]
fn login_with_the_right_password_records_one_login() {
    let settings = login_settings(Some("key"), None);
    let mut tables = one_user();
    let response = run_login(&settings, &mut tables, "alice", "correcthorse1");
    assert_eq!(response.class(), StatusClass::Success);
    assert_eq!(tables.logins.len(), 1);
    assert_eq!(tables.logins[0].0, 7);
    assert_is_token(&tables.logins[0].1);
    assert_eq!(
        response,
        Response::LoggedIn { username: String::from("alice"), token: tables.logins[0].1.clone() }
    );
    assert_eq!(response.body(), format!("Logged In alice: {}", tables.logins[0].1));
}

#[test]
fn every_login_gets_a_token_of_its_own() {
    let settings = login_settings(Some("key"), None);
    let mut tables = one_user();
    for _ in 0..8 {
        run_login(&settings, &mut tables, "alice", "correcthorse1");
    }
    assert_eq!(tables.logins.len(), 8);
    for i in 0..8 {
        assert_is_token(&tables.logins[i].1);
        for j in 0..i {
            assert_ne!(tables.logins[i].1, tables.logins[j].1);
        }
    }
}

#[test]
fn step_issues_a_token_only_for_a_verified_known_user() {
    let settings = login_settings(Some("key"), None);
    let (state, _) = LoginState::begin(login_credentials("alice", "correcthorse1"));
    assert!(!state.issues_token(&LoginEvent::Verified(true)));
    let (state, _) =
        state.step(&settings, LoginEvent::Found { user_id: 7, password_hash: String::from("h") });
    let (state, action) = state.step(&settings, LoginEvent::Verified(true));
    match (&state, &action) {
        (
            LoginState::TokenIssued { username, token },
            Some(LoginAction::Record { user_id, token: recorded }),
        ) => {
            assert_eq!(username, "alice");
            assert_eq!(*user_id, 7);
            assert_eq!(token, recorded);
            assert_is_token(token);
        }
        other => panic!("unexpected step: {:?}", other),
    }
    assert!(!state.issues_token(&LoginEvent::Verified(true)));
}

#[test]
fn login_with_a_wrong_password_records_nothing() {
    let settings = login_settings(Some("key"), None);
    let mut tables = one_user();
    let response = run_login(&settings, &mut tables, "alice", "wrongpassword");
    assert_eq!(response, Response::Rejected(Failure::InvalidCredentials));
    assert_eq!(response.class(), StatusClass::ClientError);
    assert_eq!(response.status_code(), 400);
    assert_eq!(response.body(), "Invalid login information");
    assert!(tables.logins.is_empty());
    assert_eq!(tables.verifications, 1);
}

#[test]
fn login_under_an_unknown_name_answers_like_a_wrong_password() {
    let settings = login_settings(Some("key"), None);
    let mut tables = one_user();
    let unknown = run_login(&settings, &mut tables, "mallory", "correcthorse1");
    let wrong = run_login(&settings, &mut tables, "alice", "wrongpassword");
    assert_eq!(unknown, Response::Rejected(Failure::InvalidCredentials));
    assert_eq!(unknown, wrong);
    assert_eq!(unknown.status_code(), wrong.status_code());
    assert_eq!(unknown.body(), wrong.body());
    assert!(tables.logins.is_empty());
}

#[test]
fn unknown_name_is_turned_down_at_once_without_a_placeholder() {
    let settings = login_settings(Some("key"), None);
    let (state, _) = LoginState::begin(login_credentials("mallory", "correcthorse1"));
    let (state, action) = state.step(&settings, LoginEvent::NotFound);
    assert_eq!(state, LoginState::Failed(Failure::InvalidCredentials));
    assert_eq!(action, Some(LoginAction::Respond(Response::Rejected(Failure::InvalidCredentials))));
}

#[test]
fn unknown_name_is_verified_against_the_placeholder() {
    let settings = login_settings(Some("key"), Some("hash(key,nobody)"));
    let (state, _) = LoginState::begin(login_credentials("mallory", "correcthorse1"));
    let (state, action) = state.step(&settings, LoginEvent::NotFound);
    assert_eq!(state, LoginState::Unknown);
    assert_eq!(
        action,
        Some(LoginAction::Verify {
            stored_hash: String::from("hash(key,nobody)"),
            password: String::from("correcthorse1"),
            secret: String::from("key"),
        })
    );
    assert!(!state.issues_token(&LoginEvent::Verified(true)));
    let (state, action) = state.step(&settings, LoginEvent::Verified(false));
    assert_eq!(state, LoginState::Failed(Failure::InvalidCredentials));
    assert_eq!(action, Some(LoginAction::Respond(Response::Rejected(Failure::InvalidCredentials))));
}

#[test]
fn matching_the_placeholder_logs_nobody_in() {
    let settings = login_settings(Some("key"), Some("hash(key,nobody)"));
    let mut tables = one_user();
    let response = run_login(&settings, &mut tables, "mallory", "nobody");
    assert_eq!(response, Response::Rejected(Failure::InvalidCredentials));
    assert!(tables.logins.is_empty());
    assert_eq!(tables.verifications, 1);
}

#[test]
fn placeholder_fails_like_a_stored_hash_when_verification_fails() {
    let settings = login_settings(Some("key"), Some("not a hash"));
    let (state, _) = LoginState::begin(login_credentials("mallory", "correcthorse1"));
    let (state, _) = state.step(&settings, LoginEvent::NotFound);
    let (state, action) = state.step(&settings, LoginEvent::VerifyFailed(HashingFault::MalformedHash));
    assert_eq!(state, LoginState::Failed(Failure::HashingError(HashingFault::MalformedHash)));
    assert_eq!(
        action,
        Some(LoginAction::Respond(Response::Rejected(Failure::HashingError(
            HashingFault::MalformedHash
        ))))
    );
}

#[test]
fn lookup_failure_is_an_internal_failure() {
    let settings = login_settings(Some("key"), None);
    for fault in vec![StoreFault::Connection, StoreFault::Prepare, StoreFault::Query] {
        let (state, _) = LoginState::begin(login_credentials("alice", "correcthorse1"));
        let (state, action) = state.step(&settings, LoginEvent::LookupFailed(fault));
        assert_eq!(state, LoginState::Failed(Failure::StoreError(fault)));
        let response = Response::Rejected(Failure::StoreError(fault));
        assert_eq!(action, Some(LoginAction::Respond(response.clone())));
        assert_eq!(response.status_code(), 500);
        assert_eq!(response.body(), "");
    }
}

#[test]
fn verification_failure_is_internal_and_not_invalid_credentials() {
    let settings = login_settings(Some("key"), None);
    for fault in vec![HashingFault::MalformedHash, HashingFault::Algorithm] {
        let (state, _) = LoginState::begin(login_credentials("alice", "correcthorse1"));
        let (state, _) = state
            .step(&settings, LoginEvent::Found { user_id: 7, password_hash: String::from("h") });
        let (state, action) = state.step(&settings, LoginEvent::VerifyFailed(fault));
        assert_eq!(state, LoginState::Failed(Failure::HashingError(fault)));
        let response = Response::Rejected(Failure::HashingError(fault));
        assert_eq!(action, Some(LoginAction::Respond(response.clone())));
        assert_eq!(response.class(), StatusClass::ServerError);
        assert_ne!(response, Response::Rejected(Failure::InvalidCredentials));
    }
}

#[test]
fn login_without_a_secret_is_an_internal_failure() {
    let settings = login_settings(None, None);
    let mut tables = one_user();
    let response = run_login(&settings, &mut tables, "alice", "correcthorse1");
    assert_eq!(response, Response::Rejected(Failure::HashingError(HashingFault::MissingSecret)));
    assert_eq!(response.status_code(), 500);
    assert_eq!(tables.verifications, 0);
    assert!(tables.logins.is_empty());

    let settings = login_settings(None, Some("hash(key,nobody)"));
    let (state, _) = LoginState::begin(login_credentials("mallory", "correcthorse1"));
    let (state, _) = state.step(&settings, LoginEvent::NotFound);
    assert_eq!(state, LoginState::Failed(Failure::HashingError(HashingFault::MissingSecret)));
}

#[test]
fn failed_record_fails_the_login() {
    let settings = login_settings(Some("key"), None);
    let (state, _) = LoginState::begin(login_credentials("alice", "correcthorse1"));
    let (state, _) =
        state.step(&settings, LoginEvent::Found { user_id: 7, password_hash: String::from("h") });
    let (state, _) = state.step(&settings, LoginEvent::Verified(true));
    let (state, action) = state.step(&settings, LoginEvent::RecordFailed(StoreFault::Execute));
    assert_eq!(state, LoginState::Failed(Failure::StoreError(StoreFault::Execute)));
    assert_eq!(
        action,
        Some(LoginAction::Respond(Response::Rejected(Failure::StoreError(StoreFault::Execute))))
    );
}

#[test]
fn login_events_out_of_turn_change_nothing() {
    let settings = login_settings(Some("key"), None);
    let (state, _) = LoginState::begin(login_credentials("alice", "correcthorse1"));
    let (state, action) = state.step(&settings, LoginEvent::Verified(true));
    assert_eq!(
        state,
        LoginState::Received {
            username: String::from("alice"),
            password: String::from("correcthorse1"),
        }
    );
    assert_eq!(action, None);
    let (state, action) = state.step(&settings, LoginEvent::Recorded);
    assert!(matches!(state, LoginState::Received { .. }));
    assert_eq!(action, None);
    let (state, _) =
        state.step(&settings, LoginEvent::Found { user_id: 7, password_hash: String::from("h") });
    let (state, action) = state.step(&settings, LoginEvent::Recorded);
    assert_eq!(state, LoginState::LookedUp { username: String::from("alice"), user_id: 7 });
    assert_eq!(action, None);
    let (state, action) = state.step(&settings, LoginEvent::NotFound);
    assert_eq!(state, LoginState::LookedUp { username: String::from("alice"), user_id: 7 });
    assert_eq!(action, None);
    let (state, _) = state.step(&settings, LoginEvent::Verified(true));
    let (next, action) = state.clone().step(&settings, LoginEvent::Verified(true));
    assert_eq!(next, state);
    assert_eq!(action, None);
}

#[test]
fn nothing_follows_the_login_response() {
    let settings = login_settings(Some("key"), None);
    let (state, _) = LoginState::begin(login_credentials("alice", "correcthorse1"));
    let (state, _) =
        state.step(&settings, LoginEvent::Found { user_id: 7, password_hash: String::from("h") });
    let (state, _) = state.step(&settings, LoginEvent::Verified(false));
    assert_eq!(state, LoginState::Failed(Failure::InvalidCredentials));
    let (state, action) = state.step(&settings, LoginEvent::Verified(true));
    assert_eq!(state, LoginState::Failed(Failure::InvalidCredentials));
    assert_eq!(action, None);
    let (state, action) = state.step(&settings, LoginEvent::Recorded);
    assert_eq!(state, LoginState::Failed(Failure::InvalidCredentials));
    assert_eq!(action, None);
}
