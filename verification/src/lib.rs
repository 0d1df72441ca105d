//! Credential verification and issuance: password policy, session tokens, and
//! the registration and login flows of a small credential service.
//!
//! The flows are state machines.  Each takes the outcome of the work it asked
//! for last and answers with the next piece of work, until it asks for a
//! response to be sent.  The work itself (store round trips, hashing on a
//! worker) is done by whoever drives the flow.

pub mod credentials;
pub mod failure;
pub mod login;
pub mod login_runs;
pub mod policy;
pub mod register;
pub mod register_runs;
pub mod response;
pub mod settings;
pub mod token;
