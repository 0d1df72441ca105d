//! The ways a request can fail, and the status category each one is reported under.

use vstd::prelude::*;

verus! {

/// The status categories of a response.
#[derive(Clone, Copy, Debug, PartialEq, Eq, Structural)]
pub enum StatusClass {
    /// The request was carried out; the response has a body.
    Success,
    /// The request was turned down because of what the client sent.
    ClientError,
    /// The request could not be carried out for an internal reason.
    ServerError,
}

/// The store operation that failed.
#[derive(Clone, Copy, Debug, PartialEq, Eq, Structural)]
pub enum StoreFault {
    /// No connection could be acquired.
    Connection,
    /// A statement could not be prepared.
    Prepare,
    /// A query failed.
    Query,
    /// A statement failed when executed.
    Execute,
    /// The store turned the statement down because of a constraint, such as
    /// the uniqueness of usernames.
    Constraint,
}

/// The reason a hash could not be computed or checked.
#[derive(Clone, Copy, Debug, PartialEq, Eq, Structural)]
pub enum HashingFault {
    /// No secret key is configured.
    MissingSecret,
    /// The stored hash is not a well-formed hash string.
    MalformedHash,
    /// The algorithm failed or ran out of a resource.
    Algorithm,
}

/// Why a request failed.
#[derive(Clone, Copy, Debug, PartialEq, Eq, Structural)]
pub enum Failure {
    /// The password does not meet the policy.
    PolicyViolation,
    /// The username is unknown or the password is wrong.  The two are not told apart.
    InvalidCredentials,
    /// The store failed.
    StoreError(StoreFault),
    /// Hashing or verification failed.
    HashingError(HashingFault),
}

impl Failure {
    /// The category a failure is reported under: the client's own mistakes as
    /// client errors, everything else as a server error.
    pub open spec fn spec_class(self) -> StatusClass {
        match self {
            Failure::PolicyViolation | Failure::InvalidCredentials => StatusClass::ClientError,
            Failure::StoreError(_) | Failure::HashingError(_) => StatusClass::ServerError,
        }
    }

    /// Whether the failure is internal, so that no detail of it may reach the client.
    pub open spec fn spec_is_internal(self) -> bool {
        self is StoreError || self is HashingError
    }

    #[verifier::when_used_as_spec(spec_class)]
    pub fn class(self) -> (class: StatusClass)
        ensures
            class == self.spec_class(),
    {
        match self {
            Failure::PolicyViolation => StatusClass::ClientError,
            Failure::InvalidCredentials => StatusClass::ClientError,
            Failure::StoreError(_) => StatusClass::ServerError,
            Failure::HashingError(_) => StatusClass::ServerError,
        }
    }

    #[verifier::when_used_as_spec(spec_is_internal)]
    pub fn is_internal(self) -> (internal: bool)
        ensures
            internal == self.spec_is_internal(),
    {
        match self {
            Failure::StoreError(_) => true,
            Failure::HashingError(_) => true,
            _ => false,
        }
    }
}

/// A failure is reported as a server error exactly when it is internal, and
/// never as a success.
pub proof fn lemma_failure_class(failure: Failure)
    ensures
        failure.class() == StatusClass::ServerError <==> failure.is_internal(),
        failure.class() == StatusClass::ClientError <==> !failure.is_internal(),
        failure.class() != StatusClass::Success,
{
}

} // verus!
