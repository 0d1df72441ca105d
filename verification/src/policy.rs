//! The password policy: a pattern that every new password has to match.

use vstd::prelude::*;
use regex::Regex;

verus! {

#[verifier::external_type_specification]
#[verifier::external_body]
pub struct ExRegex(regex::Regex);

#[verifier::external_type_specification]
#[verifier::external_body]
pub struct ExRegexError(regex::Error);

/// The pattern text that a compiled pattern was made from: what
/// `regex::Regex::as_str` returns.
pub uninterp spec fn regex_source(re: Regex) -> Seq<char>;

/// Whether a compiled pattern matches somewhere in `text`: what
/// `regex::Regex::is_match` returns.
pub uninterp spec fn regex_matches(re: Regex, text: Seq<char>) -> bool;

/// Whether `regex::Regex::new` accepts a pattern text: whether the text is a
/// pattern in the matcher's syntax and compiles to a program within the
/// matcher's default size limit.
pub uninterp spec fn pattern_compiles(pattern: Seq<char>) -> bool;

/// Compiles a pattern.
///
/// Calls `regex::Regex::new`.  Trusted: whether the call succeeds depends on
/// the pattern text alone, the matcher being built with its default options
/// and limits; and a pattern that compiles remembers the text it was made
/// from.
#[verifier::external_body]
fn regex_new(pattern: &str) -> (compiled: Result<Regex, regex::Error>)
    ensures
        compiled is Ok <==> pattern_compiles(pattern@),
        compiled matches Ok(re) ==> regex_source(re) == pattern@,
{
    Regex::new(pattern)
}

/// Tests a text against a compiled pattern.
///
/// Calls `regex::Regex::is_match`.  Trusted: the answer depends on the
/// compiled pattern and the text alone.
#[verifier::external_body]
fn regex_is_match(re: &Regex, text: &str) -> (found: bool)
    ensures
        found == regex_matches(*re, text@),
{
    re.is_match(text)
}

/// The text of a compiled pattern.
///
/// Calls `regex::Regex::as_str`.  Trusted: it returns the text the pattern
/// was made from.
#[verifier::external_body]
fn regex_as_str(re: &Regex) -> (source: &str)
    ensures
        source@ == regex_source(*re),
{
    re.as_str()
}

/// Why a policy could not be set up.
#[derive(Clone, Copy, Debug, PartialEq, Eq, Structural)]
pub enum PolicyError {
    /// The pattern is not one the matcher accepts.
    InvalidPattern,
}

/// A password policy, compiled once and then only read.
#[derive(Debug)]
pub struct PasswordPolicy {
    regex: Regex,
}

impl PasswordPolicy {
    /// The compiled pattern that the policy holds.
    pub closed spec fn regex(&self) -> Regex {
        self.regex
    }

    /// The pattern text the policy was compiled from.
    pub open spec fn spec_pattern(&self) -> Seq<char> {
        regex_source(self.regex())
    }

    /// Whether the policy admits `password`: whether its pattern matches
    /// somewhere in it.
    pub open spec fn allows(&self, password: Seq<char>) -> bool {
        regex_matches(self.regex(), password)
    }

    /// Makes a policy of the outcome of compiling a pattern: of the compiled
    /// pattern, if there is one.
    pub fn from_compiled(compiled: Result<Regex, regex::Error>) -> (policy: Result<
        PasswordPolicy,
        PolicyError,
    >)
        ensures
            match compiled {
                Ok(regex) => policy matches Ok(p) && p.regex() == regex,
                Err(_) => policy == Err::<PasswordPolicy, PolicyError>(PolicyError::InvalidPattern),
            },
    {
        match compiled {
            Ok(regex) => Ok(PasswordPolicy { regex }),
            Err(_) => Err(PolicyError::InvalidPattern),
        }
    }

    /// Compiles `pattern` into a policy.  A pattern that the matcher accepts
    /// yields a policy of that pattern; any other yields `InvalidPattern`.
    pub fn compile(pattern: &str) -> (policy: Result<PasswordPolicy, PolicyError>)
        ensures
            policy is Ok <==> pattern_compiles(pattern@),
            policy matches Ok(p) ==> p.spec_pattern() == pattern@,
            policy matches Err(e) ==> e == PolicyError::InvalidPattern,
    {
        Self::from_compiled(regex_new(pattern))
    }

    /// The pattern text the policy was compiled from.
    pub fn pattern(&self) -> (pattern: &str)
        ensures
            pattern@ == self.spec_pattern(),
    {
        regex_as_str(&self.regex)
    }

    /// Checks a candidate password against the policy.
    pub fn validate(&self, password: &str) -> (ok: bool)
        ensures
            ok == self.allows(password@),
    {
        regex_is_match(&self.regex, password)
    }
}

} // verus!
