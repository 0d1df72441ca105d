//! Session tokens: random 128-bit identifiers in their compact text form.

use vstd::prelude::*;

verus! {

/// The number of characters in a session token: 128 bits, four to a character.
pub const TOKEN_LEN: usize = 32;

/// Whether `c` is one of the sixteen lower-case hexadecimal digits.
pub open spec fn is_lower_hex(c: char) -> bool {
    ('0' <= c && c <= '9') || ('a' <= c && c <= 'f')
}

/// The shape of a session token: thirty-two lower-case hexadecimal digits, of
/// which the thirteenth marks the identifier as random and the seventeenth
/// carries the two fixed bits of its layout.
pub open spec fn is_session_token(s: Seq<char>) -> bool {
    &&& s.len() == TOKEN_LEN
    &&& forall|i: int| 0 <= i < s.len() ==> is_lower_hex(#[trigger] s[i])
    &&& s[12] == '4'
    &&& (s[16] == '8' || s[16] == '9' || s[16] == 'a' || s[16] == 'b')
}

/// Draws a fresh session token.
///
/// Calls `uuid::Uuid::new_v4`, then `to_simple` and `to_string` on the result.
/// Trusted: the text has the shape of [`is_session_token`].  `new_v4` sets the
/// version and layout bits of sixteen random bytes, and the simple form writes
/// each byte as two lower-case hexadecimal digits without separators.  Nothing
/// is claimed about which token comes out: two calls may differ.  `new_v4`
/// panics when the operating system cannot supply random bytes.
#[verifier::external_body]
pub(crate) fn new_session_token() -> (token: String)
    ensures
        is_session_token(token@),
{
    uuid::Uuid::new_v4().to_simple().to_string()
}

} // verus!
