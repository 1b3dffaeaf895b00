//! Confirmation token generation.
//!
//! A token is a 25-character alphanumeric string drawn from a
//! cryptographically adequate random source; it later serves as the
//! single-use credential of the confirmation link.

use rand::distributions::DistString;
use vstd::prelude::*;

verus! {

/// The alphabet a token is drawn from: ASCII letters and digits.
pub open spec fn is_token_char(c: char) -> bool {
    ('a' <= c && c <= 'z') || ('A' <= c && c <= 'Z') || ('0' <= c && c <= '9')
}

/// A well-formed confirmation token: exactly 25 alphanumeric characters.
pub open spec fn is_wellformed_token(s: Seq<char>) -> bool {
    s.len() == 25 && forall|i: int| 0 <= i < s.len() ==> is_token_char(#[trigger] s[i])
}

/// Relies on `rand::distributions::Alphanumeric` with
/// `DistString::sample_string`: the sampled string holds exactly the asked
/// number of characters, each drawn from `A-Z`, `a-z`, `0-9`. The value is
/// random, so nothing more is promised of it.
#[verifier::external_body]
fn sample_alphanumeric_25() -> (r: String)
    ensures
        r@.len() == 25,
        forall|i: int| 0 <= i < r@.len() ==> is_token_char(#[trigger] r@[i]),
{
    rand::distributions::Alphanumeric.sample_string(&mut rand::thread_rng(), 25)
}

/// Produces a fresh confirmation token: a high-entropy, URL-safe string of
/// 25 alphanumeric characters.
pub fn generate_subscription_token() -> (r: String)
    ensures
        is_wellformed_token(r@),
{
    sample_alphanumeric_25()
}

} // verus!
