//! Confirmation tokens: what they look like and how they are drawn.

use rand::distr::{Alphanumeric, SampleString};
use vstd::prelude::*;

verus! {

/// The number of characters of a confirmation token.
pub const TOKEN_LENGTH: usize = 25;

/// An ASCII letter or digit.
pub open spec fn is_alphanumeric(c: char) -> bool {
    ('a' <= c && c <= 'z') || ('A' <= c && c <= 'Z') || ('0' <= c && c <= '9')
}

/// Every character of `s` is an ASCII letter or digit.
pub open spec fn all_alphanumeric(s: Seq<char>) -> bool {
    forall|i: int| 0 <= i < s.len() ==> is_alphanumeric(#[trigger] s[i])
}

/// The shape of a confirmation token: `TOKEN_LENGTH` ASCII letters and digits.
pub open spec fn is_token(s: Seq<char>) -> bool {
    s.len() == TOKEN_LENGTH && all_alphanumeric(s)
}

/// Calls `SampleString::sample_string` of the crate `rand` on its distribution
/// `Alphanumeric`, with the thread's generator (`rand::rng`), which is seeded
/// from the operating system. Which characters come back is left open, since
/// they are drawn at random; claimed is only what holds of every draw: there
/// are `len` of them, and each is one of a-z, A-Z and 0-9. The generator
/// panics where the operating system cannot seed it, which ends the process.
#[verifier::external_body]
fn sample_alphanumeric(len: usize) -> (s: String)
    ensures
        s@.len() == len,
        all_alphanumeric(s@),
{
    Alphanumeric.sample_string(&mut rand::rng(), len)
}

/// Draws a fresh confirmation token. Two calls give two tokens that are
/// unrelated: nothing but the shape is promised of the result.
pub fn generate_subscription_token() -> (token: String)
    ensures
        is_token(token@),
{
    sample_alphanumeric(TOKEN_LENGTH)
}

} // verus!
