//! Webhook secrets handed out when a repository is registered.
use vstd::prelude::*;
use rand::Rng;

verus! {

/// The length of a generated webhook secret.
pub const WEBHOOK_SECRET_LEN: usize = 32;

/// Whether `c` is an ASCII letter or digit.
pub open spec fn is_ascii_alphanumeric(c: char) -> bool {
    ('A' <= c <= 'Z') || ('a' <= c <= 'z') || ('0' <= c <= '9')
}

/// Draws `len` characters from `rand::distributions::Alphanumeric` with the
/// thread-local generator. What comes out is random; the contract claims
/// only what holds of every outcome: the length, and that each character is
/// an ASCII letter or digit (the distribution's alphabet, by its source).
#[verifier::external_body]
fn random_alphanumeric(len: usize) -> (res: String)
    ensures
        res@.len() == len,
        forall|i: int| 0 <= i < res@.len() ==> is_ascii_alphanumeric(#[trigger] res@[i]),
{
    rand::thread_rng().sample_iter(&rand::distributions::Alphanumeric).take(len).map(char::from).collect()
}

/// A fresh random webhook secret: 32 ASCII letters and digits.
pub fn generate_webhook_secret() -> (res: String)
    ensures
        res@.len() == WEBHOOK_SECRET_LEN,
        forall|i: int| 0 <= i < res@.len() ==> is_ascii_alphanumeric(#[trigger] res@[i]),
{
    random_alphanumeric(WEBHOOK_SECRET_LEN)
}

} // verus!
