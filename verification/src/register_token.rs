//! Registration confirmation tokens: the stored record and the random
//! token generator.

use vstd::prelude::*;

use rand::RngExt;

verus! {

/// Length of a registration token, in characters.
pub const REGISTER_TOKEN_LEN: usize = 6;

/// A stored registration confirmation token, waiting to be redeemed by
/// the user it was issued to. The expiry, when set, is seconds since
/// the epoch.
#[derive(Clone)]
pub struct RegisterToken {
    pub register_token: String,
    pub user_id: i64,
    pub expires_at: Option<i64>,
}

/// An ASCII letter or digit, as the token alphabet has them.
pub open spec fn is_token_char(c: char) -> bool {
    ||| 'A' as u32 <= c as u32 <= 'Z' as u32
    ||| 'a' as u32 <= c as u32 <= 'z' as u32
    ||| '0' as u32 <= c as u32 <= '9' as u32
}

/// Relies on rand's `Alphanumeric` distribution sampled from the
/// thread-local generator: returns a byte uniformly drawn from
/// `A`–`Z`, `a`–`z` and `0`–`9`. The result is random, so only its
/// range is stated.
#[verifier::external_body]
fn sample_alphanumeric() -> (b: u8)
    ensures
        (65 <= b <= 90) || (97 <= b <= 122) || (48 <= b <= 57),
{
    rand::rng().sample(rand::distr::Alphanumeric)
}

/// A fresh random token: [`REGISTER_TOKEN_LEN`] letters or digits.
pub fn generate_register_token() -> (r: String)
    ensures
        r@.len() == REGISTER_TOKEN_LEN,
        forall|i: int| 0 <= i < r@.len() ==> is_token_char(#[trigger] r@[i]),
{
    let mut s = String::new();
    let mut i: usize = 0;
    while i < REGISTER_TOKEN_LEN
        invariant
            0 <= i <= REGISTER_TOKEN_LEN,
            s@.len() == i,
            forall|k: int| 0 <= k < s@.len() ==> is_token_char(#[trigger] s@[k]),
        decreases REGISTER_TOKEN_LEN - i,
    {
        let b = sample_alphanumeric();
        s.push(b as char);
        i = i + 1;
    }
    s
}

impl RegisterToken {
    /// A token record for the given user with a freshly generated
    /// random token and no expiry.
    pub fn create(user_id: i64) -> (r: RegisterToken)
        ensures
            r.user_id == user_id,
            r.expires_at is None,
            r.register_token@.len() == REGISTER_TOKEN_LEN,
            forall|i: int|
                0 <= i < r.register_token@.len() ==> is_token_char(#[trigger] r.register_token@[i]),
    {
        RegisterToken { register_token: generate_register_token(), user_id, expires_at: None }
    }
}

} // verus!
