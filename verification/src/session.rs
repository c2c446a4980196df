//! Login sessions: the stored record tying a session token to a user.

use vstd::prelude::*;

verus! {

/// A stored login session.
#[derive(Clone)]
pub struct Session {
    pub session_token: Vec<u8>,
    pub user_id: i64,
}

impl Session {
    /// A session record for the given user under the given token.
    pub fn new(session_token: Vec<u8>, user_id: i64) -> (r: Session)
        ensures
            r.session_token@ == session_token@,
            r.user_id == user_id,
    {
        Session { session_token, user_id }
    }

    /// Whether the presented token is this session's token, byte for
    /// byte.
    pub fn token_matches(&self, token: &[u8]) -> (r: bool)
        ensures
            r == (self.session_token@ == token@),
    {
        let n = self.session_token.len();
        if n != token.len() {
            return false;
        }
        let mut i: usize = 0;
        while i < n
            invariant
                n == self.session_token@.len(),
                n == token@.len(),
                0 <= i <= n,
                forall|k: int| 0 <= k < i ==> self.session_token@[k] == token@[k],
            decreases n - i,
        {
            if self.session_token[i] != token[i] {
                return false;
            }
            i = i + 1;
        }
        proof {
            assert(self.session_token@ =~= token@);
        }
        true
    }
}

} // verus!
