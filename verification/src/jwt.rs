//! The claims of the bot's session tokens.

use vstd::prelude::*;

verus! {

/// Seconds in the year a session lasts.
pub const SESSION_SECS: i64 = 31_536_000;

/// The claims of a session token: when it expires (Unix seconds) and whose
/// it is.
#[derive(Debug)]
pub struct JwtClaims {
    pub exp: usize,
    pub user_id: String,
}

impl JwtClaims {
    /// Claims for `user_id` that expire a year after `now` (Unix seconds);
    /// the expiry is cast to a `usize` as it is, truncating a time before
    /// the epoch or past the `usize` range.
    pub fn new(user_id: String, now: i64) -> (r: JwtClaims)
        requires
            now + SESSION_SECS <= i64::MAX,
        ensures
            r.exp == (now + SESSION_SECS) as usize,
            r.user_id == user_id,
    {
        let exp = now + SESSION_SECS;
        JwtClaims { exp: exp as usize, user_id }
    }

    /// Whose session it is.
    pub fn user_id(&self) -> (r: &str)
        ensures
            r@ == self.user_id@,
    {
        self.user_id.as_str()
    }
}

} // verus!
