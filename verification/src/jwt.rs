//! The claims of an authentication token: whose it is and when it ends.
//! Signing and parsing the token's text is the caller's part.

use vstd::prelude::*;
use crate::err::{Error, ErrorView};

verus! {

/// The claims that a token carries: the identifier of a record, as its
/// twelve bytes, and the second of the Unix epoch at which the token ends.
#[derive(Debug, Clone, Copy, PartialEq, Eq)]
pub struct Token {
    pub id: [u8; 12],
    pub exp: usize,
}

/// Whether a token that ends at `exp` is over at the second `now`.
pub open spec fn expired_at(exp: nat, now: int) -> bool {
    now > exp
}

/// The claims for `id` that are issued at the second `now` and end `ttl`
/// seconds later, where both numbers are seconds that can be counted.
pub open spec fn claims_at(id: [u8; 12], now: int, ttl: int) -> Option<Token> {
    if 0 <= now && 0 <= ttl && now + ttl <= usize::MAX {
        Some(Token { id, exp: (now + ttl) as usize })
    } else {
        None
    }
}

/// The seconds since the Unix epoch, read through `chrono::Utc::now` and
/// `DateTime::timestamp`. Nothing is claimed of which time it is.
#[verifier::external_body]
pub(crate) fn utc_now() -> (now: i64) {
    chrono::Utc::now().timestamp()
}

impl Token {
    /// The claims for `id` that are issued at the second `now` and end
    /// `ttl` seconds later. There are none where either number is
    /// negative or the end is beyond what `usize` holds.
    pub fn with_lifetime(id: [u8; 12], now: i64, ttl: i64) -> (r: Option<Token>)
        ensures
            r == claims_at(id, now as int, ttl as int),
    {
        if now < 0 || ttl < 0 {
            return None;
        }
        let end: u64 = now as u64 + ttl as u64;
        if end > usize::MAX as u64 {
            return None;
        }
        Some(Token { id, exp: end as usize })
    }

    /// The claims of a token for `id` that is issued now and ends `exp`
    /// seconds later, for the caller to sign: what
    /// [`Token::with_lifetime`] gives for the second that the clock shows.
    pub fn encode(id: &[u8; 12], exp: i64) -> (r: Option<Token>)
        ensures
            exists|now: i64| r == claims_at(*id, now as int, exp as int),
    {
        let now = utc_now();
        let r = Token::with_lifetime(*id, now, exp);
        assert(r == claims_at(*id, now as int, exp as int));
        r
    }

    /// Takes the claims that were parsed from a token whose signature
    /// held, and gives them back unless the token is over at the second
    /// `now`.
    pub fn decode_at(claims: Token, now: i64) -> (r: Result<Token, Error>)
        ensures
            match r {
                Ok(t) => !expired_at(claims.exp as nat, now as int) && t == claims,
                Err(e) => expired_at(claims.exp as nat, now as int) && e@
                    == ErrorView::TokenExpired,
            },
    {
        match claims.check_expired_at(now) {
            Ok(_) => Ok(claims),
            Err(e) => Err(e),
        }
    }

    /// Takes the claims that were parsed from a token whose signature
    /// held, and gives them back unless the token is over by now: what
    /// [`Token::decode_at`] gives for the second that the clock shows. A
    /// token that ends at or after the last second that the clock can show
    /// is therefore always given back.
    pub fn decode(claims: Token) -> (r: Result<Token, Error>)
        ensures
            exists|now: i64| r is Err <==> expired_at(claims.exp as nat, now as int),
            match r {
                Ok(t) => t == claims,
                Err(e) => e@ == ErrorView::TokenExpired,
            },
    {
        let now = utc_now();
        let r = Token::decode_at(claims, now);
        assert(r is Err <==> expired_at(claims.exp as nat, now as int));
        r
    }

    /// Holds the token to the second `now`: `TokenExpired` where it is
    /// over.
    pub fn check_expired_at(&self, now: i64) -> (r: Result<(), Error>)
        ensures
            match r {
                Ok(_) => !expired_at(self.exp as nat, now as int),
                Err(e) => expired_at(self.exp as nat, now as int) && e@ == ErrorView::TokenExpired,
            },
    {
        if now >= 0 && now as u64 > self.exp as u64 {
            return Err(Error::TokenExpired);
        }
        Ok(())
    }

    /// Holds the token to the present time: what
    /// [`Token::check_expired_at`] gives for the second that the clock
    /// shows. The only error is `TokenExpired`, and a token that ends at or
    /// after the last second that the clock can show never gets it.
    pub fn check_expired(&self) -> (r: Result<(), Error>)
        ensures
            exists|now: i64| r is Err <==> expired_at(self.exp as nat, now as int),
            r is Err ==> r->Err_0@ == ErrorView::TokenExpired,
    {
        let now = utc_now();
        let r = self.check_expired_at(now);
        assert(r is Err <==> expired_at(self.exp as nat, now as int));
        r
    }
}

} // verus!
