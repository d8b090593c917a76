//! Decisions of the token-bucket rate limiter around its cache and its
//! store.

use vstd::prelude::*;
use vstd::string::*;
use crate::text::{decimal, decimal_text};

verus! {

/// The limit is exceeded until `reset`, in seconds since the Unix epoch.
#[derive(Debug, Clone, Copy, PartialEq, Eq, Structural)]
pub struct RateLimitExceeded {
    pub reset: u64,
}

impl RateLimitExceeded {
    pub fn to_string(&self) -> (s: String)
        ensures
            s@ == "Rate limit exceeded. Try again at "@ + decimal(self.reset as nat),
    {
        let mut s = String::from_str("Rate limit exceeded. Try again at ");
        s.append(decimal_text(self.reset).as_str());
        s
    }
}

/// What the limiter does for a key, given what the cache of rate-limited
/// keys holds for it.
#[derive(Debug, Clone, Copy, PartialEq, Eq, Structural)]
pub enum Lookup {
    /// The key is known to be rate limited: refuse without asking the store.
    Refuse(RateLimitExceeded),
    /// Ask the store.
    AskStore,
}

/// The first step of a check: a key found in the cache of rate-limited keys
/// is refused at once, with the reset time the cache holds.
pub fn token_bucket(cached: Option<u64>) -> (step: Lookup)
    ensures
        step == match cached {
            Some(reset) => Lookup::Refuse(RateLimitExceeded { reset }),
            None => Lookup::AskStore,
        },
{
    match cached {
        Some(reset) => Lookup::Refuse(RateLimitExceeded { reset }),
        None => Lookup::AskStore,
    }
}

/// The verdict on the store's answer for a key: `remaining` tokens and the
/// time `reset`, in milliseconds, at which one more token is there. A
/// negative remainder is a refusal until `reset / 1000` seconds, which is
/// also what the cache of rate-limited keys is to hold for the key.
pub fn token_bucket_verdict(remaining: i64, reset: u64) -> (r: Result<(), RateLimitExceeded>)
    ensures
        r == if remaining < 0 {
            Err::<(), RateLimitExceeded>(RateLimitExceeded { reset: reset / 1000 })
        } else {
            Ok::<(), RateLimitExceeded>(())
        },
{
    if remaining < 0 {
        Err(RateLimitExceeded { reset: reset / 1000 })
    } else {
        Ok(())
    }
}

} // verus!
