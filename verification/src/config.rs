//! The configuration of a bucket, and the copy of it that each call works on.
//!
//! All durations are whole milliseconds.

use vstd::prelude::*;
use vstd::string::*;
use crate::errors::SLError;

verus! {

/// Prefix of every key that the limiter uses in the shared store, so that its
/// records cannot collide with unrelated keys.
pub const REDIS_KEY_PREFIX: &'static str = "__self-limiters:";

/// The store that is used where none is named.
pub const DEFAULT_REDIS_URL: &'static str = "redis://127.0.0.1:6379";

/// The size of the connection pool where none is given.
pub const DEFAULT_POOL_SIZE: u32 = 30;

/// What a bucket is configured with.
pub struct BucketConfig {
    /// The key of the bucket's record in the store, prefix included.
    pub name: Seq<char>,
    /// The most tokens the bucket can hold.
    pub capacity: u32,
    /// The time between two refills, in milliseconds.
    pub refill_frequency: u64,
    /// The tokens added by one refill.
    pub refill_amount: u32,
    /// The longest wait a caller accepts, in milliseconds; 0 for no bound.
    pub max_sleep: u64,
}

/// The key under which the store keeps the bucket called `name`.
pub open spec fn bucket_key(name: Seq<char>) -> Seq<char> {
    REDIS_KEY_PREFIX@ + name
}

/// The bound that a requested `max_sleep` stands for: itself where it is
/// positive, and 0, no bound, where it is absent, zero or negative.
pub open spec fn sleep_bound(max_sleep: Option<i64>) -> u64 {
    match max_sleep {
        Some(millis) => if millis > 0 { millis as u64 } else { 0 },
        None => 0,
    }
}

/// A token bucket: the handle that clients share. It is never changed after
/// it was built.
pub struct TokenBucket {
    capacity: u32,
    refill_frequency: u64,
    refill_amount: u32,
    name: String,
    max_sleep: u64,
    redis_url: String,
    connection_pool_size: u32,
}

impl View for TokenBucket {
    type V = BucketConfig;

    closed spec fn view(&self) -> BucketConfig {
        BucketConfig {
            name: self.name@,
            capacity: self.capacity,
            refill_frequency: self.refill_frequency,
            refill_amount: self.refill_amount,
            max_sleep: self.max_sleep,
        }
    }
}

impl TokenBucket {
    #[verifier::type_invariant]
    spec fn refills(self) -> bool {
        self.refill_frequency > 0
    }

    /// The address of the store that holds the bucket.
    pub closed spec fn store_address(&self) -> Seq<char> {
        self.redis_url@
    }

    /// The number of connections to the store that the bucket's clients share.
    pub closed spec fn pool_size(&self) -> u32 {
        self.connection_pool_size
    }

    /// Builds a bucket.
    ///
    /// `refill_frequency` and `max_sleep` are in milliseconds. The only
    /// parameter that is checked is `refill_frequency`: it must be positive.
    /// A `max_sleep` that is absent, zero or negative means that callers wait
    /// as long as it takes.
    pub fn new(
        name: String,
        capacity: u32,
        refill_frequency: i64,
        refill_amount: u32,
        redis_url: Option<&str>,
        max_sleep: Option<i64>,
        connection_pool_size: Option<u32>,
    ) -> (result: Result<TokenBucket, SLError>)
        ensures
            refill_frequency <= 0 ==> result is Err && result->Err_0
                == SLError::ConfigurationError,
            refill_frequency > 0 ==> {
                &&& result is Ok
                &&& result->Ok_0@ == (BucketConfig {
                    name: bucket_key(name@),
                    capacity,
                    refill_frequency: refill_frequency as u64,
                    refill_amount,
                    max_sleep: sleep_bound(max_sleep),
                })
                &&& result->Ok_0.store_address() == match redis_url {
                    Some(url) => url@,
                    None => DEFAULT_REDIS_URL@,
                }
                &&& result->Ok_0.pool_size() == match connection_pool_size {
                    Some(size) => size,
                    None => DEFAULT_POOL_SIZE,
                }
            },
    {
        if refill_frequency <= 0 {
            return Err(SLError::ConfigurationError);
        }
        let mut key: String = String::from_str(REDIS_KEY_PREFIX);
        key.append(name.as_str());
        let bound: u64 = match max_sleep {
            Some(millis) => if millis > 0 { millis as u64 } else { 0 },
            None => 0,
        };
        let url: String = match redis_url {
            Some(url) => String::from_str(url),
            None => String::from_str(DEFAULT_REDIS_URL),
        };
        let pool_size: u32 = match connection_pool_size {
            Some(size) => size,
            None => DEFAULT_POOL_SIZE,
        };
        Ok(
            TokenBucket {
                capacity,
                refill_frequency: refill_frequency as u64,
                refill_amount,
                name: key,
                max_sleep: bound,
                redis_url: url,
                connection_pool_size: pool_size,
            },
        )
    }

    /// The most tokens the bucket can hold.
    pub fn capacity(&self) -> (capacity: u32)
        ensures
            capacity == self@.capacity,
    {
        self.capacity
    }

    /// The time between two refills, in milliseconds. It is never zero.
    pub fn refill_frequency(&self) -> (millis: u64)
        ensures
            millis == self@.refill_frequency,
            millis > 0,
    {
        proof {
            use_type_invariant(self);
        }
        self.refill_frequency
    }

    /// The tokens added by one refill.
    pub fn refill_amount(&self) -> (amount: u32)
        ensures
            amount == self@.refill_amount,
    {
        self.refill_amount
    }

    /// The key of the bucket's record in the store.
    pub fn name(&self) -> (name: &str)
        ensures
            name@ == self@.name,
    {
        self.name.as_str()
    }

    /// The longest wait a caller accepts, in milliseconds; 0 for no bound.
    pub fn max_sleep(&self) -> (millis: u64)
        ensures
            millis == self@.max_sleep,
    {
        self.max_sleep
    }

    /// The address of the store that holds the bucket.
    pub fn redis_url(&self) -> (url: &str)
        ensures
            url@ == self.store_address(),
    {
        self.redis_url.as_str()
    }

    /// The number of connections to the store that the bucket's clients share.
    pub fn connection_pool_size(&self) -> (size: u32)
        ensures
            size == self.pool_size(),
    {
        self.connection_pool_size
    }

    /// A line of text that tells which bucket this is.
    pub fn repr(&self) -> (text: String)
        ensures
            text@ == "Token bucket instance for queue "@ + self@.name,
    {
        let mut text: String = String::from_str("Token bucket instance for queue ");
        text.append(self.name.as_str());
        text
    }
}

/// The copy of a bucket's configuration that one call works on, so that the
/// call borrows nothing from the handle while it waits.
pub struct ThreadState {
    capacity: u32,
    frequency: u64,
    amount: u32,
    max_sleep: u64,
    name: String,
}

impl View for ThreadState {
    type V = BucketConfig;

    closed spec fn view(&self) -> BucketConfig {
        BucketConfig {
            name: self.name@,
            capacity: self.capacity,
            refill_frequency: self.frequency,
            refill_amount: self.amount,
            max_sleep: self.max_sleep,
        }
    }
}

impl ThreadState {
    #[verifier::type_invariant]
    spec fn refills(self) -> bool {
        self.frequency > 0
    }

    /// Copies the configuration of `slf`.
    pub fn from(slf: &TokenBucket) -> (state: ThreadState)
        ensures
            state@ == slf@,
    {
        proof {
            use_type_invariant(slf);
        }
        ThreadState {
            capacity: slf.capacity,
            frequency: slf.refill_frequency,
            amount: slf.refill_amount,
            max_sleep: slf.max_sleep,
            name: slf.name.clone(),
        }
    }

    /// The most tokens the bucket can hold.
    pub fn capacity(&self) -> (capacity: u32)
        ensures
            capacity == self@.capacity,
    {
        self.capacity
    }

    /// The time between two refills, in milliseconds. It is never zero.
    pub fn frequency(&self) -> (millis: u64)
        ensures
            millis == self@.refill_frequency,
            millis > 0,
    {
        proof {
            use_type_invariant(self);
        }
        self.frequency
    }

    /// The tokens added by one refill.
    pub fn amount(&self) -> (amount: u32)
        ensures
            amount == self@.refill_amount,
    {
        self.amount
    }

    /// The longest wait the caller accepts, in milliseconds; 0 for no bound.
    pub fn max_sleep(&self) -> (millis: u64)
        ensures
            millis == self@.max_sleep,
    {
        self.max_sleep
    }

    /// The key of the bucket's record in the store.
    pub fn name(&self) -> (name: &str)
        ensures
            name@ == self@.name,
    {
        self.name.as_str()
    }
}

} // verus!
