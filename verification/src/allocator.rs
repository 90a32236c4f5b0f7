//! The slot allocator: the one operation that reads and rewrites a bucket's
//! record in the shared store.
//!
//! The store runs the operation atomically, so the calls of all clients on one
//! bucket form a single sequence; what holds of such a sequence is proved in
//! `history`. All times are milliseconds since the epoch.

use vstd::prelude::*;
use crate::errors::SLError;

verus! {

/// What the shared store keeps for one bucket.
#[derive(Clone, Copy, Debug, PartialEq, Eq, Structural)]
pub struct BucketState {
    /// Tokens that can still be handed out without pushing the slot forward.
    pub tokens: u32,
    /// The latest slot given out so far; no later call gets an earlier one.
    pub next_slot: u64,
}

/// The outcome of one successful allocation.
#[derive(Clone, Copy, Debug, PartialEq, Eq, Structural)]
pub struct Allocation {
    /// The timestamp at which the caller may proceed.
    pub slot: u64,
    /// The record to write back to the store.
    pub state: BucketState,
}

/// The time one token costs: the refill interval divided by the refill amount,
/// rounded up so that tokens are never handed out faster than they refill.
pub open spec fn token_cost(refill_interval: nat, refill_amount: nat) -> nat
    recommends
        refill_amount > 0,
{
    if refill_amount == 0 {
        0
    } else {
        ((refill_interval + refill_amount - 1) / (refill_amount as int)) as nat
    }
}

/// The record an allocation starts from: a full bucket whose slot is `now` when
/// the store holds nothing yet, else the stored record with its token count
/// clamped to `capacity`.
pub open spec fn loaded(stored: Option<BucketState>, now: u64, capacity: u32) -> BucketState {
    match stored {
        None => BucketState { tokens: capacity, next_slot: now },
        Some(state) => BucketState {
            tokens: if state.tokens > capacity { capacity } else { state.tokens },
            next_slot: state.next_slot,
        },
    }
}

/// What one allocation does, or `None` where it cannot be carried out.
///
/// With a token left, the token is taken and the slot is the later of `now` and
/// the last slot. With none left, the slot is the last slot plus the cost of one
/// token. The allocation fails only in that second case: when `refill_amount`
/// is zero, so that a token has no cost, or when the new slot does not fit in 64
/// bits.
pub open spec fn allocation(
    stored: Option<BucketState>,
    now: u64,
    capacity: u32,
    refill_interval: u64,
    refill_amount: u32,
) -> Option<Allocation> {
    let current = loaded(stored, now, capacity);
    let pushed = current.next_slot + token_cost(refill_interval as nat, refill_amount as nat);
    if current.tokens > 0 {
        let slot = if now > current.next_slot { now } else { current.next_slot };
        Some(
            Allocation {
                slot,
                state: BucketState { tokens: (current.tokens - 1) as u32, next_slot: slot },
            },
        )
    } else if refill_amount > 0 && pushed <= u64::MAX {
        Some(
            Allocation {
                slot: pushed as u64,
                state: BucketState { tokens: 0, next_slot: pushed as u64 },
            },
        )
    } else {
        None
    }
}

/// The cost of one token is the least time `t` with
/// `t * refill_amount >= refill_interval`: it reaches the interval, and any
/// time `t` that does so is at least as long.
pub proof fn lemma_token_cost_is_least(refill_interval: nat, refill_amount: nat, t: nat)
    requires
        refill_amount > 0,
    ensures
        token_cost(refill_interval, refill_amount) * refill_amount >= refill_interval,
        t * refill_amount >= refill_interval ==> t >= token_cost(refill_interval, refill_amount),
{
    let cost = token_cost(refill_interval, refill_amount);
    let top = (refill_interval + refill_amount - 1) as int;
    let amount = refill_amount as int;
    assert(top == amount * (top / amount) + top % amount && 0 <= top % amount < amount) by {
        vstd::arithmetic::div_mod::lemma_fundamental_div_mod(top, amount);
        vstd::arithmetic::div_mod::lemma_mod_bound(top, amount);
    }
    assert(top / amount >= 0) by {
        vstd::arithmetic::div_mod::lemma_div_pos_is_pos(top, amount);
    }
    assert(cost * refill_amount == amount * (top / amount)) by (nonlinear_arith)
        requires
            cost == top / amount,
            amount == refill_amount,
    ;
    if t < cost {
        assert(t * refill_amount <= (cost - 1) * refill_amount) by (nonlinear_arith)
            requires
                t <= cost - 1,
                refill_amount > 0,
        ;
        assert((cost - 1) * refill_amount == cost * refill_amount - refill_amount)
            by (nonlinear_arith);
    }
}

/// The time one token costs, or `None` when no tokens are ever refilled.
pub fn time_per_token(refill_interval: u64, refill_amount: u32) -> (cost: Option<u64>)
    ensures
        refill_amount == 0 ==> cost.is_none(),
        refill_amount > 0 ==> cost == Some(
            token_cost(refill_interval as nat, refill_amount as nat) as u64,
        ),
        refill_amount > 0 ==> token_cost(refill_interval as nat, refill_amount as nat)
            <= refill_interval,
{
    if refill_amount == 0 {
        return None;
    }
    let amount: u64 = refill_amount as u64;
    let whole: u64 = refill_interval / amount;
    let rest: u64 = refill_interval % amount;
    proof {
        let i = refill_interval as int;
        let a = amount as int;
        vstd::arithmetic::div_mod::lemma_fundamental_div_mod(i, a);
        assert(i == a * (i / a) + i % a);
        if rest == 0 {
            // i + a - 1 == a * whole + (a - 1)
            vstd::arithmetic::div_mod::lemma_fundamental_div_mod_converse(
                i + a - 1,
                a,
                whole as int,
                a - 1,
            );
        } else {
            // i + a - 1 == a * (whole + 1) + (rest - 1)
            assert(a * (whole + 1) == a * whole + a) by (nonlinear_arith);
            vstd::arithmetic::div_mod::lemma_fundamental_div_mod_converse(
                i + a - 1,
                a,
                whole + 1,
                rest - 1,
            );
            assert(a * whole >= whole) by (nonlinear_arith)
                requires
                    a >= 1,
                    whole >= 0,
            ;
        }
    }
    if rest == 0 {
        Some(whole)
    } else {
        Some(whole + 1)
    }
}

/// Hands out the next slot of a bucket.
///
/// `stored` is what the store holds for the bucket, `None` before the first
/// call. On success the result holds the slot and the record to write back.
/// Where the allocation cannot be carried out nothing is to be written.
pub fn allocate_slot(
    stored: Option<BucketState>,
    now: u64,
    capacity: u32,
    refill_interval: u64,
    refill_amount: u32,
) -> (result: Result<Allocation, SLError>)
    ensures
        match allocation(stored, now, capacity, refill_interval, refill_amount) {
            Some(done) => result == Ok::<Allocation, SLError>(done),
            None => result == Err::<Allocation, SLError>(SLError::ScriptExecutionError),
        },
{
    let current: BucketState = match stored {
        None => BucketState { tokens: capacity, next_slot: now },
        Some(state) => BucketState {
            tokens: if state.tokens > capacity { capacity } else { state.tokens },
            next_slot: state.next_slot,
        },
    };
    if current.tokens > 0 {
        let slot: u64 = if now > current.next_slot { now } else { current.next_slot };
        return Ok(
            Allocation { slot, state: BucketState { tokens: current.tokens - 1, next_slot: slot } },
        );
    }
    match time_per_token(refill_interval, refill_amount) {
        None => Err(SLError::ScriptExecutionError),
        Some(cost) => match current.next_slot.checked_add(cost) {
            None => Err(SLError::ScriptExecutionError),
            Some(slot) => Ok(Allocation { slot, state: BucketState { tokens: 0, next_slot: slot } }),
        },
    }
}

} // verus!
