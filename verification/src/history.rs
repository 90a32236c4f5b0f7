//! What holds of a whole sequence of allocations on one bucket.
//!
//! The store serialises the allocations of all clients, so whatever the
//! clients do at the same time, the bucket sees one call after another. A
//! history is that sequence: for each call the time the store read and the
//! parameters the client sent.

use vstd::prelude::*;
use crate::allocator::{allocation, token_cost, Allocation, BucketState};
use crate::scheduler::wait_until;

verus! {

/// One allocation call as the store sees it.
pub struct Call {
    /// The store's clock when the call is served.
    pub now: u64,
    /// The capacity that the client sent.
    pub capacity: u32,
    /// The refill interval that the client sent, in milliseconds.
    pub refill_interval: u64,
    /// The refill amount that the client sent.
    pub refill_amount: u32,
}

/// What a call does to the record it finds.
pub open spec fn outcome(stored: Option<BucketState>, call: Call) -> Option<Allocation> {
    allocation(stored, call.now, call.capacity, call.refill_interval, call.refill_amount)
}

/// The record in the store after `calls` were served in order, starting from
/// `stored`. A call that fails leaves the record as it found it.
pub open spec fn record_after(stored: Option<BucketState>, calls: Seq<Call>) -> Option<
    BucketState,
>
    decreases calls.len(),
{
    if calls.len() == 0 {
        stored
    } else {
        let before = record_after(stored, calls.drop_last());
        match outcome(before, calls.last()) {
            Some(done) => Some(done.state),
            None => before,
        }
    }
}

/// What the call at position `i` of the history does.
pub open spec fn nth_outcome(stored: Option<BucketState>, calls: Seq<Call>, i: int) -> Option<
    Allocation,
>
    recommends
        0 <= i < calls.len(),
{
    outcome(record_after(stored, calls.take(i)), calls[i])
}

/// All calls of the history carry the same bucket parameters.
pub open spec fn uniform(
    calls: Seq<Call>,
    capacity: u32,
    refill_interval: u64,
    refill_amount: u32,
) -> bool {
    forall|i: int|
        0 <= i < calls.len() ==> {
            &&& (#[trigger] calls[i]).capacity == capacity
            &&& calls[i].refill_interval == refill_interval
            &&& calls[i].refill_amount == refill_amount
        }
}

/// The store's clock does not go back during the first `n` calls.
pub open spec fn clock_steady(calls: Seq<Call>, n: int) -> bool {
    forall|i: int, j: int| 0 <= i <= j < n ==> (#[trigger] calls[i]).now <= (#[trigger] calls[j]).now
}

/// A successful allocation records the slot it hands out, and that slot is not
/// earlier than the one recorded before it.
pub proof fn lemma_allocation_moves_forward(stored: Option<BucketState>, call: Call)
    requires
        outcome(stored, call) is Some,
    ensures
        outcome(stored, call).unwrap().state.next_slot == outcome(stored, call).unwrap().slot,
        stored is Some ==> outcome(stored, call).unwrap().slot >= stored.unwrap().next_slot,
        stored is None ==> outcome(stored, call).unwrap().slot >= call.now,
{
}

/// The first `j + 1` calls of a history are its first `j` calls and the call
/// at position `j`.
proof fn lemma_take_step(calls: Seq<Call>, j: int)
    requires
        0 <= j < calls.len(),
    ensures
        calls.take(j + 1).drop_last() == calls.take(j),
        calls.take(j + 1).last() == calls[j],
        calls.take(j + 1).len() == j + 1,
{
    assert(calls.take(j + 1).drop_last() =~= calls.take(j));
}

/// Once a record exists, it stays, and its slot never goes back.
proof fn lemma_record_moves_forward(stored: Option<BucketState>, calls: Seq<Call>, i: int, j: int)
    requires
        0 <= i <= j <= calls.len(),
        record_after(stored, calls.take(i)) is Some,
    ensures
        record_after(stored, calls.take(j)) is Some,
        record_after(stored, calls.take(j)).unwrap().next_slot >= record_after(
            stored,
            calls.take(i),
        ).unwrap().next_slot,
    decreases j - i,
{
    if i < j {
        lemma_record_moves_forward(stored, calls, i, j - 1);
        lemma_take_step(calls, j - 1);
        let before = record_after(stored, calls.take(j - 1));
        if outcome(before, calls[j - 1]) is Some {
            lemma_allocation_moves_forward(before, calls[j - 1]);
        }
    }
}

/// Slots never go back: of two calls of one history that both succeed, the
/// later one gets a slot that is not earlier than the slot of the earlier one.
/// This holds whatever times the store reads and whatever parameters the calls
/// carry.
pub proof fn lemma_slots_never_go_back(
    stored: Option<BucketState>,
    calls: Seq<Call>,
    i: int,
    j: int,
)
    requires
        0 <= i <= j < calls.len(),
        nth_outcome(stored, calls, i) is Some,
        nth_outcome(stored, calls, j) is Some,
    ensures
        nth_outcome(stored, calls, i).unwrap().slot <= nth_outcome(stored, calls, j).unwrap().slot,
{
    if i < j {
        lemma_take_step(calls, i);
        let before = record_after(stored, calls.take(i));
        lemma_allocation_moves_forward(before, calls[i]);
        assert(record_after(stored, calls.take(i + 1)) == Some(
            nth_outcome(stored, calls, i).unwrap().state,
        ));
        lemma_record_moves_forward(stored, calls, i + 1, j);
        lemma_allocation_moves_forward(record_after(stored, calls.take(j)), calls[j]);
    }
}

/// No call gets a slot earlier than the one already recorded when the history
/// began.
pub proof fn lemma_slots_follow_the_record(
    stored: Option<BucketState>,
    calls: Seq<Call>,
    i: int,
)
    requires
        0 <= i < calls.len(),
        stored is Some,
        nth_outcome(stored, calls, i) is Some,
    ensures
        nth_outcome(stored, calls, i).unwrap().slot >= stored.unwrap().next_slot,
{
    assert(calls.take(0) =~= Seq::<Call>::empty());
    lemma_record_moves_forward(stored, calls, 0, i);
    lemma_allocation_moves_forward(record_after(stored, calls.take(i)), calls[i]);
}

/// The first `capacity` calls on a new bucket all succeed, each takes one
/// token, and each records the slot it hands out.
proof fn lemma_burst_record(
    calls: Seq<Call>,
    capacity: u32,
    refill_interval: u64,
    refill_amount: u32,
    n: int,
)
    requires
        uniform(calls, capacity, refill_interval, refill_amount),
        1 <= n <= capacity,
        n <= calls.len(),
    ensures
        nth_outcome(None, calls, n - 1) is Some,
        nth_outcome(None, calls, n - 1).unwrap().slot >= calls[n - 1].now,
        clock_steady(calls, n) ==> nth_outcome(None, calls, n - 1).unwrap().slot == calls[n
            - 1].now,
        nth_outcome(None, calls, n - 1).unwrap().state == (BucketState {
            tokens: (capacity - n) as u32,
            next_slot: nth_outcome(None, calls, n - 1).unwrap().slot,
        }),
        record_after(None, calls.take(n)) == Some(nth_outcome(None, calls, n - 1).unwrap().state),
    decreases n,
{
    lemma_take_step(calls, n - 1);
    if n == 1 {
        assert(calls.take(0) =~= Seq::<Call>::empty());
    } else {
        lemma_burst_record(calls, capacity, refill_interval, refill_amount, n - 1);
        if clock_steady(calls, n) {
            assert(clock_steady(calls, n - 1));
            assert(calls[n - 2].now <= calls[n - 1].now);
        }
    }
}

/// A new bucket serves its first `capacity` calls without delay: as long as the
/// store's clock does not go back, each of them gets the time of the call as
/// its slot.
pub proof fn lemma_new_bucket_serves_capacity_at_once(
    calls: Seq<Call>,
    capacity: u32,
    refill_interval: u64,
    refill_amount: u32,
    i: int,
)
    requires
        uniform(calls, capacity, refill_interval, refill_amount),
        0 <= i < capacity,
        i < calls.len(),
        clock_steady(calls, i + 1),
    ensures
        nth_outcome(None, calls, i) == Some(
            Allocation {
                slot: calls[i].now,
                state: BucketState { tokens: (capacity - 1 - i) as u32, next_slot: calls[i].now },
            },
        ),
{
    lemma_burst_record(calls, capacity, refill_interval, refill_amount, i + 1);
}

/// The call that follows the first `capacity` calls on a new bucket has to wait
/// for a refill: where it succeeds, its slot lies exactly the cost of one token
/// after the slot of the call before it, which is at least the refill interval
/// divided by the refill amount.
pub proof fn lemma_call_past_capacity_waits_for_refill(
    calls: Seq<Call>,
    capacity: u32,
    refill_interval: u64,
    refill_amount: u32,
)
    requires
        uniform(calls, capacity, refill_interval, refill_amount),
        capacity > 0,
        calls.len() > capacity,
        nth_outcome(None, calls, capacity as int) is Some,
    ensures
        nth_outcome(None, calls, capacity - 1) is Some,
        refill_amount > 0,
        nth_outcome(None, calls, capacity as int).unwrap().slot == nth_outcome(
            None,
            calls,
            capacity - 1,
        ).unwrap().slot + token_cost(refill_interval as nat, refill_amount as nat),
        (nth_outcome(None, calls, capacity as int).unwrap().slot - nth_outcome(
            None,
            calls,
            capacity - 1,
        ).unwrap().slot) * refill_amount >= refill_interval,
{
    lemma_burst_record(calls, capacity, refill_interval, refill_amount, capacity as int);
    crate::allocator::lemma_token_cost_is_least(refill_interval as nat, refill_amount as nat, 0);
}

/// Once the first `capacity` calls were served, the record of a bucket that
/// started new holds no token, and never holds one again.
proof fn lemma_no_token_past_capacity(
    calls: Seq<Call>,
    capacity: u32,
    refill_interval: u64,
    refill_amount: u32,
    m: int,
)
    requires
        uniform(calls, capacity, refill_interval, refill_amount),
        capacity > 0,
        capacity <= m <= calls.len(),
    ensures
        record_after(None, calls.take(m)) is Some,
        record_after(None, calls.take(m)).unwrap().tokens == 0,
    decreases m,
{
    if m == capacity {
        lemma_burst_record(calls, capacity, refill_interval, refill_amount, m);
    } else {
        lemma_no_token_past_capacity(calls, capacity, refill_interval, refill_amount, m - 1);
        lemma_take_step(calls, m - 1);
    }
}

/// The rate that the bucket enforces: on a bucket that started new, the calls
/// that follow the first `capacity` calls are spaced by exactly the cost of one
/// token, one after the other, whatever the clock reads when they are served.
/// So the call at position `n` gets a slot that lies `n - capacity + 1` token
/// costs after the slot of the last call that found a token.
pub proof fn lemma_calls_past_capacity_are_evenly_spaced(
    calls: Seq<Call>,
    capacity: u32,
    refill_interval: u64,
    refill_amount: u32,
    n: int,
)
    requires
        uniform(calls, capacity, refill_interval, refill_amount),
        capacity > 0,
        capacity <= n < calls.len(),
        nth_outcome(None, calls, n) is Some,
    ensures
        nth_outcome(None, calls, capacity - 1) is Some,
        nth_outcome(None, calls, n).unwrap().slot == nth_outcome(
            None,
            calls,
            capacity - 1,
        ).unwrap().slot + (n - capacity + 1) * token_cost(
            refill_interval as nat,
            refill_amount as nat,
        ),
        nth_outcome(None, calls, n).unwrap().state == (BucketState {
            tokens: 0,
            next_slot: nth_outcome(None, calls, n).unwrap().slot,
        }),
    decreases n,
{
    let cost = token_cost(refill_interval as nat, refill_amount as nat);
    if n == capacity {
        lemma_call_past_capacity_waits_for_refill(calls, capacity, refill_interval, refill_amount);
        lemma_burst_record(calls, capacity, refill_interval, refill_amount, n);
    } else {
        lemma_no_token_past_capacity(calls, capacity, refill_interval, refill_amount, n - 1);
        lemma_take_step(calls, n - 1);
        // A call that finds no token fails or succeeds whatever the clock
        // reads, so the call before this one succeeded as well.
        assert(nth_outcome(None, calls, n - 1) is Some);
        lemma_calls_past_capacity_are_evenly_spaced(
            calls,
            capacity,
            refill_interval,
            refill_amount,
            n - 1,
        );
        assert((n - capacity + 1) * cost == (n - 1 - capacity + 1) * cost + cost)
            by (nonlinear_arith);
    }
}

/// Calls that reach a new bucket at one instant: as many as the bucket has
/// capacity for do not wait at all, and the one after them, where it succeeds,
/// waits exactly the cost of one token. `instant` is what both the store's
/// clock and the clients' clocks read.
pub proof fn lemma_burst_at_one_instant(
    calls: Seq<Call>,
    capacity: u32,
    refill_interval: u64,
    refill_amount: u32,
    instant: u64,
    i: int,
)
    requires
        uniform(calls, capacity, refill_interval, refill_amount),
        forall|k: int| 0 <= k < calls.len() ==> (#[trigger] calls[k]).now == instant,
        0 <= i <= capacity,
        i < calls.len(),
        nth_outcome(None, calls, i) is Some,
    ensures
        i < capacity ==> wait_until(nth_outcome(None, calls, i).unwrap().slot, instant) == 0,
        i == capacity ==> wait_until(nth_outcome(None, calls, i).unwrap().slot, instant)
            == token_cost(refill_interval as nat, refill_amount as nat),
{
    if i < capacity {
        assert(clock_steady(calls, i + 1));
        lemma_new_bucket_serves_capacity_at_once(
            calls,
            capacity,
            refill_interval,
            refill_amount,
            i,
        );
    } else if capacity > 0 {
        assert(clock_steady(calls, capacity as int));
        lemma_new_bucket_serves_capacity_at_once(
            calls,
            capacity,
            refill_interval,
            refill_amount,
            capacity - 1,
        );
        lemma_call_past_capacity_waits_for_refill(
            calls,
            capacity,
            refill_interval,
            refill_amount,
        );
    } else {
        assert(calls.take(0) =~= Seq::<Call>::empty());
    }
}

} // verus!
