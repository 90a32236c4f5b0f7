//! The client's side of one call: from the assigned slot to the wait, and the
//! protocol that takes a caller from entering the bucket to being let through.
//!
//! The protocol is a state machine that never acts by itself. `step` is told
//! what happened and answers with what to do next; the caller talks to the
//! store, reads the clock and sleeps.

use vstd::prelude::*;
use crate::config::{BucketConfig, ThreadState, TokenBucket};
use crate::errors::SLError;

verus! {

/// The time left until `slot` when the clock reads `now`; zero once the slot
/// has come.
pub open spec fn wait_until(slot: u64, now: u64) -> u64 {
    if slot <= now {
        0
    } else {
        (slot - now) as u64
    }
}

/// Whether a wait is longer than the caller accepts. A bound of zero accepts
/// every wait.
pub open spec fn exceeds(max_sleep: u64, wait: u64) -> bool {
    max_sleep > 0 && wait > max_sleep
}

/// How long to sleep, in milliseconds, to reach `slot` from `now`.
pub fn sleep_duration(slot: u64, now: u64) -> (millis: u64)
    ensures
        millis == wait_until(slot, now),
{
    if slot <= now {
        0
    } else {
        slot - now
    }
}

/// Where one call stands.
#[derive(Clone, Copy, Debug, PartialEq, Eq, Structural)]
pub enum CallState {
    /// Nothing has happened yet.
    Idle,
    /// The allocator was asked for a slot.
    AwaitingSlot,
    /// A slot was assigned and the caller waits for it.
    Sleeping,
    /// The slot has come: the caller may proceed.
    Ready,
    /// The slot lay further ahead than the caller accepts.
    Rejected,
    /// The store could not be reached, or the allocation failed.
    Failed,
}

/// What happened since the last step.
#[derive(Clone, Copy, Debug, PartialEq, Eq, Structural)]
pub enum Event {
    /// The caller enters the bucket.
    Enter,
    /// The allocator assigned `slot`; `now` is the client's clock, read after
    /// the allocator answered.
    SlotAssigned { slot: u64, now: u64 },
    /// No connection to the store could be had, or it broke.
    ConnectionFailed,
    /// The store answered that the allocation failed.
    AllocationFailed,
    /// The sleep that was asked for is over.
    Woken,
}

/// What the caller is to do next.
#[derive(Clone, Copy, Debug, PartialEq, Eq, Structural)]
pub enum Action {
    /// Run the allocator on the bucket's record with these parameters.
    AcquireSlot { capacity: u32, refill_interval: u64, refill_amount: u32 },
    /// Sleep for this many milliseconds, then report `Woken`.
    Sleep { millis: u64 },
    /// Let the caller through.
    Proceed,
    /// Fail the call with this error, without waiting.
    Raise { error: SLError },
    /// Nothing is to be done.
    Nothing,
}

/// Whether a call in this state takes no further step.
pub open spec fn is_terminal(state: CallState) -> bool {
    state is Ready || state is Rejected || state is Failed
}

/// The protocol of one call.
///
/// An idle call that is entered asks for a slot. Once the slot is assigned the
/// call either sleeps until the slot comes or, where the wait exceeds the bound,
/// is rejected at once. A failure of the store fails the call. A sleeping call
/// that is woken is ready. Any other event is out of turn and changes nothing.
pub open spec fn transition(config: BucketConfig, state: CallState, event: Event) -> (
    CallState,
    Action,
) {
    match (state, event) {
        (CallState::Idle, Event::Enter) => (
            CallState::AwaitingSlot,
            Action::AcquireSlot {
                capacity: config.capacity,
                refill_interval: config.refill_frequency,
                refill_amount: config.refill_amount,
            },
        ),
        (CallState::AwaitingSlot, Event::SlotAssigned { slot, now }) => {
            let wait = wait_until(slot, now);
            if exceeds(config.max_sleep, wait) {
                (
                    CallState::Rejected,
                    Action::Raise {
                        error: SLError::MaxSleepExceeded { wait, max_sleep: config.max_sleep },
                    },
                )
            } else {
                (CallState::Sleeping, Action::Sleep { millis: wait })
            }
        },
        (CallState::AwaitingSlot, Event::ConnectionFailed) => (
            CallState::Failed,
            Action::Raise { error: SLError::ConnectivityError },
        ),
        (CallState::AwaitingSlot, Event::AllocationFailed) => (
            CallState::Failed,
            Action::Raise { error: SLError::ScriptExecutionError },
        ),
        (CallState::Sleeping, Event::Woken) => (CallState::Ready, Action::Proceed),
        _ => (state, Action::Nothing),
    }
}

/// Decides how long to wait for `slot` when the client's clock reads `now`:
/// the time left until the slot, or `MaxSleepExceeded` where the bucket has a
/// bound and that time is longer.
pub fn plan_wait(ts: &ThreadState, slot: u64, now: u64) -> (result: Result<u64, SLError>)
    ensures
        exceeds(ts@.max_sleep, wait_until(slot, now)) ==> result == Err::<u64, SLError>(
            SLError::MaxSleepExceeded { wait: wait_until(slot, now), max_sleep: ts@.max_sleep },
        ),
        !exceeds(ts@.max_sleep, wait_until(slot, now)) ==> result == Ok::<u64, SLError>(
            wait_until(slot, now),
        ),
        ts@.max_sleep == 0 ==> result is Ok,
{
    let wait: u64 = sleep_duration(slot, now);
    let max_sleep: u64 = ts.max_sleep();
    if max_sleep > 0 && wait > max_sleep {
        Err(SLError::MaxSleepExceeded { wait, max_sleep })
    } else {
        Ok(wait)
    }
}

/// Takes one step of a call: from where it stands and what happened to where
/// it stands next and what to do.
pub fn step(ts: &ThreadState, state: CallState, event: Event) -> (next: (CallState, Action))
    ensures
        next == transition(ts@, state, event),
{
    match (state, event) {
        (CallState::Idle, Event::Enter) => (
            CallState::AwaitingSlot,
            Action::AcquireSlot {
                capacity: ts.capacity(),
                refill_interval: ts.frequency(),
                refill_amount: ts.amount(),
            },
        ),
        (CallState::AwaitingSlot, Event::SlotAssigned { slot, now }) => match plan_wait(
            ts,
            slot,
            now,
        ) {
            Ok(millis) => (CallState::Sleeping, Action::Sleep { millis }),
            Err(error) => (CallState::Rejected, Action::Raise { error }),
        },
        (CallState::AwaitingSlot, Event::ConnectionFailed) => (
            CallState::Failed,
            Action::Raise { error: SLError::ConnectivityError },
        ),
        (CallState::AwaitingSlot, Event::AllocationFailed) => (
            CallState::Failed,
            Action::Raise { error: SLError::ScriptExecutionError },
        ),
        (CallState::Sleeping, Event::Woken) => (CallState::Ready, Action::Proceed),
        _ => (state, Action::Nothing),
    }
}

/// Where a call stands after `events` were reported in order to a call that
/// started idle.
pub open spec fn state_after(config: BucketConfig, events: Seq<Event>) -> CallState
    decreases events.len(),
{
    if events.len() == 0 {
        CallState::Idle
    } else {
        transition(config, state_after(config, events.drop_last()), events.last()).0
    }
}

/// With a bound, a slot that lies further ahead than the bound is refused: the
/// call is rejected with `MaxSleepExceeded` and is not told to sleep, neither
/// then nor at any later event.
pub proof fn lemma_wait_beyond_bound_is_rejected(
    config: BucketConfig,
    slot: u64,
    now: u64,
    later: Event,
)
    requires
        config.max_sleep > 0,
        wait_until(slot, now) > config.max_sleep,
    ensures
        transition(config, CallState::AwaitingSlot, Event::SlotAssigned { slot, now }) == (
            CallState::Rejected,
            Action::Raise {
                error: SLError::MaxSleepExceeded {
                    wait: wait_until(slot, now),
                    max_sleep: config.max_sleep,
                },
            },
        ),
        transition(config, CallState::Rejected, later) == (CallState::Rejected, Action::Nothing),
{
}

/// A slot that lies no further ahead than the bound is waited for.
pub proof fn lemma_wait_within_bound_is_slept(config: BucketConfig, slot: u64, now: u64)
    requires
        wait_until(slot, now) <= config.max_sleep,
    ensures
        transition(config, CallState::AwaitingSlot, Event::SlotAssigned { slot, now }) == (
            CallState::Sleeping,
            Action::Sleep { millis: wait_until(slot, now) },
        ),
{
}

/// Without a bound every assigned slot is waited for, however far ahead it
/// lies.
pub proof fn lemma_unbounded_waits_for_any_slot(config: BucketConfig, slot: u64, now: u64)
    requires
        config.max_sleep == 0,
    ensures
        transition(config, CallState::AwaitingSlot, Event::SlotAssigned { slot, now }) == (
            CallState::Sleeping,
            Action::Sleep { millis: wait_until(slot, now) },
        ),
{
}

/// Without a bound no call is ever rejected, whatever is reported to it.
pub proof fn lemma_unbounded_never_rejects(config: BucketConfig, events: Seq<Event>)
    requires
        config.max_sleep == 0,
    ensures
        !(state_after(config, events) is Rejected),
    decreases events.len(),
{
    if events.len() > 0 {
        lemma_unbounded_never_rejects(config, events.drop_last());
    }
}

/// A call that is ready, rejected or failed stays so and asks for nothing more.
pub proof fn lemma_terminal_states_stay(config: BucketConfig, state: CallState, event: Event)
    requires
        is_terminal(state),
    ensures
        transition(config, state, event) == (state, Action::Nothing),
{
}

/// A call is told to sleep only when a slot was assigned to a call that awaited
/// one, and it is let through only after that sleep.
pub proof fn lemma_sleep_follows_assignment(config: BucketConfig, state: CallState, event: Event)
    ensures
        transition(config, state, event).1 is Sleep ==> state is AwaitingSlot && event
            is SlotAssigned,
        transition(config, state, event).1 is Proceed ==> state is Sleeping && event is Woken,
        transition(config, state, event).1 is AcquireSlot ==> state is Idle && event is Enter,
{
}

impl TokenBucket {
    /// Leaves the bucket. The token was taken for good when the call entered,
    /// so there is nothing to give back: whether the caller's work succeeded
    /// or failed, nothing is asked of the store.
    pub fn exit(&self, failed: bool) -> (action: Action)
        ensures
            action == Action::Nothing,
    {
        Action::Nothing
    }
}

} // verus!
