use self_limiters::config::{ThreadState, TokenBucket};
use self_limiters::errors::SLError;
use self_limiters::scheduler::{plan_wait, sleep_duration, step, Action, CallState, Event};

fn state(max_sleep: Option<i64>) -> ThreadState {
    let bucket =
        TokenBucket::new("queue".to_string(), 4, 1_000, 2, None, max_sleep, None).unwrap();
    ThreadState::from(&bucket)
}

const STATES: [CallState; 6] = [
    CallState::Idle,
    CallState::AwaitingSlot,
    CallState::Sleeping,
    CallState::Ready,
    CallState::Rejected,
    CallState::Failed,
];

const EVENTS: [Event; 5] = [
    Event::Enter,
    Event::SlotAssigned { slot: 9_000, now: 1_000 },
    Event::ConnectionFailed,
    Event::AllocationFailed,
    Event::Woken,
];

#[test]
fn sleep_lasts_until_the_slot() {
    assert_eq!(sleep_duration(6_000, 5_000), 1_000);
    assert_eq!(sleep_duration(5_001, 5_000), 1);
    assert_eq!(sleep_duration(u64::MAX, 0), u64::MAX);
}

#[test]
fn slot_that_has_come_needs_no_sleep() {
    assert_eq!(sleep_duration(5_000, 5_000), 0);
    assert_eq!(sleep_duration(4_000, 5_000), 0);
    assert_eq!(sleep_duration(0, u64::MAX), 0);
}

#[test]
fn wait_beyond_the_bound_is_refused() {
    let ts = state(Some(500));
    assert_eq!(
        plan_wait(&ts, 6_000, 5_000),
        Err(SLError::MaxSleepExceeded { wait: 1_000, max_sleep: 500 })
    );
    assert_eq!(
        plan_wait(&ts, 5_501, 5_000),
        Err(SLError::MaxSleepExceeded { wait: 501, max_sleep: 500 })
    );
}

#[test]
fn wait_up_to_the_bound_is_accepted() {
    let ts = state(Some(500));
    assert_eq!(plan_wait(&ts, 5_500, 5_000), Ok(500));
    assert_eq!(plan_wait(&ts, 5_499, 5_000), Ok(499));
    assert_eq!(plan_wait(&ts, 5_000, 5_000), Ok(0));
    assert_eq!(plan_wait(&ts, 1_000, 5_000), Ok(0));
}

#[test]
fn no_bound_accepts_any_wait() {
    for max_sleep in [None, Some(0), Some(-3)] {
        let ts = state(max_sleep);
        assert_eq!(plan_wait(&ts, 6_000, 5_000), Ok(1_000));
        assert_eq!(plan_wait(&ts, u64::MAX, 0), Ok(u64::MAX));
        assert_eq!(plan_wait(&ts, 0, 5_000), Ok(0));
    }
}

#[test]
fn entering_asks_for_a_slot_with_the_bucket_parameters() {
    let ts = state(None);
    assert_eq!(
        step(&ts, CallState::Idle, Event::Enter),
        (
            CallState::AwaitingSlot,
            Action::AcquireSlot { capacity: 4, refill_interval: 1_000, refill_amount: 2 }
        )
    );
}

#[test]
fn assigned_slot_is_slept_for() {
    let ts = state(Some(500));
    assert_eq!(
        step(&ts, CallState::AwaitingSlot, Event::SlotAssigned { slot: 5_400, now: 5_000 }),
        (CallState::Sleeping, Action::Sleep { millis: 400 })
    );
    assert_eq!(
        step(&ts, CallState::AwaitingSlot, Event::SlotAssigned { slot: 5_000, now: 5_400 }),
        (CallState::Sleeping, Action::Sleep { millis: 0 })
    );
}

#[test]
fn slot_beyond_the_bound_rejects_without_sleeping() {
    let ts = state(Some(500));
    let (next, action) =
        step(&ts, CallState::AwaitingSlot, Event::SlotAssigned { slot: 6_000, now: 5_000 });
    assert_eq!(next, CallState::Rejected);
    assert_eq!(
        action,
        Action::Raise { error: SLError::MaxSleepExceeded { wait: 1_000, max_sleep: 500 } }
    );
    for event in EVENTS.iter() {
        assert_eq!(step(&ts, next, *event), (CallState::Rejected, Action::Nothing));
    }
}

#[test]
fn no_bound_never_rejects() {
    let ts = state(None);
    for slot in [0u64, 5_000, 5_001, 1_000_000_000, u64::MAX] {
        let (next, action) =
            step(&ts, CallState::AwaitingSlot, Event::SlotAssigned { slot, now: 5_000 });
        assert_eq!(next, CallState::Sleeping);
        assert_eq!(action, Action::Sleep { millis: slot.saturating_sub(5_000) });
    }
    for from in STATES.iter() {
        if *from == CallState::Rejected {
            continue;
        }
        for event in EVENTS.iter() {
            assert_ne!(step(&ts, *from, *event).0, CallState::Rejected);
        }
    }
}

#[test]
fn store_failures_fail_the_call() {
    let ts = state(None);
    assert_eq!(
        step(&ts, CallState::AwaitingSlot, Event::ConnectionFailed),
        (CallState::Failed, Action::Raise { error: SLError::ConnectivityError })
    );
    assert_eq!(
        step(&ts, CallState::AwaitingSlot, Event::AllocationFailed),
        (CallState::Failed, Action::Raise { error: SLError::ScriptExecutionError })
    );
}

#[test]
fn waking_lets_the_caller_through() {
    let ts = state(None);
    assert_eq!(step(&ts, CallState::Sleeping, Event::Woken), (CallState::Ready, Action::Proceed));
}

#[test]
fn events_out_of_turn_change_nothing() {
    let ts = state(Some(500));
    let in_turn = [
        (CallState::Idle, 0usize),
        (CallState::AwaitingSlot, 1),
        (CallState::AwaitingSlot, 2),
        (CallState::AwaitingSlot, 3),
        (CallState::Sleeping, 4),
    ];
    let mut out_of_turn = 0;
    for from in STATES.iter() {
        for (index, event) in EVENTS.iter().enumerate() {
            if in_turn.contains(&(*from, index)) {
                assert_ne!(step(&ts, *from, *event).1, Action::Nothing);
            } else {
                assert_eq!(step(&ts, *from, *event), (*from, Action::Nothing));
                out_of_turn += 1;
            }
        }
    }
    assert_eq!(out_of_turn, 25);
}

#[test]
fn leaving_asks_nothing_of_the_store() {
    let bucket = TokenBucket::new("queue".to_string(), 4, 1_000, 2, None, None, None).unwrap();
    assert_eq!(bucket.exit(false), Action::Nothing);
    assert_eq!(bucket.exit(true), Action::Nothing);
}
