use self_limiters::allocator::{allocate_slot, time_per_token, Allocation, BucketState};
use self_limiters::errors::SLError;

#[test]
fn first_call_fills_the_bucket_and_takes_one_token() {
    let done = allocate_slot(None, 5_000, 3, 1_000, 1).unwrap();
    assert_eq!(done.slot, 5_000);
    assert_eq!(done.state, BucketState { tokens: 2, next_slot: 5_000 });
}

#[test]
fn token_left_gives_the_later_of_now_and_last_slot() {
    let stored = Some(BucketState { tokens: 2, next_slot: 7_000 });
    let early = allocate_slot(stored, 6_000, 5, 1_000, 1).unwrap();
    assert_eq!(early, Allocation { slot: 7_000, state: BucketState { tokens: 1, next_slot: 7_000 } });
    let late = allocate_slot(stored, 9_000, 5, 1_000, 1).unwrap();
    assert_eq!(late, Allocation { slot: 9_000, state: BucketState { tokens: 1, next_slot: 9_000 } });
}

#[test]
fn empty_bucket_pushes_the_slot_by_one_token_cost() {
    let stored = Some(BucketState { tokens: 0, next_slot: 7_000 });
    let done = allocate_slot(stored, 6_000, 5, 1_000, 4).unwrap();
    assert_eq!(done, Allocation { slot: 7_250, state: BucketState { tokens: 0, next_slot: 7_250 } });
}

#[test]
fn empty_bucket_ignores_the_clock() {
    let stored = Some(BucketState { tokens: 0, next_slot: 7_000 });
    let done = allocate_slot(stored, 90_000, 5, 1_000, 1).unwrap();
    assert_eq!(done.slot, 8_000);
    assert_eq!(done.state.tokens, 0);
}

#[test]
fn stored_tokens_are_clamped_to_capacity() {
    let stored = Some(BucketState { tokens: 10, next_slot: 100 });
    let done = allocate_slot(stored, 200, 3, 1_000, 1).unwrap();
    assert_eq!(done, Allocation { slot: 200, state: BucketState { tokens: 2, next_slot: 200 } });
}

#[test]
fn zero_capacity_never_has_a_token() {
    let done = allocate_slot(None, 5_000, 0, 1_000, 2).unwrap();
    assert_eq!(done, Allocation { slot: 5_500, state: BucketState { tokens: 0, next_slot: 5_500 } });
    let stored = Some(BucketState { tokens: 4, next_slot: 100 });
    let done = allocate_slot(stored, 5_000, 0, 1_000, 2).unwrap();
    assert_eq!(done, Allocation { slot: 600, state: BucketState { tokens: 0, next_slot: 600 } });
}

#[test]
fn no_refill_fails_once_the_bucket_is_empty() {
    let first = allocate_slot(None, 5_000, 1, 1_000, 0).unwrap();
    assert_eq!(first.slot, 5_000);
    let second = allocate_slot(Some(first.state), 5_000, 1, 1_000, 0);
    assert_eq!(second, Err(SLError::ScriptExecutionError));
}

#[test]
fn slot_beyond_the_clock_range_fails() {
    let stored = Some(BucketState { tokens: 0, next_slot: u64::MAX - 10 });
    assert_eq!(allocate_slot(stored, 0, 1, 11, 1), Err(SLError::ScriptExecutionError));
    let done = allocate_slot(stored, 0, 1, 10, 1).unwrap();
    assert_eq!(done.slot, u64::MAX);
}

#[test]
fn token_with_last_slot_at_the_end_of_the_range_succeeds() {
    let stored = Some(BucketState { tokens: 1, next_slot: u64::MAX });
    let done = allocate_slot(stored, 0, 1, 1_000, 1).unwrap();
    assert_eq!(done, Allocation { slot: u64::MAX, state: BucketState { tokens: 0, next_slot: u64::MAX } });
}

#[test]
fn token_cost_rounds_up() {
    assert_eq!(time_per_token(1_000, 1), Some(1_000));
    assert_eq!(time_per_token(1_000, 4), Some(250));
    assert_eq!(time_per_token(1_000, 3), Some(334));
    assert_eq!(time_per_token(1, 1_000), Some(1));
    assert_eq!(time_per_token(0, 7), Some(0));
    assert_eq!(time_per_token(u64::MAX, 1), Some(u64::MAX));
    assert_eq!(time_per_token(u64::MAX, 2), Some(u64::MAX / 2 + 1));
    assert_eq!(time_per_token(u64::MAX, u32::MAX), Some(4_294_967_297));
}

#[test]
fn token_cost_is_the_least_time_that_covers_the_interval() {
    for interval in 0u64..60 {
        for amount in 1u32..12 {
            let cost = time_per_token(interval, amount).unwrap();
            assert!(cost * amount as u64 >= interval);
            assert!(cost == 0 || (cost - 1) * (amount as u64) < interval);
        }
    }
}

#[test]
fn token_cost_without_refill_is_none() {
    assert_eq!(time_per_token(1_000, 0), None);
    assert_eq!(time_per_token(0, 0), None);
}

#[test]
fn new_bucket_serves_capacity_without_delay() {
    let nows = [1_000u64, 1_000, 1_004, 1_050, 2_000];
    let mut record: Option<BucketState> = None;
    for (i, now) in nows.iter().enumerate() {
        let done = allocate_slot(record, *now, 5, 1_000, 3).unwrap();
        assert_eq!(done.slot, *now);
        assert_eq!(done.state.tokens, 4 - i as u32);
        record = Some(done.state);
    }
    let next = allocate_slot(record, 2_001, 5, 1_000, 3).unwrap();
    assert_eq!(next.slot, 2_334);
    assert!((next.slot - 2_000) * 3 >= 1_000);
}

#[test]
fn call_past_capacity_waits_for_refill_whatever_the_clock() {
    let first = allocate_slot(None, 9_000, 2, 500, 1).unwrap();
    let second = allocate_slot(Some(first.state), 4_000, 2, 500, 1).unwrap();
    assert_eq!(second.slot, 9_000);
    let third = allocate_slot(Some(second.state), 100, 2, 500, 1).unwrap();
    assert_eq!(third.slot, 9_500);
    let fourth = allocate_slot(Some(third.state), 1_000_000, 2, 500, 1).unwrap();
    assert_eq!(fourth.slot, 10_000);
}

#[test]
fn slots_never_go_back() {
    let calls: [(u64, u32, u64, u32); 10] = [
        (5_000, 3, 1_000, 1),
        (4_000, 3, 1_000, 1),
        (9_000, 1, 10, 5),
        (0, 3, 1_000, 0),
        (1, 0, 70, 3),
        (20_000, 8, 1_000, 1),
        (3, 8, 0, 1),
        (u64::MAX, 2, 1, 1),
        (7, 2, 1, 1),
        (8, 0, 1, 1),
    ];
    let expected: [Option<u64>; 10] = [
        Some(5_000),
        Some(5_000),
        Some(9_000),
        None,
        Some(9_024),
        Some(10_024),
        Some(10_024),
        Some(10_025),
        Some(10_026),
        Some(10_027),
    ];
    let mut record: Option<BucketState> = None;
    let mut last: Option<u64> = None;
    for (call, want) in calls.iter().zip(expected.iter()) {
        let (now, capacity, interval, amount) = *call;
        match allocate_slot(record, now, capacity, interval, amount) {
            Ok(done) => {
                assert_eq!(Some(done.slot), *want);
                if let Some(before) = last {
                    assert!(done.slot >= before);
                }
                assert_eq!(done.state.next_slot, done.slot);
                last = Some(done.slot);
                record = Some(done.state);
            }
            Err(error) => {
                assert_eq!(error, SLError::ScriptExecutionError);
                assert_eq!(*want, None);
            }
        }
    }
    assert_eq!(record, Some(BucketState { tokens: 0, next_slot: 10_027 }));
}

#[test]
fn slots_never_go_back_when_the_clock_does() {
    let nows = [50_000u64, 10, 49_999, 0, 50_001, 3, 60_000, 59_999];
    let mut record: Option<BucketState> = None;
    let mut last = 0u64;
    for now in nows.iter() {
        let done = allocate_slot(record, *now, 6, 100, 1).unwrap();
        assert!(done.slot >= last);
        last = done.slot;
        record = Some(done.state);
    }
    assert_eq!(last, 50_201);
}
