use hrtimer::kernel::{after_readiness, arm_request, ReadEvent, TimerError, WaitAction};
use hrtimer::sleep::{deadline_after, next_step, SleepStep};

#[test]
fn done_at_and_after_deadline() {
    assert_eq!(next_step(5_000, 5_000), SleepStep::Done);
    assert_eq!(next_step(5_000, 9_999), SleepStep::Done);
    assert!(!matches!(next_step(5_000, 4_999), SleepStep::Done));
}

#[test]
fn zero_duration_returns_promptly() {
    let start: u64 = 123_456;
    let deadline: u64 = deadline_after(start, 0);
    assert_eq!(deadline, start);
    assert_eq!(next_step(deadline, start), SleepStep::Done);
}

#[test]
fn one_micro_request_spins_only() {
    // A 1 us sleep stays below the 10 us threshold at every clock reading:
    // no kernel-timer round trip, only active polling.
    let start: u64 = 7_000;
    let deadline: u64 = deadline_after(start, 1_000);
    assert_eq!(next_step(deadline, start), SleepStep::Spin);
    assert_eq!(next_step(deadline, start + 500), SleepStep::Spin);
    assert_eq!(next_step(deadline, start + 999), SleepStep::Spin);
    assert_eq!(next_step(deadline, start + 1_000), SleepStep::Done);
}

#[test]
fn hundred_millis_arms_half_the_remaining() {
    let start: u64 = 42;
    let deadline: u64 = deadline_after(start, 100_000_000);
    assert_eq!(next_step(deadline, start), SleepStep::ArmTimer { nanos: 50_000_000 });
}

#[test]
fn threshold_boundary_is_exact() {
    // Half the remaining wait must exceed 10 whole microseconds to be worth a
    // kernel round trip: 22_000 ns remaining arms 11_000 ns, one nanosecond
    // less spins (half of 21_999 is 10_999 ns, still 10 whole microseconds).
    let now: u64 = 1_000_000;
    assert_eq!(next_step(now + 22_000, now), SleepStep::ArmTimer { nanos: 11_000 });
    assert_eq!(next_step(now + 21_999, now), SleepStep::Spin);
    assert_eq!(next_step(now + 20_000, now), SleepStep::Spin);
}

#[test]
fn back_to_back_sleeps_use_only_their_own_window() {
    // Two sequential 10 ms sleeps: each call's deadline depends only on its
    // own start, and each reports Done only at or after its own deadline.
    let start1: u64 = 0;
    let deadline1: u64 = deadline_after(start1, 10_000_000);
    assert!(!matches!(next_step(deadline1, 9_999_999), SleepStep::Done));
    assert_eq!(next_step(deadline1, 10_000_000), SleepStep::Done);

    let start2: u64 = 10_000_000;
    let deadline2: u64 = deadline_after(start2, 10_000_000);
    assert!(!matches!(next_step(deadline2, 19_999_999), SleepStep::Done));
    assert_eq!(next_step(deadline2, 20_000_000), SleepStep::Done);
}

#[test]
fn deadline_saturates_at_clock_top() {
    assert_eq!(deadline_after(u64::MAX - 5, 10), u64::MAX);
    assert_eq!(deadline_after(u64::MAX, u64::MAX), u64::MAX);
    assert_eq!(deadline_after(u64::MAX - 10, 10), u64::MAX);
}

#[test]
fn arm_is_never_zero_and_never_past_deadline() {
    let now: u64 = 555;
    let remainders: [u64; 3] = [22_000, 1_000_000, 123_456_789];
    for r in remainders {
        match next_step(now + r, now) {
            SleepStep::ArmTimer { nanos } => {
                assert!(nanos > 0);
                assert!(nanos < r);
            }
            step => panic!("remaining {} should arm the kernel timer, got {:?}", r, step),
        }
    }
}

#[test]
fn spinning_happens_only_near_the_deadline() {
    let deadline: u64 = 10_000_000;
    let samples: [u64; 4] = [0, 5_000_000, 9_990_000, 9_999_999];
    for now in samples {
        if matches!(next_step(deadline, now), SleepStep::Spin) {
            assert!(deadline - now < 22_000);
        }
    }
}

#[test]
fn zero_interval_is_never_forwarded_to_the_kernel() {
    assert_eq!(arm_request(0), None);
    assert_eq!(arm_request(1), Some(1));
    assert_eq!(arm_request(11_000), Some(11_000));
}

#[test]
fn would_block_is_retried_not_surfaced() {
    assert_eq!(after_readiness(ReadEvent::WouldBlock), WaitAction::Retry);
}

#[test]
fn read_outcomes_map_to_actions() {
    assert_eq!(after_readiness(ReadEvent::Consumed), WaitAction::Complete);
    assert_eq!(
        after_readiness(ReadEvent::Failed),
        WaitAction::Abort { error: TimerError::ReadinessIoFailed }
    );
}
