//! The dichotomic sleep algorithm, as a pure step function over a monotonic
//! clock measured in nanoseconds.
//!
//! A sleep call fixes an absolute deadline once, at call start. The loop then
//! re-reads the clock on every iteration and takes one step at a time: while
//! more than a fixed threshold remains, it delegates half of the remaining
//! wait to the kernel countdown timer (cheap, yields the CPU); inside the
//! final window it polls the clock actively (no wake-up latency). The step
//! function here decides; the surrounding runtime performs the kernel waits.

use vstd::prelude::*;

verus! {

/// Nanoseconds in one microsecond.
pub const NANOS_PER_MICRO: u64 = 1000;

/// Half-waits longer than this many whole microseconds go to the kernel
/// countdown timer; at or below it the deadline is approached by actively
/// polling the monotonic clock.
pub const SPIN_THRESHOLD_MICROS: u64 = 10;

/// One decision of the dichotomic sleep loop.
#[derive(Clone, Copy, Debug, PartialEq, Eq, Structural)]
pub enum SleepStep {
    /// The deadline has been reached or passed: the sleep is over.
    Done,
    /// The deadline is close: make one bounded active-wait step, then re-read
    /// the clock. No suspension.
    Spin,
    /// The deadline is far: arm the kernel timer for `nanos` nanoseconds and
    /// suspend until it fires, then re-read the clock.
    ArmTimer { nanos: u64 },
}

/// The absolute deadline of a relative sleep: `now + duration`, saturating at
/// the top of the clock's range.
pub open spec fn spec_deadline_after(now: u64, duration: u64) -> u64 {
    if now + duration <= u64::MAX {
        (now + duration) as u64
    } else {
        u64::MAX
    }
}

/// Half of the time left until the deadline.
pub open spec fn spec_half_remaining(deadline: u64, now: u64) -> u64
    recommends
        now < deadline,
{
    (((deadline - now) / 2) as u64)
}

/// Whether a half-wait is long enough to be worth a kernel-timer round trip:
/// strictly more than `SPIN_THRESHOLD_MICROS` whole microseconds.
pub open spec fn spec_wants_kernel_wait(half: u64) -> bool {
    half / NANOS_PER_MICRO > SPIN_THRESHOLD_MICROS
}

/// The step the sleep loop takes when the deadline is `deadline` and the
/// monotonic clock reads `now`.
pub open spec fn spec_next_step(deadline: u64, now: u64) -> SleepStep {
    if now >= deadline {
        SleepStep::Done
    } else if spec_wants_kernel_wait(spec_half_remaining(deadline, now)) {
        SleepStep::ArmTimer { nanos: spec_half_remaining(deadline, now) }
    } else {
        SleepStep::Spin
    }
}

/// Converts a relative request `sleep(duration)` into the absolute deadline
/// that the loop works towards. The deadline is fixed here, once; every later
/// comparison re-samples the live clock.
pub fn deadline_after(now: u64, duration: u64) -> (deadline: u64)
    ensures
        deadline == spec_deadline_after(now, duration),
        deadline >= now,
        now + duration <= u64::MAX ==> deadline == now + duration,
{
    if duration <= u64::MAX - now {
        now + duration
    } else {
        u64::MAX
    }
}

/// Decides one iteration of the sleep loop. The sleep is over exactly when
/// the clock has reached the deadline; otherwise half of the remaining wait
/// is delegated to the kernel timer when that half clears the spin threshold,
/// and the loop spins when it does not. A kernel wait is never armed for
/// zero nanoseconds and never reaches past the deadline.
pub fn next_step(deadline: u64, now: u64) -> (step: SleepStep)
    ensures
        step == spec_next_step(deadline, now),
        step is Done <==> now >= deadline,
        step matches SleepStep::ArmTimer { nanos } ==> {
            &&& now < deadline
            &&& nanos == spec_half_remaining(deadline, now)
            &&& nanos > SPIN_THRESHOLD_MICROS * NANOS_PER_MICRO
            &&& now + nanos < deadline
        },
        step is Spin ==> now < deadline
            && deadline - now < 2 * (SPIN_THRESHOLD_MICROS + 1) * NANOS_PER_MICRO,
{
    if now >= deadline {
        SleepStep::Done
    } else {
        let half: u64 = (deadline - now) / 2;
        if half / NANOS_PER_MICRO > SPIN_THRESHOLD_MICROS {
            SleepStep::ArmTimer { nanos: half }
        } else {
            SleepStep::Spin
        }
    }
}

/// Never-early: a sleep that asked for `duration` reports `Done` only once at
/// least `duration` has elapsed since `start` on the monotonic clock.
pub proof fn lemma_sleep_never_early(start: u64, duration: u64, now: u64)
    requires
        start + duration <= u64::MAX,
        spec_next_step(spec_deadline_after(start, duration), now) is Done,
    ensures
        now >= start + duration,
{
}

/// Zero-duration: a sleep for no time at all is over at its very first step,
/// whatever the clock reads; it never hangs and never arms the kernel timer.
pub proof fn lemma_zero_duration_immediate(start: u64, now: u64)
    requires
        now >= start,
    ensures
        spec_next_step(spec_deadline_after(start, 0), now) is Done,
{
}

/// The kernel timer is never armed with a zero interval, whose kernel-side
/// meaning is "disable the timer".
pub proof fn lemma_arm_never_zero(deadline: u64, now: u64)
    ensures
        spec_next_step(deadline, now) matches SleepStep::ArmTimer { nanos } ==> nanos > 0,
{
}

/// A sleep at or below the spin threshold never touches the kernel timer:
/// every step of such a call is an active poll or completion.
pub proof fn lemma_short_sleep_never_arms(start: u64, duration: u64, now: u64)
    requires
        now >= start,
        duration <= SPIN_THRESHOLD_MICROS * NANOS_PER_MICRO,
    ensures
        !(spec_next_step(spec_deadline_after(start, duration), now) is ArmTimer),
{
}

/// Spinning happens only inside a fixed window just before the deadline, so
/// the CPU spent polling is bounded regardless of the requested duration.
pub proof fn lemma_spin_window_bounded(deadline: u64, now: u64)
    ensures
        spec_next_step(deadline, now) is Spin ==> deadline - now < 2 * (SPIN_THRESHOLD_MICROS
            + 1) * NANOS_PER_MICRO,
{
}

/// Each kernel-timer round trip at least halves the remaining wait, so the
/// number of kernel waits in one sleep is logarithmic in the requested
/// duration.
pub proof fn lemma_kernel_wait_halves_remaining(deadline: u64, now: u64, later: u64)
    requires
        spec_next_step(deadline, now) matches SleepStep::ArmTimer { nanos } && later >= now + nanos,
    ensures
        deadline - later <= (deadline - now + 1) / 2,
{
}

/// Re-arming is stateless: two sleeps issued back to back on one handle each
/// satisfy the never-early property on their own call window, and the second
/// ends no earlier than both requested durations after the first began.
pub proof fn lemma_sequential_sleeps_independent(
    start1: u64,
    duration1: u64,
    end1: u64,
    start2: u64,
    duration2: u64,
    end2: u64,
)
    requires
        start1 + duration1 <= u64::MAX,
        spec_next_step(spec_deadline_after(start1, duration1), end1) is Done,
        end1 <= start2,
        start2 + duration2 <= u64::MAX,
        spec_next_step(spec_deadline_after(start2, duration2), end2) is Done,
    ensures
        end1 >= start1 + duration1,
        end2 >= start2 + duration2,
        end2 >= start1 + duration1 + duration2,
{
}

/// N sequential sleeps on one handle, each complete before the next begins,
/// each independently never early: no residual state from a prior call can
/// make a later one return before its own deadline. Each entry of `calls` is
/// one call's (start, requested duration, clock reading at completion).
pub proof fn lemma_rearm_chain_never_early(calls: Seq<(u64, u64, u64)>)
    requires
        forall|i: int| 0 <= i < calls.len() ==> #[trigger] calls[i].0 + calls[i].1 <= u64::MAX,
        forall|i: int|
            0 <= i < calls.len() ==> spec_next_step(
                spec_deadline_after(#[trigger] calls[i].0, calls[i].1),
                calls[i].2,
            ) is Done,
        forall|i: int| 0 <= i < calls.len() - 1 ==> #[trigger] calls[i].2 <= calls[i + 1].0,
    ensures
        forall|i: int| 0 <= i < calls.len() ==> #[trigger] calls[i].2 >= calls[i].0 + calls[i].1,
{
    assert forall|i: int| 0 <= i < calls.len() implies #[trigger] calls[i].2 >= calls[i].0
        + calls[i].1 by {
        lemma_sleep_never_early(calls[i].0, calls[i].1, calls[i].2);
    }
}

} // verus!
