//! Policy at the kernel countdown-timer boundary: what may be armed, and how
//! one attempt to consume an expiration notification is answered.
//!
//! The kernel resource itself (a non-blocking, monotonic-clock countdown
//! timer) and the async readiness adapter around it live outside this crate;
//! they hand the loop plain events and take plain decisions back.

use vstd::prelude::*;

verus! {

/// What can go wrong while a timer handle is created or a sleep is driven.
#[derive(Clone, Copy, Debug, PartialEq, Eq, Structural)]
pub enum TimerError {
    /// The OS could not allocate the countdown timer or register it with the
    /// async reactor. Fatal to the caller asking for a new handle.
    ResourceCreationFailed,
    /// The kernel rejected an arm request. The in-progress sleep is aborted,
    /// not retried.
    ArmFailed,
    /// Consuming the expiration notification failed with a real error,
    /// distinct from "would block". The in-progress sleep is aborted.
    ReadinessIoFailed,
}

/// What one non-blocking attempt to consume the timer's expiration reported.
#[derive(Clone, Copy, Debug, PartialEq, Eq, Structural)]
pub enum ReadEvent {
    /// One expiration count was drained: the timer fired and was consumed.
    Consumed,
    /// The readiness notification raced ahead of the payload: nothing was
    /// readable yet.
    WouldBlock,
    /// The read failed outright.
    Failed,
}

/// What the kernel-wait loop does after one readiness attempt.
#[derive(Clone, Copy, Debug, PartialEq, Eq, Structural)]
pub enum WaitAction {
    /// The expiration was consumed: the kernel wait is over and the timer is
    /// ready for the next arm.
    Complete,
    /// Not ready yet: wait for the next readiness signal and try again.
    Retry,
    /// A real error: abort the whole sleep and surface `error`.
    Abort { error: TimerError },
}

/// Screens a kernel arm request. An interval of zero is the kernel's reserved
/// spelling of "disable the timer", so it is never forwarded: a zero-length
/// wait is already over and nothing is armed. Every other interval is armed
/// unchanged.
pub fn arm_request(nanos: u64) -> (request: Option<u64>)
    ensures
        request is Some <==> nanos > 0,
        request matches Some(interval) ==> interval == nanos,
{
    if nanos == 0 {
        None
    } else {
        Some(nanos)
    }
}

/// Decides the kernel-wait loop's next move from one readiness attempt: a
/// consumed expiration finishes the wait, "would block" is no error and is
/// retried in place without surfacing to the caller, and any other failure
/// aborts the sleep with a readiness error.
pub fn after_readiness(event: ReadEvent) -> (action: WaitAction)
    ensures
        action is Complete <==> event is Consumed,
        action is Retry <==> event is WouldBlock,
        event is Failed <==> action == (WaitAction::Abort {
            error: TimerError::ReadinessIoFailed,
        }),
{
    match event {
        ReadEvent::Consumed => WaitAction::Complete,
        ReadEvent::WouldBlock => WaitAction::Retry,
        ReadEvent::Failed => WaitAction::Abort { error: TimerError::ReadinessIoFailed },
    }
}

} // verus!
