//! Core of a high-precision asynchronous timer: the decision logic of a
//! dichotomic sleep loop over a monotonic nanosecond clock, and the policy at
//! the kernel countdown-timer boundary.

pub mod kernel;
pub mod sleep;
