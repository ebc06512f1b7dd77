//! Framework (WDF) objects held by their handles: spin locks and timers.
//!
//! The framework itself runs outside this library: the caller makes the
//! framework call and hands its status and handle over; the rules for what
//! comes of them stand here.

pub mod spinlock;
pub mod timer;

pub use spinlock::SpinLock;
pub use timer::Timer;
