//! A single-threaded cooperative bridge that runs sandboxed guest programs
//! without ever blocking the thread that drives it.
//!
//! Guest programs are compiled from a portable text format and executed by an
//! embedded engine whose asynchronous model (poll-based continuations) differs
//! from the embedding reactor's own opaque asynchronous primitive.  The bridge
//! reconciles the two: guest execution can be paused and resumed from outside
//! an unbounded number of times, guest-requested host operations (such as a
//! sleep) suspend on the reactor's primitive, and a guest that never yields is
//! forcibly preempted once its fuel budget runs out.
//!
//! The external driver advances an in-flight invocation one non-blocking step
//! at a time through the pump protocol; all scheduling policy (when to pump
//! again) stays with the driver.

pub mod adapter;
pub mod backend;
pub mod engine;
pub mod errors;
pub mod session;
