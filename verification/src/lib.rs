//! Global input interception pipeline: a normalized event model, the
//! decision logic of the low-level hook callbacks, a bounded non-blocking
//! dispatch channel, staleness-filtering consumers, and the hook lifecycle
//! state machine. The operating-system calls themselves (hook registration,
//! the message loop) live outside this library; every decision they depend
//! on is made here, under contract.

pub mod callback;
pub mod channel;
pub mod consumer;
pub mod event;
pub mod lifecycle;
pub mod pipeline;
pub mod util;
