//! The core of a process supervisor: a per-service state machine, the
//! broadcast bus that carries every state change, and the scheduler step
//! that applies inbound events and derives the follow-up events.

pub mod bus;
pub mod clock;
pub mod formats;
pub mod laws;
pub mod repo;
pub mod runtime;
pub mod service_handler;
pub mod signal;
pub mod state_machine;
