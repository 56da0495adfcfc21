//! Diagnostic session lifecycle engine for a KWP2000-over-ISO15765 ECU link.
//!
//! The crate owns the state machine that establishes a diagnostic protocol
//! session with a vehicle ECU, supervises its liveness with a recurring
//! state-conditioned tick, and guarantees teardown on every exit path. It operates
//! against an abstract transport/protocol capability
//! ([`protocol::ProtocolSession`]) rather than a concrete device: hardware
//! I/O, UI rendering and log presentation live with the host application.

pub mod events;
pub mod monitor;
pub mod protocol;
pub mod session;
