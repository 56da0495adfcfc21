//! The transport/protocol capability the session manager consumes: ECU
//! addressing, the establishment error, and the session-level contract a
//! concrete diagnostic protocol implementation must satisfy.

use vstd::prelude::*;

verus! {

/// Immutable description of how to reach one ECU over the ISO15765/CAN
/// transport: addressing and timing parameters. Fixed at manager
/// construction and never mutated.
#[derive(Debug, Clone, Copy, PartialEq, Eq, Structural)]
pub struct EcuConfig {
    pub baud: u32,
    pub send_id: u32,
    pub recv_id: u32,
    pub block_size: u32,
    pub sep_time_ms: u32,
}

/// Failure raised by a protocol implementation while establishing a
/// session, carrying its human-readable description.
#[derive(Debug, Clone)]
pub struct ProtocolError {
    pub text: String,
}

/// Session-level contract a concrete diagnostic protocol implementation
/// (for instance a KWP2000-over-ISO15765 encoder/decoder) satisfies. The
/// manager consumes this capability and is its only caller; it never
/// implements it. Nothing is promised of these methods here: every result
/// the manager acts on is handled for each value it may take.
pub trait ProtocolSession: Sized {
    /// Handle to the duplex channel to one ECU; shared with, not owned by,
    /// the session built on top of it.
    type Transport;

    /// Protocol-specific handshake. Must not retain partial state on
    /// failure.
    fn start(transport: &Self::Transport, ecu: &EcuConfig) -> Result<Self, ProtocolError>;

    /// Bounded liveness query: is the established session still alive?
    fn is_in_session(&self) -> bool;

    /// Best-effort graceful termination. Safe to call exactly once, and
    /// must not fault even when the underlying transport is already gone.
    fn end(&mut self);

    /// Human-readable description of the most recent transport-level
    /// failure, when one is available.
    fn last_error(&self) -> Option<String>;
}

} // verus!
