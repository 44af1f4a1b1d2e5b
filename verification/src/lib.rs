//! Per-stream state machine and flow-control accounting for an HTTP/2
//! connection (RFC 7540, section 5 and section 6.9).
//!
//! The library tracks, for a single stream, which frame types are legal to
//! send or receive next, and how many bytes of DATA may flow in each
//! direction before a window update is required. Frame encoding, header
//! compression, stream multiplexing and socket I/O are owned by the
//! surrounding connection layer; this crate owns exactly one stream's state
//! and its pair of flow controllers.

pub mod error;
pub mod flow;
pub mod laws;
pub mod peer;
pub mod state;

use vstd::prelude::*;

verus! {

/// Payload length of a DATA frame, in bytes.
pub type FrameSize = u32;

} // verus!
