//! Compile-time role markers for the two ends of a connection.

use vstd::prelude::*;

verus! {

/// Marker for the sender-vs-receiver role a HEADERS transition is made
/// for. It is a compile-time parameter only: it lets the caller's type
/// system distinguish client- and server-initiated semantics (for example
/// stream-id parity) at the call site, and does not alter the behavior of
/// this core.
pub trait Peer {

}

/// The client end of a connection.
#[derive(Clone, Copy, Debug)]
pub struct Client;

/// The server end of a connection.
#[derive(Clone, Copy, Debug)]
pub struct Server;

impl Peer for Client {

}

impl Peer for Server {

}

} // verus!
