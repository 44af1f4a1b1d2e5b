//! The two disjoint error categories this core can raise, and the single
//! connection-level error type both convert into.

use vstd::prelude::*;

verus! {

/// A protocol-level fault: the *peer* violated RFC 7540. The connection
/// layer renders it into a RST_STREAM or GOAWAY frame.
#[derive(Clone, Copy, Debug, PartialEq, Eq, Structural)]
pub enum Reason {
    /// A received frame violates the stream state diagram.
    ProtocolError,
    /// A received DATA frame's length exceeds the advertised receive window.
    FlowControlError,
}

/// A caller-level fault: the *local* endpoint attempted to send something
/// the state machine forbids. These indicate a bug in the local caller,
/// not a peer protocol violation.
#[derive(Clone, Copy, Debug, PartialEq, Eq, Structural)]
pub enum User {
    /// The caller attempted to send a frame the current state forbids.
    UnexpectedFrameType,
    /// The caller attempted to send more DATA than the remaining send
    /// window allows.
    FlowControlViolation,
}

/// The connection-level error: either a peer fault or a local-caller
/// fault. The two categories stay distinct so the connection layer can
/// apply different escalation policy to each.
#[derive(Clone, Copy, Debug, PartialEq, Eq, Structural)]
pub enum ConnectionError {
    Proto(Reason),
    User(User),
}

impl From<Reason> for ConnectionError {
    fn from(reason: Reason) -> ConnectionError {
        ConnectionError::Proto(reason)
    }
}

impl vstd::std_specs::convert::FromSpecImpl<Reason> for ConnectionError {
    open spec fn obeys_from_spec() -> bool {
        true
    }

    open spec fn from_spec(reason: Reason) -> ConnectionError {
        ConnectionError::Proto(reason)
    }
}

impl From<User> for ConnectionError {
    fn from(user: User) -> ConnectionError {
        ConnectionError::User(user)
    }
}

impl vstd::std_specs::convert::FromSpecImpl<User> for ConnectionError {
    open spec fn obeys_from_spec() -> bool {
        true
    }

    open spec fn from_spec(user: User) -> ConnectionError {
        ConnectionError::User(user)
    }
}

} // verus!
