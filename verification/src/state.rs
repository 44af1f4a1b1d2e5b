//! The per-stream protocol state machine of RFC 7540, section 5.1.
//!
//! A stream's state is a closed set of variants, each carrying exactly the
//! data valid for that state. `local` always describes frames this
//! endpoint sends, `remote` frames this endpoint receives. The reserved
//! (PUSH_PROMISE-initiated) states are intentionally unimplemented; adding
//! them means extending the variant set and all four transition tables.

use crate::FrameSize;
use crate::error::{ConnectionError, Reason, User};
use crate::flow::{FlowController, MAX_WINDOW_SIZE};
use crate::peer::Peer;
use vstd::pervasive::unreached;
use vstd::prelude::*;

verus! {

/// One-directional protocol phase for one stream: still exchanging
/// headers/trailers, or open for DATA and metered by the embedded
/// flow controller.
#[derive(Clone, Copy, Debug, PartialEq, Eq, Structural)]
pub enum PeerState {
    /// The half has exchanged (or is about to exchange) its initial
    /// HEADERS and is not yet DATA-capable.
    Headers,
    /// The half completed a non-trailers HEADERS exchange without
    /// END_STREAM and may now carry DATA frames, metered by the embedded
    /// controller.
    Data(FlowController),
}

impl PeerState {
    pub open spec fn wf(self) -> bool {
        match self {
            PeerState::Headers => true,
            PeerState::Data(fc) => fc.wf(),
        }
    }

    /// A claim delegates to the embedded controller when the half is in
    /// the Data phase, translating a flow-control failure into `err`; in
    /// the Headers phase it fails with `err` without delegating.
    pub open spec fn spec_claim_window_size(self, len: FrameSize, err: ConnectionError) -> (
        PeerState,
        Result<(), ConnectionError>,
    ) {
        match self {
            PeerState::Data(fc) => {
                if fc.spec_claim(len).1 is Ok {
                    (PeerState::Data(fc.spec_claim(len).0), Ok(()))
                } else {
                    (self, Err(err))
                }
            },
            PeerState::Headers => (self, Err(err)),
        }
    }

    /// Succeeds exactly when the half is still in the Headers phase;
    /// otherwise returns the caller-supplied error.
    pub fn check_is_headers(&self, err: ConnectionError) -> (r: Result<(), ConnectionError>)
        ensures
            r is Ok <==> *self is Headers,
            r is Err ==> r == Err::<(), ConnectionError>(err),
    {
        match self {
            PeerState::Headers => Ok(()),
            _ => Err(err),
        }
    }

    /// Succeeds exactly when the half is in the Data phase; otherwise
    /// returns the caller-supplied error.
    pub fn check_is_data(&self, err: ConnectionError) -> (r: Result<(), ConnectionError>)
        ensures
            r is Ok <==> *self is Data,
            r is Err ==> r == Err::<(), ConnectionError>(err),
    {
        match self {
            PeerState::Data(_) => Ok(()),
            _ => Err(err),
        }
    }

    /// Debits `len` bytes from the embedded controller; fails with `err`
    /// when the half is not in the Data phase or the claim exceeds the
    /// available window. A failed claim leaves the half untouched.
    pub fn claim_window_size(&mut self, len: FrameSize, err: ConnectionError) -> (r: Result<
        (),
        ConnectionError,
    >)
        requires
            old(self).wf(),
        ensures
            *final(self) == old(self).spec_claim_window_size(len, err).0,
            r == old(self).spec_claim_window_size(len, err).1,
            final(self).wf(),
            r is Err ==> *final(self) == *old(self),
    {
        match *self {
            PeerState::Data(fc) => {
                let mut f = fc;
                match f.claim_window(len) {
                    Ok(()) => {
                        *self = PeerState::Data(f);
                        Ok(())
                    },
                    Err(_) => Err(err),
                }
            },
            PeerState::Headers => Err(err),
        }
    }
}

/// The full per-stream state, matching RFC 7540's state diagram (with the
/// reserved states omitted). Transitions are monotonic toward `Closed`:
/// no operation ever moves a stream back toward `Open` or `Idle`.
#[derive(Clone, Copy, Debug, PartialEq, Eq, Structural)]
pub enum StreamState {
    /// No HEADERS exchanged in either direction yet.
    Idle,
    /// Both directions active.
    Open { local: PeerState, remote: PeerState },
    /// This endpoint has sent END_STREAM; the field describes the still
    /// active remote-to-local half.
    HalfClosedLocal(PeerState),
    /// The remote has sent END_STREAM; the field describes the still
    /// active local-to-remote half.
    HalfClosedRemote(PeerState),
    /// Both directions terminated.
    Closed,
}

impl StreamState {
    pub open spec fn wf(self) -> bool {
        match self {
            StreamState::Open { local, remote } => local.wf() && remote.wf(),
            StreamState::HalfClosedLocal(half) => half.wf(),
            StreamState::HalfClosedRemote(half) => half.wf(),
            _ => true,
        }
    }

    /// The transition table of [`StreamState::recv_headers`]: next state
    /// and result for every current state.
    pub open spec fn spec_recv_headers(self, eos: bool, initial_recv_window_size: u32) -> (
        StreamState,
        Result<bool, ConnectionError>,
    ) {
        match self {
            StreamState::Idle => {
                if eos {
                    (StreamState::HalfClosedRemote(PeerState::Headers), Ok(true))
                } else {
                    (
                        StreamState::Open {
                            local: PeerState::Headers,
                            remote: PeerState::Data(
                                FlowController::spec_new(initial_recv_window_size),
                            ),
                        },
                        Ok(true),
                    )
                }
            },
            StreamState::Open { local, remote } => {
                if remote is Headers && eos {
                    (StreamState::HalfClosedRemote(local), Ok(false))
                } else {
                    (self, Err(ConnectionError::Proto(Reason::ProtocolError)))
                }
            },
            StreamState::HalfClosedLocal(half) => {
                if half is Headers {
                    if eos {
                        (StreamState::Closed, Ok(false))
                    } else {
                        (
                            StreamState::HalfClosedLocal(
                                PeerState::Data(FlowController::spec_new(initial_recv_window_size)),
                            ),
                            Ok(false),
                        )
                    }
                } else {
                    (self, Err(ConnectionError::Proto(Reason::ProtocolError)))
                }
            },
            StreamState::HalfClosedRemote(_) => (
                self,
                Err(ConnectionError::Proto(Reason::ProtocolError)),
            ),
            StreamState::Closed => (self, Err(ConnectionError::Proto(Reason::ProtocolError))),
        }
    }

    /// The transition table of [`StreamState::send_headers`]: the mirror
    /// image of [`StreamState::spec_recv_headers`] with the local and
    /// remote roles swapped and caller-level error kinds.
    pub open spec fn spec_send_headers(self, eos: bool, initial_window_size: u32) -> (
        StreamState,
        Result<bool, ConnectionError>,
    ) {
        match self {
            StreamState::Idle => {
                if eos {
                    (StreamState::HalfClosedLocal(PeerState::Headers), Ok(true))
                } else {
                    (
                        StreamState::Open {
                            local: PeerState::Data(FlowController::spec_new(initial_window_size)),
                            remote: PeerState::Headers,
                        },
                        Ok(true),
                    )
                }
            },
            StreamState::Open { local, remote } => {
                if local is Headers && eos {
                    (StreamState::HalfClosedLocal(remote), Ok(false))
                } else {
                    (self, Err(ConnectionError::User(User::UnexpectedFrameType)))
                }
            },
            StreamState::HalfClosedRemote(half) => {
                if half is Headers {
                    if eos {
                        (StreamState::Closed, Ok(false))
                    } else {
                        (
                            StreamState::HalfClosedRemote(
                                PeerState::Data(FlowController::spec_new(initial_window_size)),
                            ),
                            Ok(false),
                        )
                    }
                } else {
                    (self, Err(ConnectionError::User(User::UnexpectedFrameType)))
                }
            },
            StreamState::HalfClosedLocal(_) => (
                self,
                Err(ConnectionError::User(User::UnexpectedFrameType)),
            ),
            StreamState::Closed => (self, Err(ConnectionError::User(User::UnexpectedFrameType))),
        }
    }

    /// The transition table of [`StreamState::recv_data`]. The `Idle` arm
    /// is never consulted by the executable function (its precondition
    /// rules `Idle` out); it is here to keep the function total.
    pub open spec fn spec_recv_data(self, eos: bool, len: FrameSize) -> (
        StreamState,
        Result<(), ConnectionError>,
    ) {
        match self {
            StreamState::Open { local, remote } => {
                match remote {
                    PeerState::Data(fc) => {
                        if fc.spec_claim(len).1 is Ok {
                            if eos {
                                (StreamState::HalfClosedRemote(local), Ok(()))
                            } else {
                                (
                                    StreamState::Open {
                                        local,
                                        remote: PeerState::Data(fc.spec_claim(len).0),
                                    },
                                    Ok(()),
                                )
                            }
                        } else {
                            (self, Err(ConnectionError::Proto(Reason::FlowControlError)))
                        }
                    },
                    PeerState::Headers => (
                        self,
                        Err(ConnectionError::Proto(Reason::ProtocolError)),
                    ),
                }
            },
            StreamState::HalfClosedLocal(half) => {
                match half {
                    PeerState::Data(fc) => {
                        if fc.spec_claim(len).1 is Ok {
                            if eos {
                                (StreamState::Closed, Ok(()))
                            } else {
                                (
                                    StreamState::HalfClosedLocal(
                                        PeerState::Data(fc.spec_claim(len).0),
                                    ),
                                    Ok(()),
                                )
                            }
                        } else {
                            (self, Err(ConnectionError::Proto(Reason::FlowControlError)))
                        }
                    },
                    PeerState::Headers => (
                        self,
                        Err(ConnectionError::Proto(Reason::ProtocolError)),
                    ),
                }
            },
            StreamState::Idle => (self, Err(ConnectionError::Proto(Reason::ProtocolError))),
            StreamState::HalfClosedRemote(_) => (
                self,
                Err(ConnectionError::Proto(Reason::ProtocolError)),
            ),
            StreamState::Closed => (self, Err(ConnectionError::Proto(Reason::ProtocolError))),
        }
    }

    /// The transition table of [`StreamState::send_data`]: the mirror
    /// image of [`StreamState::spec_recv_data`] with the local and remote
    /// roles swapped and caller-level error kinds.
    pub open spec fn spec_send_data(self, eos: bool, len: FrameSize) -> (
        StreamState,
        Result<(), ConnectionError>,
    ) {
        match self {
            StreamState::Open { local, remote } => {
                match local {
                    PeerState::Data(fc) => {
                        if fc.spec_claim(len).1 is Ok {
                            if eos {
                                (StreamState::HalfClosedLocal(remote), Ok(()))
                            } else {
                                (
                                    StreamState::Open {
                                        local: PeerState::Data(fc.spec_claim(len).0),
                                        remote,
                                    },
                                    Ok(()),
                                )
                            }
                        } else {
                            (self, Err(ConnectionError::User(User::FlowControlViolation)))
                        }
                    },
                    PeerState::Headers => (
                        self,
                        Err(ConnectionError::User(User::UnexpectedFrameType)),
                    ),
                }
            },
            StreamState::HalfClosedRemote(half) => {
                match half {
                    PeerState::Data(fc) => {
                        if fc.spec_claim(len).1 is Ok {
                            if eos {
                                (StreamState::Closed, Ok(()))
                            } else {
                                (
                                    StreamState::HalfClosedRemote(
                                        PeerState::Data(fc.spec_claim(len).0),
                                    ),
                                    Ok(()),
                                )
                            }
                        } else {
                            (self, Err(ConnectionError::User(User::FlowControlViolation)))
                        }
                    },
                    PeerState::Headers => (
                        self,
                        Err(ConnectionError::User(User::UnexpectedFrameType)),
                    ),
                }
            },
            StreamState::Idle => (self, Err(ConnectionError::User(User::UnexpectedFrameType))),
            StreamState::HalfClosedLocal(_) => (
                self,
                Err(ConnectionError::User(User::UnexpectedFrameType)),
            ),
            StreamState::Closed => (self, Err(ConnectionError::User(User::UnexpectedFrameType))),
        }
    }

    /// A DATA frame can be received exactly when the remote-facing half is
    /// in the Data phase with at least `len` bytes of window available.
    pub open spec fn can_recv_data(self, len: FrameSize) -> bool {
        match self {
            StreamState::Open { remote: PeerState::Data(fc), .. } => 0 <= fc.window && len as int
                <= fc.window as int,
            StreamState::HalfClosedLocal(PeerState::Data(fc)) => 0 <= fc.window && len as int
                <= fc.window as int,
            _ => false,
        }
    }

    /// A DATA frame can be sent exactly when the local-facing half is in
    /// the Data phase with at least `len` bytes of window available.
    pub open spec fn can_send_data(self, len: FrameSize) -> bool {
        match self {
            StreamState::Open { local: PeerState::Data(fc), .. } => 0 <= fc.window && len as int
                <= fc.window as int,
            StreamState::HalfClosedRemote(PeerState::Data(fc)) => 0 <= fc.window && len as int
                <= fc.window as int,
            _ => false,
        }
    }

    pub open spec fn spec_grow_send_window(self, incr: u32) -> StreamState {
        if incr == 0 {
            self
        } else {
            match self {
                StreamState::Open { local, remote: PeerState::Data(fc) } => StreamState::Open {
                    local,
                    remote: PeerState::Data(fc.spec_grow(incr)),
                },
                StreamState::HalfClosedLocal(PeerState::Data(fc)) => StreamState::HalfClosedLocal(
                    PeerState::Data(fc.spec_grow(incr)),
                ),
                _ => self,
            }
        }
    }

    pub open spec fn spec_shrink_send_window(self, decr: u32) -> StreamState {
        if decr == 0 {
            self
        } else {
            match self {
                StreamState::Open { local, remote: PeerState::Data(fc) } => StreamState::Open {
                    local,
                    remote: PeerState::Data(fc.spec_shrink(decr)),
                },
                StreamState::HalfClosedLocal(PeerState::Data(fc)) => StreamState::HalfClosedLocal(
                    PeerState::Data(fc.spec_shrink(decr)),
                ),
                _ => self,
            }
        }
    }

    pub open spec fn spec_take_send_window_update(self) -> (StreamState, Option<u32>) {
        match self {
            StreamState::Open { local, remote: PeerState::Data(fc) } => (
                StreamState::Open { local, remote: PeerState::Data(fc.spec_take().0) },
                fc.spec_take().1,
            ),
            StreamState::HalfClosedLocal(PeerState::Data(fc)) => (
                StreamState::HalfClosedLocal(PeerState::Data(fc.spec_take().0)),
                fc.spec_take().1,
            ),
            _ => (self, None),
        }
    }

    pub open spec fn spec_grow_recv_window(self, incr: u32) -> StreamState {
        if incr == 0 {
            self
        } else {
            match self {
                StreamState::Open { local: PeerState::Data(fc), remote } => StreamState::Open {
                    local: PeerState::Data(fc.spec_grow(incr)),
                    remote,
                },
                StreamState::HalfClosedRemote(PeerState::Data(fc)) => StreamState::HalfClosedRemote(
                    PeerState::Data(fc.spec_grow(incr)),
                ),
                _ => self,
            }
        }
    }

    pub open spec fn spec_shrink_recv_window(self, decr: u32) -> StreamState {
        if decr == 0 {
            self
        } else {
            match self {
                StreamState::Open { local: PeerState::Data(fc), remote } => StreamState::Open {
                    local: PeerState::Data(fc.spec_shrink(decr)),
                    remote,
                },
                StreamState::HalfClosedRemote(PeerState::Data(fc)) => StreamState::HalfClosedRemote(
                    PeerState::Data(fc.spec_shrink(decr)),
                ),
                _ => self,
            }
        }
    }

    pub open spec fn spec_take_recv_window_update(self) -> (StreamState, Option<u32>) {
        match self {
            StreamState::Open { local: PeerState::Data(fc), remote } => (
                StreamState::Open { local: PeerState::Data(fc.spec_take().0), remote },
                fc.spec_take().1,
            ),
            StreamState::HalfClosedRemote(PeerState::Data(fc)) => (
                StreamState::HalfClosedRemote(PeerState::Data(fc.spec_take().0)),
                fc.spec_take().1,
            ),
            _ => (self, None),
        }
    }

    /// Extends by `incr` bytes the window metering this endpoint's
    /// outbound DATA (the controller in `Open.remote` or in the half
    /// carried by `HalfClosedLocal`). Succeeds silently when the state
    /// carries no such controller.
    pub fn grow_send_window(&mut self, incr: u32)
        requires
            old(self).wf(),
        ensures
            *final(self) == old(self).spec_grow_send_window(incr),
            final(self).wf(),
    {
        if incr == 0 {
            return;
        }
        match *self {
            StreamState::Open { local, remote: PeerState::Data(fc) } => {
                let mut f = fc;
                f.grow_window(incr);
                *self = StreamState::Open { local, remote: PeerState::Data(f) };
            },
            StreamState::HalfClosedLocal(PeerState::Data(fc)) => {
                let mut f = fc;
                f.grow_window(incr);
                *self = StreamState::HalfClosedLocal(PeerState::Data(f));
            },
            _ => {},
        }
    }

    /// Withdraws `decr` bytes from the window metering this endpoint's
    /// outbound DATA, for a SETTINGS-driven decrease; the window may go
    /// negative. Succeeds silently when the state carries no such
    /// controller.
    pub fn shrink_send_window(&mut self, decr: u32)
        requires
            old(self).wf(),
        ensures
            *final(self) == old(self).spec_shrink_send_window(decr),
            final(self).wf(),
    {
        if decr == 0 {
            return;
        }
        match *self {
            StreamState::Open { local, remote: PeerState::Data(fc) } => {
                let mut f = fc;
                f.shrink_window(decr);
                *self = StreamState::Open { local, remote: PeerState::Data(f) };
            },
            StreamState::HalfClosedLocal(PeerState::Data(fc)) => {
                let mut f = fc;
                f.shrink_window(decr);
                *self = StreamState::HalfClosedLocal(PeerState::Data(f));
            },
            _ => {},
        }
    }

    /// Drains the pending increment of the controller metering this
    /// endpoint's outbound DATA; `None` when the relevant half carries no
    /// active controller or nothing is pending.
    pub fn take_send_window_update(&mut self) -> (r: Option<u32>)
        requires
            old(self).wf(),
        ensures
            *final(self) == old(self).spec_take_send_window_update().0,
            r == old(self).spec_take_send_window_update().1,
            final(self).wf(),
    {
        match *self {
            StreamState::Open { local, remote: PeerState::Data(fc) } => {
                let mut f = fc;
                let r = f.take_window_update();
                *self = StreamState::Open { local, remote: PeerState::Data(f) };
                r
            },
            StreamState::HalfClosedLocal(PeerState::Data(fc)) => {
                let mut f = fc;
                let r = f.take_window_update();
                *self = StreamState::HalfClosedLocal(PeerState::Data(f));
                r
            },
            _ => None,
        }
    }

    /// Extends by `incr` bytes the window metering this endpoint's
    /// inbound DATA (the controller in `Open.local` or in the half
    /// carried by `HalfClosedRemote`). Succeeds silently when the state
    /// carries no such controller.
    pub fn grow_recv_window(&mut self, incr: u32)
        requires
            old(self).wf(),
        ensures
            *final(self) == old(self).spec_grow_recv_window(incr),
            final(self).wf(),
    {
        if incr == 0 {
            return;
        }
        match *self {
            StreamState::Open { local: PeerState::Data(fc), remote } => {
                let mut f = fc;
                f.grow_window(incr);
                *self = StreamState::Open { local: PeerState::Data(f), remote };
            },
            StreamState::HalfClosedRemote(PeerState::Data(fc)) => {
                let mut f = fc;
                f.grow_window(incr);
                *self = StreamState::HalfClosedRemote(PeerState::Data(f));
            },
            _ => {},
        }
    }

    /// Withdraws `decr` bytes from the window metering this endpoint's
    /// inbound DATA, for a SETTINGS-driven decrease; the window may go
    /// negative. Succeeds silently when the state carries no such
    /// controller.
    pub fn shrink_recv_window(&mut self, decr: u32)
        requires
            old(self).wf(),
        ensures
            *final(self) == old(self).spec_shrink_recv_window(decr),
            final(self).wf(),
    {
        if decr == 0 {
            return;
        }
        match *self {
            StreamState::Open { local: PeerState::Data(fc), remote } => {
                let mut f = fc;
                f.shrink_window(decr);
                *self = StreamState::Open { local: PeerState::Data(f), remote };
            },
            StreamState::HalfClosedRemote(PeerState::Data(fc)) => {
                let mut f = fc;
                f.shrink_window(decr);
                *self = StreamState::HalfClosedRemote(PeerState::Data(f));
            },
            _ => {},
        }
    }

    /// Drains the pending increment of the controller metering this
    /// endpoint's inbound DATA; `None` when the relevant half carries no
    /// active controller or nothing is pending.
    pub fn take_recv_window_update(&mut self) -> (r: Option<u32>)
        requires
            old(self).wf(),
        ensures
            *final(self) == old(self).spec_take_recv_window_update().0,
            r == old(self).spec_take_recv_window_update().1,
            final(self).wf(),
    {
        match *self {
            StreamState::Open { local: PeerState::Data(fc), remote } => {
                let mut f = fc;
                let r = f.take_window_update();
                *self = StreamState::Open { local: PeerState::Data(f), remote };
                r
            },
            StreamState::HalfClosedRemote(PeerState::Data(fc)) => {
                let mut f = fc;
                let r = f.take_window_update();
                *self = StreamState::HalfClosedRemote(PeerState::Data(f));
                r
            },
            _ => None,
        }
    }

    /// Transitions the state for HEADERS being received, per the table of
    /// [`StreamState::spec_recv_headers`]. Returns `Ok(true)` exactly when
    /// this call establishes the stream (transitions out of `Idle`), so
    /// the caller knows a stream identifier must now be registered. A
    /// rejected transition returns `Err` with a protocol-level error and
    /// leaves the state untouched.
    pub fn recv_headers<P: Peer>(&mut self, eos: bool, initial_recv_window_size: u32) -> (r: Result<
        bool,
        ConnectionError,
    >)
        requires
            old(self).wf(),
            initial_recv_window_size <= MAX_WINDOW_SIZE,
        ensures
            *final(self) == old(self).spec_recv_headers(eos, initial_recv_window_size).0,
            r == old(self).spec_recv_headers(eos, initial_recv_window_size).1,
            final(self).wf(),
            r is Err ==> *final(self) == *old(self),
            r matches Ok(opened) ==> (opened <==> *old(self) is Idle),
    {
        match *self {
            StreamState::Idle => {
                if eos {
                    *self = StreamState::HalfClosedRemote(PeerState::Headers);
                } else {
                    *self = StreamState::Open {
                        local: PeerState::Headers,
                        remote: PeerState::Data(FlowController::new(initial_recv_window_size)),
                    };
                }
                Ok(true)
            },
            StreamState::Open { local, remote } => {
                match remote.check_is_headers(ConnectionError::Proto(Reason::ProtocolError)) {
                    Ok(()) => {
                        if eos {
                            *self = StreamState::HalfClosedRemote(local);
                            Ok(false)
                        } else {
                            // A second non-trailers HEADERS on a still
                            // open remote half.
                            Err(ConnectionError::Proto(Reason::ProtocolError))
                        }
                    },
                    Err(e) => Err(e),
                }
            },
            StreamState::HalfClosedLocal(half) => {
                match half.check_is_headers(ConnectionError::Proto(Reason::ProtocolError)) {
                    Ok(()) => {
                        if eos {
                            *self = StreamState::Closed;
                        } else {
                            *self = StreamState::HalfClosedLocal(
                                PeerState::Data(FlowController::new(initial_recv_window_size)),
                            );
                        }
                        Ok(false)
                    },
                    Err(e) => Err(e),
                }
            },
            StreamState::Closed | StreamState::HalfClosedRemote(_) => Err(
                ConnectionError::Proto(Reason::ProtocolError),
            ),
        }
    }

    /// Transitions the state for HEADERS being sent: the mirror image of
    /// [`StreamState::recv_headers`] with the roles swapped. A rejected
    /// transition indicates a local-caller bug, so the error is the
    /// caller-level `UnexpectedFrameType` rather than a protocol error.
    pub fn send_headers<P: Peer>(&mut self, eos: bool, initial_window_size: u32) -> (r: Result<
        bool,
        ConnectionError,
    >)
        requires
            old(self).wf(),
            initial_window_size <= MAX_WINDOW_SIZE,
        ensures
            *final(self) == old(self).spec_send_headers(eos, initial_window_size).0,
            r == old(self).spec_send_headers(eos, initial_window_size).1,
            final(self).wf(),
            r is Err ==> *final(self) == *old(self),
            r matches Ok(opened) ==> (opened <==> *old(self) is Idle),
    {
        match *self {
            StreamState::Idle => {
                if eos {
                    *self = StreamState::HalfClosedLocal(PeerState::Headers);
                } else {
                    *self = StreamState::Open {
                        local: PeerState::Data(FlowController::new(initial_window_size)),
                        remote: PeerState::Headers,
                    };
                }
                Ok(true)
            },
            StreamState::Open { local, remote } => {
                match local.check_is_headers(ConnectionError::User(User::UnexpectedFrameType)) {
                    Ok(()) => {
                        if eos {
                            *self = StreamState::HalfClosedLocal(remote);
                            Ok(false)
                        } else {
                            // Sending a second non-trailers HEADERS on a
                            // still open local half.
                            Err(ConnectionError::User(User::UnexpectedFrameType))
                        }
                    },
                    Err(e) => Err(e),
                }
            },
            StreamState::HalfClosedRemote(half) => {
                match half.check_is_headers(ConnectionError::User(User::UnexpectedFrameType)) {
                    Ok(()) => {
                        if eos {
                            *self = StreamState::Closed;
                        } else {
                            *self = StreamState::HalfClosedRemote(
                                PeerState::Data(FlowController::new(initial_window_size)),
                            );
                        }
                        Ok(false)
                    },
                    Err(e) => Err(e),
                }
            },
            StreamState::Closed | StreamState::HalfClosedLocal(_) => Err(
                ConnectionError::User(User::UnexpectedFrameType),
            ),
        }
    }

    /// Transitions the state for a DATA frame being received, per the
    /// table of [`StreamState::spec_recv_data`]. The claim succeeds
    /// exactly when the remote-facing half is in the Data phase with at
    /// least `len` bytes of window; any failure returns `Err` and leaves
    /// the state untouched. A DATA frame cannot legally arrive at `Idle`
    /// (`recv_headers` is required first), so that state is ruled out by
    /// the precondition rather than decoded into a protocol error.
    pub fn recv_data(&mut self, eos: bool, len: FrameSize) -> (r: Result<(), ConnectionError>)
        requires
            old(self).wf(),
            !(*old(self) is Idle),
        ensures
            *final(self) == old(self).spec_recv_data(eos, len).0,
            r == old(self).spec_recv_data(eos, len).1,
            final(self).wf(),
            r is Ok <==> old(self).can_recv_data(len),
            r is Err ==> *final(self) == *old(self),
    {
        match *self {
            StreamState::Open { local, remote } => {
                let mut half = remote;
                match half.check_is_data(ConnectionError::Proto(Reason::ProtocolError)) {
                    Ok(()) => {
                        match half.claim_window_size(
                            len,
                            ConnectionError::Proto(Reason::FlowControlError),
                        ) {
                            Ok(()) => {
                                if eos {
                                    *self = StreamState::HalfClosedRemote(local);
                                } else {
                                    *self = StreamState::Open { local, remote: half };
                                }
                                Ok(())
                            },
                            Err(e) => Err(e),
                        }
                    },
                    Err(e) => Err(e),
                }
            },
            StreamState::HalfClosedLocal(h) => {
                let mut half = h;
                match half.check_is_data(ConnectionError::Proto(Reason::ProtocolError)) {
                    Ok(()) => {
                        match half.claim_window_size(
                            len,
                            ConnectionError::Proto(Reason::FlowControlError),
                        ) {
                            Ok(()) => {
                                if eos {
                                    *self = StreamState::Closed;
                                } else {
                                    *self = StreamState::HalfClosedLocal(half);
                                }
                                Ok(())
                            },
                            Err(e) => Err(e),
                        }
                    },
                    Err(e) => Err(e),
                }
            },
            StreamState::Closed | StreamState::HalfClosedRemote(_) => Err(
                ConnectionError::Proto(Reason::ProtocolError),
            ),
            // Ruled out by the precondition: reaching a DATA transition at
            // Idle is an internal-consistency fault, not a decodable
            // protocol error.
            StreamState::Idle => unreached(),
        }
    }

    /// Transitions the state for a DATA frame being sent: the mirror
    /// image of [`StreamState::recv_data`] with the roles swapped and the
    /// caller-level error kinds `UnexpectedFrameType` and
    /// `FlowControlViolation`.
    pub fn send_data(&mut self, eos: bool, len: FrameSize) -> (r: Result<(), ConnectionError>)
        requires
            old(self).wf(),
            !(*old(self) is Idle),
        ensures
            *final(self) == old(self).spec_send_data(eos, len).0,
            r == old(self).spec_send_data(eos, len).1,
            final(self).wf(),
            r is Ok <==> old(self).can_send_data(len),
            r is Err ==> *final(self) == *old(self),
    {
        match *self {
            StreamState::Open { local, remote } => {
                let mut half = local;
                match half.check_is_data(ConnectionError::User(User::UnexpectedFrameType)) {
                    Ok(()) => {
                        match half.claim_window_size(
                            len,
                            ConnectionError::User(User::FlowControlViolation),
                        ) {
                            Ok(()) => {
                                if eos {
                                    *self = StreamState::HalfClosedLocal(remote);
                                } else {
                                    *self = StreamState::Open { local: half, remote };
                                }
                                Ok(())
                            },
                            Err(e) => Err(e),
                        }
                    },
                    Err(e) => Err(e),
                }
            },
            StreamState::HalfClosedRemote(h) => {
                let mut half = h;
                match half.check_is_data(ConnectionError::User(User::UnexpectedFrameType)) {
                    Ok(()) => {
                        match half.claim_window_size(
                            len,
                            ConnectionError::User(User::FlowControlViolation),
                        ) {
                            Ok(()) => {
                                if eos {
                                    *self = StreamState::Closed;
                                } else {
                                    *self = StreamState::HalfClosedRemote(half);
                                }
                                Ok(())
                            },
                            Err(e) => Err(e),
                        }
                    },
                    Err(e) => Err(e),
                }
            },
            StreamState::Closed | StreamState::HalfClosedLocal(_) => Err(
                ConnectionError::User(User::UnexpectedFrameType),
            ),
            // Ruled out by the precondition: reaching a DATA transition at
            // Idle is an internal-consistency fault, not a decodable
            // protocol error.
            StreamState::Idle => unreached(),
        }
    }
}

impl Default for StreamState {
    /// A fresh stream starts in `Idle`.
    fn default() -> (s: StreamState)
        ensures
            s == StreamState::Idle,
            s.wf(),
    {
        StreamState::Idle
    }
}

} // verus!
