//! The guarantees this core gives across its operations, stated over the
//! transition tables and proved once for all inputs.

use crate::FrameSize;
use crate::error::{ConnectionError, Reason, User};
use crate::flow::{FlowController, MAX_WINDOW_SIZE};
use crate::state::StreamState;
use vstd::prelude::*;

verus! {

/// The position of a state in the lifecycle order
/// `Idle < Open < half-closed < Closed`.
pub open spec fn rank(s: StreamState) -> int {
    match s {
        StreamState::Idle => 0,
        StreamState::Open { .. } => 1,
        StreamState::HalfClosedLocal(_) => 2,
        StreamState::HalfClosedRemote(_) => 2,
        StreamState::Closed => 3,
    }
}

/// The same state seen from the other endpoint: the two halves of `Open`
/// trade places, and the two half-closed variants trade places.
pub open spec fn swap_roles(s: StreamState) -> StreamState {
    match s {
        StreamState::Idle => StreamState::Idle,
        StreamState::Open { local, remote } => StreamState::Open { local: remote, remote: local },
        StreamState::HalfClosedLocal(half) => StreamState::HalfClosedRemote(half),
        StreamState::HalfClosedRemote(half) => StreamState::HalfClosedLocal(half),
        StreamState::Closed => StreamState::Closed,
    }
}

/// The error a role-swapped transition raises in place of `e`: each
/// protocol-level kind trades places with its caller-level counterpart.
pub open spec fn mirror_error(e: ConnectionError) -> ConnectionError {
    match e {
        ConnectionError::Proto(Reason::ProtocolError) => ConnectionError::User(
            User::UnexpectedFrameType,
        ),
        ConnectionError::Proto(Reason::FlowControlError) => ConnectionError::User(
            User::FlowControlViolation,
        ),
        ConnectionError::User(User::UnexpectedFrameType) => ConnectionError::Proto(
            Reason::ProtocolError,
        ),
        ConnectionError::User(User::FlowControlViolation) => ConnectionError::Proto(
            Reason::FlowControlError,
        ),
    }
}

/// Applies [`mirror_error`] to the error of a result, leaving a success
/// untouched.
pub open spec fn mirror_result<T>(r: Result<T, ConnectionError>) -> Result<T, ConnectionError> {
    match r {
        Ok(v) => Ok(v),
        Err(e) => Err(mirror_error(e)),
    }
}

/// Seen from the other endpoint and back again, a state is itself.
pub proof fn lemma_swap_roles_involutive(s: StreamState)
    ensures
        swap_roles(swap_roles(s)) == s,
{
}

/// Transitions are monotonic toward `Closed`: no HEADERS or DATA
/// transition, accepted or rejected, ever moves a stream to an earlier
/// tier of the lifecycle order.
pub proof fn lemma_transitions_monotonic(
    s: StreamState,
    eos: bool,
    initial_window_size: u32,
    len: FrameSize,
)
    ensures
        rank(s.spec_recv_headers(eos, initial_window_size).0) >= rank(s),
        rank(s.spec_send_headers(eos, initial_window_size).0) >= rank(s),
        rank(s.spec_recv_data(eos, len).0) >= rank(s),
        rank(s.spec_send_data(eos, len).0) >= rank(s),
{
}

/// The window accessors only touch flow-control counters: they never
/// change the lifecycle tier of a stream at all.
pub proof fn lemma_accessors_preserve_rank(s: StreamState, incr: u32, decr: u32)
    ensures
        rank(s.spec_grow_send_window(incr)) == rank(s),
        rank(s.spec_shrink_send_window(decr)) == rank(s),
        rank(s.spec_take_send_window_update().0) == rank(s),
        rank(s.spec_grow_recv_window(incr)) == rank(s),
        rank(s.spec_shrink_recv_window(decr)) == rank(s),
        rank(s.spec_take_recv_window_update().0) == rank(s),
{
}

/// A DATA transition succeeds exactly when the relevant half is in the
/// Data phase with at least `len` bytes of available window; otherwise it
/// fails with the protocol-error or flow-control error kind of its side
/// and leaves the state exactly as it was.
pub proof fn lemma_data_success_characterization(s: StreamState, eos: bool, len: FrameSize)
    ensures
        s.spec_recv_data(eos, len).1 is Ok <==> s.can_recv_data(len),
        s.spec_send_data(eos, len).1 is Ok <==> s.can_send_data(len),
        s.spec_recv_data(eos, len).1 is Err ==> s.spec_recv_data(eos, len).0 == s,
        s.spec_send_data(eos, len).1 is Err ==> s.spec_send_data(eos, len).0 == s,
        s.spec_recv_data(eos, len).1 is Err ==> s.spec_recv_data(eos, len).1 == Err::<
            (),
            ConnectionError,
        >(ConnectionError::Proto(Reason::ProtocolError)) || s.spec_recv_data(eos, len).1 == Err::<
            (),
            ConnectionError,
        >(ConnectionError::Proto(Reason::FlowControlError)),
        s.spec_send_data(eos, len).1 is Err ==> s.spec_send_data(eos, len).1 == Err::<
            (),
            ConnectionError,
        >(ConnectionError::User(User::UnexpectedFrameType)) || s.spec_send_data(eos, len).1
            == Err::<(), ConnectionError>(ConnectionError::User(User::FlowControlViolation)),
{
}

/// The send-side transitions are the receive-side transitions on
/// role-swapped inputs: the resulting states are the role-swapped images
/// of one another, and the results differ only by the error-kind mirror.
pub proof fn lemma_headers_symmetry(s: StreamState, eos: bool, initial_window_size: u32)
    ensures
        s.spec_send_headers(eos, initial_window_size).0 == swap_roles(
            swap_roles(s).spec_recv_headers(eos, initial_window_size).0,
        ),
        s.spec_send_headers(eos, initial_window_size).1 == mirror_result(
            swap_roles(s).spec_recv_headers(eos, initial_window_size).1,
        ),
{
}

/// The DATA-side counterpart of [`lemma_headers_symmetry`].
pub proof fn lemma_data_symmetry(s: StreamState, eos: bool, len: FrameSize)
    ensures
        s.spec_send_data(eos, len).0 == swap_roles(swap_roles(s).spec_recv_data(eos, len).0),
        s.spec_send_data(eos, len).1 == mirror_result(swap_roles(s).spec_recv_data(eos, len).1),
{
}

/// Flow-control accounting is safe under any sequence of operations: each
/// operation keeps the counter within the protocol bounds, a claim
/// succeeds exactly when it fits the current non-negative window (so a
/// negative window rejects every claim until growth restores enough
/// capacity), and a rejected claim changes nothing.
pub proof fn lemma_flow_controller_safety(
    fc: FlowController,
    incr: u32,
    decr: u32,
    len: FrameSize,
)
    requires
        fc.wf(),
    ensures
        fc.spec_grow(incr).wf(),
        fc.spec_grow(incr).window as int <= MAX_WINDOW_SIZE as int,
        fc.spec_shrink(decr).wf(),
        fc.spec_claim(len).0.wf(),
        fc.spec_claim(len).1 is Ok <==> 0 <= fc.window && len as int <= fc.window as int,
        fc.spec_claim(len).1 is Err ==> fc.spec_claim(len).0 == fc,
        fc.window < 0 ==> fc.spec_claim(len).1 is Err,
        0 <= fc.spec_grow(incr).window && len as int <= fc.spec_grow(incr).window as int
            ==> fc.spec_grow(incr).spec_claim(len).1 is Ok,
{
}

/// Draining the pending increment is idempotent: a second drain with no
/// intervening growth always yields `None`, and the first yields the
/// whole accumulator exactly when anything is pending.
pub proof fn lemma_take_window_update_drains(fc: FlowController)
    ensures
        fc.spec_take().0.spec_take().1 is None,
        fc.pending > 0 ==> fc.spec_take().1 == Some(fc.pending),
        fc.pending == 0 ==> fc.spec_take().1 is None,
{
}

/// One operation of the stream interface, recorded as an event so a whole
/// lifetime can be spoken of as a sequence.
pub enum StreamOp {
    RecvHeaders { eos: bool, initial_window_size: u32 },
    SendHeaders { eos: bool, initial_window_size: u32 },
    RecvData { eos: bool, len: FrameSize },
    SendData { eos: bool, len: FrameSize },
    GrowSendWindow { incr: u32 },
    ShrinkSendWindow { decr: u32 },
    TakeSendWindowUpdate,
    GrowRecvWindow { incr: u32 },
    ShrinkRecvWindow { decr: u32 },
    TakeRecvWindowUpdate,
}

/// The state an operation leaves behind, whether it was accepted or
/// rejected.
pub open spec fn apply_stream_op(s: StreamState, op: StreamOp) -> StreamState {
    match op {
        StreamOp::RecvHeaders { eos, initial_window_size } => s.spec_recv_headers(
            eos,
            initial_window_size,
        ).0,
        StreamOp::SendHeaders { eos, initial_window_size } => s.spec_send_headers(
            eos,
            initial_window_size,
        ).0,
        StreamOp::RecvData { eos, len } => s.spec_recv_data(eos, len).0,
        StreamOp::SendData { eos, len } => s.spec_send_data(eos, len).0,
        StreamOp::GrowSendWindow { incr } => s.spec_grow_send_window(incr),
        StreamOp::ShrinkSendWindow { decr } => s.spec_shrink_send_window(decr),
        StreamOp::TakeSendWindowUpdate => s.spec_take_send_window_update().0,
        StreamOp::GrowRecvWindow { incr } => s.spec_grow_recv_window(incr),
        StreamOp::ShrinkRecvWindow { decr } => s.spec_shrink_recv_window(decr),
        StreamOp::TakeRecvWindowUpdate => s.spec_take_recv_window_update().0,
    }
}

/// The state left behind by a whole sequence of operations, applied in
/// order.
pub open spec fn apply_stream_ops(s: StreamState, ops: Seq<StreamOp>) -> StreamState
    decreases ops.len(),
{
    if ops.len() == 0 {
        s
    } else {
        apply_stream_ops(apply_stream_op(s, ops[0]), ops.subrange(1, ops.len() as int))
    }
}

/// No single operation moves a stream to an earlier lifecycle tier.
pub proof fn lemma_stream_op_monotonic(s: StreamState, op: StreamOp)
    ensures
        rank(apply_stream_op(s, op)) >= rank(s),
{
}

/// Over a whole lifetime: the states a stream passes through under any
/// sequence of operations are non-decreasing in the lifecycle order, so
/// no sequence of operations ever returns a stream to an earlier tier.
pub proof fn lemma_stream_lifetime_monotonic(s: StreamState, ops: Seq<StreamOp>)
    ensures
        rank(apply_stream_ops(s, ops)) >= rank(s),
    decreases ops.len(),
{
    if ops.len() > 0 {
        lemma_stream_op_monotonic(s, ops[0]);
        lemma_stream_lifetime_monotonic(
            apply_stream_op(s, ops[0]),
            ops.subrange(1, ops.len() as int),
        );
    }
}

/// One operation of the flow-control interface, recorded as an event.
pub enum FlowOp {
    Grow { incr: u32 },
    Shrink { decr: u32 },
    Claim { len: FrameSize },
    Take,
}

/// The controller an operation leaves behind, whether or not it
/// succeeded.
pub open spec fn apply_flow_op(fc: FlowController, op: FlowOp) -> FlowController {
    match op {
        FlowOp::Grow { incr } => fc.spec_grow(incr),
        FlowOp::Shrink { decr } => fc.spec_shrink(decr),
        FlowOp::Claim { len } => fc.spec_claim(len).0,
        FlowOp::Take => fc.spec_take().0,
    }
}

/// The controller left behind by a whole sequence of operations, applied
/// in order.
pub open spec fn apply_flow_ops(fc: FlowController, ops: Seq<FlowOp>) -> FlowController
    decreases ops.len(),
{
    if ops.len() == 0 {
        fc
    } else {
        apply_flow_ops(apply_flow_op(fc, ops[0]), ops.subrange(1, ops.len() as int))
    }
}

/// Under any sequence of grow, shrink, claim and drain operations, a
/// well-formed controller stays well-formed: in particular its window
/// counter never exceeds the protocol maximum.
pub proof fn lemma_flow_lifetime_bounded(fc: FlowController, ops: Seq<FlowOp>)
    requires
        fc.wf(),
    ensures
        apply_flow_ops(fc, ops).wf(),
        apply_flow_ops(fc, ops).window as int <= MAX_WINDOW_SIZE as int,
    decreases ops.len(),
{
    if ops.len() > 0 {
        lemma_flow_lifetime_bounded(apply_flow_op(fc, ops[0]), ops.subrange(1, ops.len() as int));
    }
}

} // verus!
