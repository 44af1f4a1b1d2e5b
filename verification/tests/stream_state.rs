use h2_state::error::{ConnectionError, Reason, User};
use h2_state::flow::FlowController;
use h2_state::peer::{Client, Server};
use h2_state::state::{PeerState, StreamState};

fn open_after_recv_headers(window: u32) -> StreamState {
    let mut s = StreamState::default();
    assert_eq!(s.recv_headers::<Client>(false, window), Ok(true));
    s
}

fn remote_window(s: &StreamState) -> i64 {
    match s {
        StreamState::Open { remote: PeerState::Data(fc), .. } => fc.window,
        _ => panic!("no remote flow controller in {:?}", s),
    }
}

#[test]
fn default_stream_is_idle() {
    assert_eq!(StreamState::default(), StreamState::Idle);
}

#[test]
fn scenario_recv_headers_from_idle_opens_the_stream() {
    let mut s = StreamState::default();
    assert_eq!(s.recv_headers::<Client>(false, 65535), Ok(true));
    match s {
        StreamState::Open { local, remote } => {
            assert_eq!(local, PeerState::Headers);
            assert_eq!(remote, PeerState::Data(FlowController::new(65535)));
        },
        other => panic!("expected Open, got {:?}", other),
    }
}

#[test]
fn scenario_recv_data_with_eos_half_closes_the_remote() {
    let mut s = open_after_recv_headers(65535);
    assert_eq!(s.recv_data(true, 100), Ok(()));
    assert_eq!(s, StreamState::HalfClosedRemote(PeerState::Headers));
}

#[test]
fn recv_data_without_eos_debits_the_remote_window() {
    let mut s = open_after_recv_headers(65535);
    assert_eq!(s.recv_data(false, 100), Ok(()));
    assert_eq!(remote_window(&s), 65435);
    assert_eq!(s.recv_data(false, 35), Ok(()));
    assert_eq!(remote_window(&s), 65400);
}

#[test]
fn scenario_send_headers_with_eos_then_send_data_is_rejected() {
    let mut s = StreamState::default();
    assert_eq!(s.send_headers::<Client>(true, 65535), Ok(true));
    assert_eq!(s, StreamState::HalfClosedLocal(PeerState::Headers));
    assert_eq!(
        s.send_data(false, 1),
        Err(ConnectionError::User(User::UnexpectedFrameType))
    );
    assert_eq!(s, StreamState::HalfClosedLocal(PeerState::Headers));
}

#[test]
fn scenario_closed_rejects_all_four_transitions() {
    let mut s = StreamState::Closed;
    assert_eq!(
        s.recv_headers::<Client>(false, 65535),
        Err(ConnectionError::Proto(Reason::ProtocolError))
    );
    assert_eq!(s, StreamState::Closed);
    assert_eq!(
        s.send_headers::<Client>(false, 65535),
        Err(ConnectionError::User(User::UnexpectedFrameType))
    );
    assert_eq!(s, StreamState::Closed);
    assert_eq!(
        s.recv_data(false, 1),
        Err(ConnectionError::Proto(Reason::ProtocolError))
    );
    assert_eq!(s, StreamState::Closed);
    assert_eq!(
        s.send_data(false, 1),
        Err(ConnectionError::User(User::UnexpectedFrameType))
    );
    assert_eq!(s, StreamState::Closed);
}

#[test]
fn recv_headers_with_eos_from_idle_half_closes_the_remote() {
    let mut s = StreamState::default();
    assert_eq!(s.recv_headers::<Server>(true, 65535), Ok(true));
    assert_eq!(s, StreamState::HalfClosedRemote(PeerState::Headers));
}

#[test]
fn recv_headers_after_send_headers_completes_the_exchange() {
    let mut s = StreamState::default();
    assert_eq!(s.send_headers::<Client>(false, 200), Ok(true));
    assert_eq!(s.recv_headers::<Client>(true, 65535), Ok(false));
    assert_eq!(
        s,
        StreamState::HalfClosedRemote(PeerState::Data(FlowController::new(200)))
    );
}

#[test]
fn second_non_trailers_recv_headers_is_a_protocol_error() {
    let mut s = StreamState::default();
    assert_eq!(s.send_headers::<Client>(false, 200), Ok(true));
    assert_eq!(
        s.recv_headers::<Client>(false, 65535),
        Err(ConnectionError::Proto(Reason::ProtocolError))
    );
}

#[test]
fn recv_headers_on_an_open_remote_data_half_is_a_protocol_error() {
    let mut s = open_after_recv_headers(65535);
    let before = s;
    assert_eq!(
        s.recv_headers::<Client>(true, 65535),
        Err(ConnectionError::Proto(Reason::ProtocolError))
    );
    assert_eq!(s, before);
}

#[test]
fn recv_headers_on_half_closed_local_with_eos_closes_the_stream() {
    let mut s = StreamState::HalfClosedLocal(PeerState::Headers);
    assert_eq!(s.recv_headers::<Client>(true, 65535), Ok(false));
    assert_eq!(s, StreamState::Closed);
}

#[test]
fn recv_headers_on_half_closed_local_without_eos_opens_the_data_phase() {
    let mut s = StreamState::HalfClosedLocal(PeerState::Headers);
    assert_eq!(s.recv_headers::<Client>(false, 4096), Ok(false));
    assert_eq!(
        s,
        StreamState::HalfClosedLocal(PeerState::Data(FlowController::new(4096)))
    );
}

#[test]
fn second_non_trailers_send_headers_is_an_unexpected_frame() {
    let mut s = open_after_recv_headers(65535);
    let before = s;
    assert_eq!(
        s.send_headers::<Client>(false, 200),
        Err(ConnectionError::User(User::UnexpectedFrameType))
    );
    assert_eq!(s, before);
}

#[test]
fn send_headers_after_recv_headers_completes_the_exchange() {
    let mut s = open_after_recv_headers(65535);
    assert_eq!(s.send_headers::<Client>(true, 200), Ok(false));
    assert_eq!(
        s,
        StreamState::HalfClosedLocal(PeerState::Data(FlowController::new(65535)))
    );
}

#[test]
fn send_headers_on_half_closed_remote_without_eos_opens_the_data_phase() {
    let mut s = StreamState::HalfClosedRemote(PeerState::Headers);
    assert_eq!(s.send_headers::<Server>(false, 300), Ok(false));
    assert_eq!(
        s,
        StreamState::HalfClosedRemote(PeerState::Data(FlowController::new(300)))
    );
}

#[test]
fn send_headers_on_half_closed_remote_with_eos_closes_the_stream() {
    let mut s = StreamState::HalfClosedRemote(PeerState::Headers);
    assert_eq!(s.send_headers::<Server>(true, 300), Ok(false));
    assert_eq!(s, StreamState::Closed);
}

#[test]
fn recv_data_before_the_remote_headers_is_a_protocol_error() {
    let mut s = StreamState::default();
    assert_eq!(s.send_headers::<Client>(false, 200), Ok(true));
    let before = s;
    assert_eq!(
        s.recv_data(false, 1),
        Err(ConnectionError::Proto(Reason::ProtocolError))
    );
    assert_eq!(s, before);
}

#[test]
fn recv_data_past_the_window_is_a_flow_control_error() {
    let mut s = open_after_recv_headers(100);
    let before = s;
    assert_eq!(
        s.recv_data(false, 101),
        Err(ConnectionError::Proto(Reason::FlowControlError))
    );
    assert_eq!(s, before);
}

#[test]
fn send_data_past_the_window_is_a_flow_control_violation() {
    let mut s = StreamState::default();
    assert_eq!(s.send_headers::<Client>(false, 100), Ok(true));
    let before = s;
    assert_eq!(
        s.send_data(false, 101),
        Err(ConnectionError::User(User::FlowControlViolation))
    );
    assert_eq!(s, before);
}

#[test]
fn send_data_mirrors_recv_data() {
    let mut s = StreamState::default();
    assert_eq!(s.send_headers::<Client>(false, 65535), Ok(true));
    assert_eq!(s.send_data(false, 135), Ok(()));
    match s {
        StreamState::Open { local: PeerState::Data(fc), remote: PeerState::Headers } => {
            assert_eq!(fc.window, 65400);
        },
        other => panic!("expected Open with a local Data half, got {:?}", other),
    }
    assert_eq!(s.send_data(true, 400), Ok(()));
    assert_eq!(s, StreamState::HalfClosedLocal(PeerState::Headers));
}

#[test]
fn send_data_with_eos_on_half_closed_remote_closes_the_stream() {
    let mut s = StreamState::HalfClosedRemote(PeerState::Data(FlowController::new(1000)));
    assert_eq!(s.send_data(true, 1000), Ok(()));
    assert_eq!(s, StreamState::Closed);
}

#[test]
fn recv_data_with_eos_on_half_closed_local_closes_the_stream() {
    let mut s = StreamState::HalfClosedLocal(PeerState::Data(FlowController::new(1000)));
    assert_eq!(s.recv_data(true, 42), Ok(()));
    assert_eq!(s, StreamState::Closed);
}

#[test]
fn lifecycle_never_returns_to_an_earlier_tier() {
    let mut s = StreamState::default();
    assert_eq!(s, StreamState::Idle);
    assert_eq!(s.recv_headers::<Client>(false, 65535), Ok(true));
    assert!(matches!(s, StreamState::Open { .. }));
    assert_eq!(s.recv_data(true, 10), Ok(()));
    assert!(matches!(s, StreamState::HalfClosedRemote(_)));
    assert_eq!(
        s.recv_data(false, 1),
        Err(ConnectionError::Proto(Reason::ProtocolError))
    );
    assert!(matches!(s, StreamState::HalfClosedRemote(_)));
    assert_eq!(s.send_headers::<Client>(true, 65535), Ok(false));
    assert_eq!(s, StreamState::Closed);
}

#[test]
fn grow_send_window_extends_the_open_remote_controller() {
    let mut s = open_after_recv_headers(1000);
    s.grow_send_window(500);
    assert_eq!(remote_window(&s), 1500);
}

#[test]
fn shrink_send_window_withdraws_from_the_open_remote_controller() {
    let mut s = open_after_recv_headers(1000);
    s.shrink_send_window(1500);
    assert_eq!(remote_window(&s), -500);
}

#[test]
fn take_send_window_update_drains_the_open_remote_controller() {
    let mut s = open_after_recv_headers(1000);
    s.grow_send_window(300);
    assert_eq!(s.take_send_window_update(), Some(300));
    assert_eq!(s.take_send_window_update(), None);
}

#[test]
fn send_window_accessors_reach_the_half_closed_local_controller() {
    let mut s = StreamState::HalfClosedLocal(PeerState::Data(FlowController::new(100)));
    s.grow_send_window(50);
    assert_eq!(
        s,
        StreamState::HalfClosedLocal(PeerState::Data(FlowController {
            window: 150,
            pending: 50,
        }))
    );
    assert_eq!(s.take_send_window_update(), Some(50));
    s.shrink_send_window(200);
    assert_eq!(
        s,
        StreamState::HalfClosedLocal(PeerState::Data(FlowController {
            window: -50,
            pending: 0,
        }))
    );
}

#[test]
fn recv_window_accessors_reach_the_open_local_controller() {
    let mut s = StreamState::default();
    assert_eq!(s.send_headers::<Client>(false, 1000), Ok(true));
    s.grow_recv_window(250);
    s.shrink_recv_window(50);
    match s {
        StreamState::Open { local: PeerState::Data(fc), .. } => {
            assert_eq!(fc.window, 1200);
            assert_eq!(fc.pending, 250);
        },
        other => panic!("expected Open with a local Data half, got {:?}", other),
    }
    assert_eq!(s.take_recv_window_update(), Some(250));
    assert_eq!(s.take_recv_window_update(), None);
}

#[test]
fn recv_window_accessors_reach_the_half_closed_remote_controller() {
    let mut s = StreamState::HalfClosedRemote(PeerState::Data(FlowController::new(100)));
    s.grow_recv_window(25);
    assert_eq!(
        s,
        StreamState::HalfClosedRemote(PeerState::Data(FlowController {
            window: 125,
            pending: 25,
        }))
    );
    assert_eq!(s.take_recv_window_update(), Some(25));
}

#[test]
fn window_accessors_are_silent_when_no_controller_is_relevant() {
    let mut s = StreamState::default();
    s.grow_send_window(100);
    s.shrink_send_window(100);
    s.grow_recv_window(100);
    s.shrink_recv_window(100);
    assert_eq!(s, StreamState::Idle);
    assert_eq!(s.take_send_window_update(), None);
    assert_eq!(s.take_recv_window_update(), None);

    let mut open = open_after_recv_headers(1000);
    // The local half is still exchanging headers: no recv-side controller.
    open.grow_recv_window(100);
    assert_eq!(open, open_after_recv_headers(1000));
    assert_eq!(open.take_recv_window_update(), None);

    let mut closed = StreamState::Closed;
    closed.grow_send_window(100);
    assert_eq!(closed, StreamState::Closed);
}

#[test]
fn peer_state_checks_report_the_supplied_error() {
    let headers = PeerState::Headers;
    let data = PeerState::Data(FlowController::new(10));
    let err = ConnectionError::Proto(Reason::ProtocolError);
    assert_eq!(headers.check_is_headers(err), Ok(()));
    assert_eq!(data.check_is_headers(err), Err(err));
    assert_eq!(data.check_is_data(err), Ok(()));
    assert_eq!(headers.check_is_data(err), Err(err));
}

#[test]
fn peer_state_claim_translates_the_failure() {
    let err = ConnectionError::Proto(Reason::FlowControlError);
    let mut headers = PeerState::Headers;
    assert_eq!(headers.claim_window_size(1, err), Err(err));
    assert_eq!(headers, PeerState::Headers);

    let mut data = PeerState::Data(FlowController::new(10));
    assert_eq!(data.claim_window_size(4, err), Ok(()));
    assert_eq!(data, PeerState::Data(FlowController { window: 6, pending: 0 }));
    assert_eq!(data.claim_window_size(7, err), Err(err));
    assert_eq!(data, PeerState::Data(FlowController { window: 6, pending: 0 }));
}

#[test]
fn error_categories_convert_into_the_connection_error() {
    assert_eq!(
        ConnectionError::from(Reason::ProtocolError),
        ConnectionError::Proto(Reason::ProtocolError)
    );
    assert_eq!(
        ConnectionError::from(User::FlowControlViolation),
        ConnectionError::User(User::FlowControlViolation)
    );
}
