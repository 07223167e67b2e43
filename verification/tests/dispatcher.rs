use deribit_websocket::connection::dispatcher::{
    frame_step, receive_step, request_timed_out, DispatcherAction, DispatcherEvent, DispatcherState,
    FrameKind, FrameRoute, FrameStep, ReceiveStep, Waiters,
};
use deribit_websocket::error::WebSocketError;
use deribit_websocket::json::{JsonNumber, JsonValue};

fn frame_with_id(id: u64) -> DispatcherEvent {
    DispatcherEvent::Inbound {
        kind: FrameKind::Text,
        parsed: Some(JsonValue::Object(vec![
            ("jsonrpc".to_string(), JsonValue::String("2.0".to_string())),
            ("id".to_string(), JsonValue::Number(JsonNumber::PosInt(id))),
            ("result".to_string(), JsonValue::Object(vec![])),
        ])),
    }
}

fn notification() -> DispatcherEvent {
    DispatcherEvent::Inbound {
        kind: FrameKind::Text,
        parsed: Some(JsonValue::Object(vec![(
            "method".to_string(),
            JsonValue::String("subscription".to_string()),
        )])),
    }
}

fn submit(id: u64) -> DispatcherEvent {
    DispatcherEvent::Submit { id: Some(id), serialize_error: None }
}

#[test]
fn response_is_routed_to_its_waiter_once() {
    let mut d = DispatcherState::new();
    assert!(matches!(d.step(submit(42)), DispatcherAction::Write(42)));
    assert_eq!(d.pending_count(), 1);
    assert!(matches!(d.step(frame_with_id(42)), DispatcherAction::Deliver(42)));
    assert_eq!(d.pending_count(), 0);
    assert!(matches!(d.step(frame_with_id(42)), DispatcherAction::Forward));
}

#[test]
fn concurrent_requests_each_get_their_response() {
    let mut d = DispatcherState::new();
    for id in [10u64, 11, 12] {
        assert!(matches!(d.step(submit(id)), DispatcherAction::Write(i) if i == id));
    }
    for id in [12u64, 11, 10] {
        assert!(matches!(d.step(notification()), DispatcherAction::Forward));
        assert!(matches!(d.step(frame_with_id(id)), DispatcherAction::Deliver(i) if i == id));
    }
    assert_eq!(d.pending_count(), 0);
}

#[test]
fn duplicate_in_flight_id_is_rejected() {
    let mut d = DispatcherState::new();
    assert!(matches!(d.step(submit(7)), DispatcherAction::Write(7)));
    match d.step(submit(7)) {
        DispatcherAction::Reject(WebSocketError::InvalidMessage(m)) => {
            assert_eq!(m, "duplicate in-flight request id 7")
        }
        other => panic!("expected rejection, got {other:?}"),
    }
    assert_eq!(d.pending_count(), 1);
    assert!(matches!(d.step(frame_with_id(7)), DispatcherAction::Deliver(7)));
}

#[test]
fn non_numeric_id_and_serialize_failure_are_rejected() {
    let mut d = DispatcherState::new();
    match d.step(DispatcherEvent::Submit { id: None, serialize_error: None }) {
        DispatcherAction::Reject(WebSocketError::InvalidMessage(m)) => assert_eq!(m, "request id must be u64"),
        other => panic!("expected rejection, got {other:?}"),
    }
    match d.step(DispatcherEvent::Submit { id: Some(3), serialize_error: Some("bad float".to_string()) }) {
        DispatcherAction::Reject(WebSocketError::InvalidMessage(m)) => assert_eq!(m, "serialize: bad float"),
        other => panic!("expected rejection, got {other:?}"),
    }
    assert_eq!(d.pending_count(), 0);
}

#[test]
fn big_duplicate_ids_are_written_in_full() {
    let mut d = DispatcherState::new();
    assert!(matches!(d.step(submit(u64::MAX)), DispatcherAction::Write(_)));
    match d.step(submit(u64::MAX)) {
        DispatcherAction::Reject(WebSocketError::InvalidMessage(m)) => {
            assert_eq!(m, format!("duplicate in-flight request id {}", u64::MAX))
        }
        other => panic!("expected rejection, got {other:?}"),
    }
}

#[test]
fn timed_out_request_late_response_goes_to_notifications() {
    let mut d = DispatcherState::new();
    assert!(matches!(d.step(submit(5)), DispatcherAction::Write(5)));
    let (cancel, err) = request_timed_out(Some(5), "50ms");
    assert_eq!(cancel, Some(5));
    match err {
        WebSocketError::Timeout(m) => assert_eq!(m, "request_timeout 50ms elapsed"),
        other => panic!("expected timeout, got {other:?}"),
    }
    assert!(matches!(d.step(DispatcherEvent::Cancel(5)), DispatcherAction::Ignore));
    assert!(matches!(d.step(frame_with_id(5)), DispatcherAction::Forward));
    assert_eq!(d.pending_count(), 0);
}

#[test]
fn unmatched_id_is_forwarded() {
    let mut d = DispatcherState::new();
    assert!(matches!(d.step(submit(1)), DispatcherAction::Write(1)));
    assert!(matches!(d.step(frame_with_id(99)), DispatcherAction::Forward));
    assert!(matches!(
        d.step(DispatcherEvent::Inbound { kind: FrameKind::Text, parsed: None }),
        DispatcherAction::Forward
    ));
    assert_eq!(d.pending_count(), 1);
}

#[test]
fn non_text_frames_are_ignored_and_close_drains_waiters() {
    let mut d = DispatcherState::new();
    assert!(matches!(d.step(submit(1)), DispatcherAction::Write(1)));
    assert!(matches!(d.step(submit(2)), DispatcherAction::Write(2)));
    for kind in [FrameKind::Binary, FrameKind::Ping, FrameKind::Pong, FrameKind::Frame] {
        assert!(matches!(d.step(DispatcherEvent::Inbound { kind, parsed: None }), DispatcherAction::Ignore));
    }
    match d.step(DispatcherEvent::Inbound { kind: FrameKind::Close, parsed: None }) {
        DispatcherAction::Stop { failed, mut closed } => {
            assert!(failed.is_none());
            closed.sort();
            assert_eq!(closed, vec![1, 2]);
        }
        other => panic!("expected stop, got {other:?}"),
    }
    assert!(d.is_stopped());
    assert_eq!(d.pending_count(), 0);
}

#[test]
fn failed_write_fails_its_waiter_and_closes_the_rest() {
    let mut d = DispatcherState::new();
    assert!(matches!(d.step(submit(1)), DispatcherAction::Write(1)));
    assert!(matches!(d.step(submit(2)), DispatcherAction::Write(2)));
    match d.step(DispatcherEvent::WriteFailed { request: 2, reason: "broken pipe".to_string() }) {
        DispatcherAction::Stop { failed: Some((id, WebSocketError::ConnectionFailed(m))), closed } => {
            assert_eq!(id, 2);
            assert_eq!(m, "sink send: broken pipe");
            assert_eq!(closed, vec![1]);
        }
        other => panic!("expected stop, got {other:?}"),
    }
    assert!(d.is_stopped());
}

#[test]
fn shutdown_stops_with_all_pending() {
    let mut d = DispatcherState::new();
    assert!(matches!(d.step(submit(8)), DispatcherAction::Write(8)));
    match d.step(DispatcherEvent::Shutdown) {
        DispatcherAction::Stop { failed: None, closed } => assert_eq!(closed, vec![8]),
        other => panic!("expected stop, got {other:?}"),
    }
}

#[test]
fn frame_steps() {
    assert_eq!(frame_step(FrameKind::Text), FrameStep::Handle);
    assert_eq!(frame_step(FrameKind::Ping), FrameStep::Skip);
    assert_eq!(frame_step(FrameKind::End), FrameStep::Stop);
    assert_eq!(frame_step(FrameKind::Error), FrameStep::Stop);
}

#[test]
fn direct_reader_steps() {
    assert!(matches!(receive_step(FrameKind::Text, ""), ReceiveStep::Deliver));
    assert!(matches!(receive_step(FrameKind::Binary, ""), ReceiveStep::Skip));
    assert!(matches!(receive_step(FrameKind::Close, ""), ReceiveStep::Fail(WebSocketError::ConnectionClosed)));
    assert!(matches!(receive_step(FrameKind::End, ""), ReceiveStep::Fail(WebSocketError::ConnectionClosed)));
    match receive_step(FrameKind::Error, "reset by peer") {
        ReceiveStep::Fail(WebSocketError::ConnectionFailed(m)) => {
            assert_eq!(m, "Failed to receive message: reset by peer")
        }
        other => panic!("expected failure, got {other:?}"),
    }
}

#[test]
fn waiters_track_pending_ids() {
    let mut w = Waiters::new();
    assert!(w.accept_request(Some(3)).is_ok());
    w.register(3);
    assert!(w.contains(3));
    assert_eq!(w.len(), 1);
    assert!(w.accept_request(Some(3)).is_err());
    let doc = JsonValue::Object(vec![("id".to_string(), JsonValue::Number(JsonNumber::PosInt(3)))]);
    assert_eq!(w.route(Some(&doc)), FrameRoute::Deliver(3));
    assert_eq!(w.route(Some(&doc)), FrameRoute::Forward);
    assert!(!w.remove(3));
    w.register(4);
    assert_eq!(w.drain(), vec![4]);
    assert_eq!(w.len(), 0);
}
