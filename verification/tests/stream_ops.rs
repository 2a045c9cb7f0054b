//! Tests of the two stream operations and the suspension bridge,
//! including the full pending-then-complete runs.

use completion_bridge::bridge::poll_normal;
use completion_bridge::bridge::poll_stream;
use completion_bridge::bridge::BridgeStep;
use completion_bridge::bridge::PollOutcome;
use completion_bridge::bridge::SuspensionBridge;
use completion_bridge::bridge::STATUS_IN_PROGRESS;
use completion_bridge::endpoint::CallbackKind;
use completion_bridge::endpoint::Endpoint;
use completion_bridge::endpoint::RecvProgress;
use completion_bridge::endpoint::RequestParam;
use completion_bridge::endpoint::SendProgress;
use completion_bridge::error::Error;
use completion_bridge::request::RequestArena;

#[test]
fn get_handle_of_connected_endpoint() {
    let ep = Endpoint::connected(42);
    assert_eq!(ep.get_handle(), Ok(42));
}

#[test]
fn get_handle_of_unconnected_endpoint() {
    let ep = Endpoint::unconnected();
    assert_eq!(ep.get_handle(), Err(Error::NotConnected));
}

#[test]
fn default_param_installs_no_callback() {
    let p = RequestParam::default();
    assert_eq!(p.callback, CallbackKind::Unset);
}

#[test]
fn send_selects_operation_complete_callback() {
    let ep = Endpoint::connected(42);
    let sub = ep.stream_send(&[1, 2, 3]).expect("endpoint is connected");
    assert_eq!(sub.handle, 42);
    assert_eq!(sub.len, 3);
    assert_eq!(sub.param.callback, CallbackKind::OperationComplete);
}

#[test]
fn recv_selects_stream_recv_complete_callback() {
    let ep = Endpoint::connected(42);
    let sub = ep.stream_recv(256).expect("endpoint is connected");
    assert_eq!(sub.handle, 42);
    assert_eq!(sub.capacity, 256);
    assert_eq!(sub.param.callback, CallbackKind::StreamRecvComplete);
}

#[test]
fn unconnected_send_fails_before_submission() {
    let ep = Endpoint::unconnected();
    assert!(matches!(
        ep.stream_send(&[0; 16]),
        Err(Error::NotConnected)
    ));
}

#[test]
fn unconnected_recv_fails_before_submission() {
    let ep = Endpoint::unconnected();
    assert!(matches!(ep.stream_recv(64), Err(Error::NotConnected)));
}

#[test]
fn send_immediate_returns_byte_count() {
    let ep = Endpoint::connected(1);
    let buf = [7u8; 1024];
    let sub = ep.stream_send(&buf).expect("endpoint is connected");
    match sub.submitted(0) {
        SendProgress::Complete(r) => assert_eq!(r, Ok(1024)),
        SendProgress::Awaiting(_) => panic!("immediate completion must not suspend"),
    }
}

#[test]
fn recv_immediate_returns_reported_length() {
    let ep = Endpoint::connected(1);
    let sub = ep.stream_recv(256).expect("endpoint is connected");
    match sub.submitted(0, 200) {
        RecvProgress::Complete(r) => assert_eq!(r, Ok(200)),
        RecvProgress::Awaiting(_) => panic!("immediate completion must not suspend"),
    }
}

#[test]
fn send_error_word_is_classified_exactly() {
    let ep = Endpoint::connected(1);
    let sub = ep.stream_send(&[0; 8]).expect("endpoint is connected");
    // the all-ones word is the image of status code -1
    match sub.submitted(u64::MAX) {
        SendProgress::Complete(r) => assert_eq!(r, Err(Error::Transport(1))),
        SendProgress::Awaiting(_) => panic!("a failed submission is never pending"),
    }
}

#[test]
fn recv_error_word_is_classified_exactly() {
    let ep = Endpoint::connected(1);
    let sub = ep.stream_recv(256).expect("endpoint is connected");
    match sub.submitted(u64::MAX - 4, 0) {
        RecvProgress::Complete(r) => assert_eq!(r, Err(Error::Transport(5))),
        RecvProgress::Awaiting(_) => panic!("a failed submission is never pending"),
    }
}

#[test]
fn error_word_creates_no_request() {
    let ep = Endpoint::connected(1);
    let mut arena = RequestArena::new();
    let sub = ep.stream_send(&[0; 8]).expect("endpoint is connected");
    let progress = sub.submitted(u64::MAX);
    assert!(matches!(progress, SendProgress::Complete(Err(_))));
    // the failing path never touched the arena: nothing was allocated
    assert_eq!(arena.slot_count(), 0);
    assert_eq!(arena.complete(0, None), None);
}

#[test]
fn poll_normal_reports_ready_when_not_in_progress() {
    assert!(!poll_normal(STATUS_IN_PROGRESS));
    assert!(poll_normal(0));
    assert!(poll_normal(-3));
}

#[test]
fn poll_stream_extracts_length_when_done() {
    assert_eq!(poll_stream(STATUS_IN_PROGRESS, 88), PollOutcome::Pending);
    assert_eq!(poll_stream(0, 88), PollOutcome::Ready(88));
}

#[test]
fn still_pending_poll_keeps_task_suspended() {
    let mut bridge = SuspensionBridge::attach(0x2000);
    assert_eq!(bridge.on_poll(PollOutcome::Pending), BridgeStep::Suspended);
    assert_eq!(bridge.on_poll(PollOutcome::Pending), BridgeStep::Suspended);
    assert_eq!(bridge.resolved, None);
    assert_eq!(bridge.handle, 0x2000);
}

#[test]
fn pending_send_resolves_after_callback() {
    // endpoint connected, send 1024 bytes, the native layer reports
    // pending, the progress pump fires the completion callback, and the
    // send resolves to the full byte count
    let ep = Endpoint::connected(3);
    let mut arena = RequestArena::new();
    let buf = [0u8; 1024];
    let sub = ep.stream_send(&buf).expect("endpoint is connected");
    let mut awaiting = match sub.submitted(0x4000) {
        SendProgress::Awaiting(a) => a,
        SendProgress::Complete(_) => panic!("a handle word leaves the send pending"),
    };
    assert_eq!(awaiting.bridge.handle, 0x4000);
    awaiting.suspend(&mut arena, 77);
    let slot = awaiting.bridge.slot.expect("suspension attached a slot");
    // the progress pump drains one event: the callback fires and hands
    // back the resume handle of the suspended task
    assert_eq!(arena.complete(slot, None), Some(77));
    // the resumed task polls: the request is no longer in progress
    assert_eq!(awaiting.on_poll(0), BridgeStep::Resolved(1024));
    arena.release(slot);
}

#[test]
fn pending_send_stays_suspended_while_in_progress() {
    let ep = Endpoint::connected(3);
    let sub = ep.stream_send(&[0u8; 32]).expect("endpoint is connected");
    let mut awaiting = match sub.submitted(0x4000) {
        SendProgress::Awaiting(a) => a,
        SendProgress::Complete(_) => panic!("a handle word leaves the send pending"),
    };
    assert_eq!(awaiting.on_poll(STATUS_IN_PROGRESS), BridgeStep::Suspended);
    assert_eq!(awaiting.bridge.resolved, None);
    assert_eq!(awaiting.on_poll(0), BridgeStep::Resolved(32));
}

#[test]
fn pending_recv_resolves_on_second_poll() {
    // endpoint connected, receive into a 256-byte buffer, the native
    // layer reports pending, the first poll still finds the request in
    // progress, the second finds it done with 200 bytes received
    let ep = Endpoint::connected(5);
    let mut arena = RequestArena::new();
    let sub = ep.stream_recv(256).expect("endpoint is connected");
    let mut awaiting = match sub.submitted(0x8000, 0) {
        RecvProgress::Awaiting(a) => a,
        RecvProgress::Complete(_) => panic!("a handle word leaves the receive pending"),
    };
    assert_eq!(awaiting.capacity, 256);
    awaiting.suspend(&mut arena, 13);
    assert_eq!(awaiting.on_poll(STATUS_IN_PROGRESS, 0), BridgeStep::Suspended);
    assert_eq!(awaiting.bridge.resolved, None);
    assert_eq!(awaiting.on_poll(0, 200), BridgeStep::Resolved(200));
}

#[test]
fn send_of_empty_buffer_completes_with_zero() {
    let ep = Endpoint::connected(1);
    let sub = ep.stream_send(&[]).expect("endpoint is connected");
    assert_eq!(sub.len, 0);
    match sub.submitted(0) {
        SendProgress::Complete(r) => assert_eq!(r, Ok(0)),
        SendProgress::Awaiting(_) => panic!("immediate completion must not suspend"),
    }
}
