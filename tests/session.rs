use agentx::broadcaster::Delivery;
use agentx::events::BroadcastMessage;
use agentx::session::{connected_notice, InboundFrame, Session, SessionAction, SessionEvent};
use agentx::task::Timestamp;

fn msg() -> BroadcastMessage {
    BroadcastMessage::Error { timestamp: Timestamp { millis: 1 }, message: String::from("m"), details: None }
}

#[test]
fn relays_events_and_skips_lag() {
    let mut s = Session::new();
    assert!(matches!(s.handle(SessionEvent::Relay(Delivery::Message(msg()))), SessionAction::Send(_)));
    assert!(matches!(s.handle(SessionEvent::Relay(Delivery::Lagged(3))), SessionAction::Ignore));
    assert!(matches!(s.handle(SessionEvent::Relay(Delivery::Empty)), SessionAction::AwaitEvent));
    assert!(matches!(s.handle(SessionEvent::Inbound(InboundFrame::Ping)), SessionAction::Ignore));
    assert!(matches!(s.handle(SessionEvent::Inbound(InboundFrame::Text(String::from("hi")))), SessionAction::Ignore));
    assert!(s.open);
    assert_eq!(s.forwarded, 1);
    assert_eq!(s.missed, 3);
}

#[test]
fn close_frame_ends_session_for_good() {
    let mut s = Session::new();
    assert!(matches!(s.handle(SessionEvent::Inbound(InboundFrame::Close)), SessionAction::End));
    assert!(!s.open);
    assert!(matches!(s.handle(SessionEvent::Relay(Delivery::Message(msg()))), SessionAction::End));
    assert_eq!(s.forwarded, 0);
}

#[test]
fn send_failure_and_read_error_end_session() {
    let mut s = Session::new();
    assert!(matches!(s.handle(SessionEvent::SendFailed), SessionAction::End));
    let mut s = Session::new();
    assert!(matches!(s.handle(SessionEvent::Inbound(InboundFrame::ReadError)), SessionAction::End));
    let mut s = Session::new();
    assert!(matches!(s.handle(SessionEvent::BroadcasterClosed), SessionAction::End));
}

#[test]
fn connected_notice_text() {
    assert_eq!(connected_notice(), "{\"message\":\"Connected to AgentX server\",\"type\":\"connected\"}");
}
