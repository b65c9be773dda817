//! The inbound-relay decision observed at runtime: forward every frame,
//! survive a gap, stop only on closure.

use ws_relay::frame::Frame;
use ws_relay::relay::{relay_step, RelayAction, RelayEvent};

#[test]
fn received_frames_are_forwarded_unchanged() {
    let text = Frame::Text("payload".to_string());
    assert_eq!(
        relay_step(RelayEvent::Frame(text.clone())),
        RelayAction::Forward(text)
    );
    let binary = Frame::Binary(vec![1, 2, 3]);
    assert_eq!(
        relay_step(RelayEvent::Frame(binary.clone())),
        RelayAction::Forward(binary)
    );
}

#[test]
fn a_lag_is_not_fatal_to_the_session() {
    assert_eq!(relay_step(RelayEvent::Lagged(17)), RelayAction::Skip);
    assert_eq!(relay_step(RelayEvent::Lagged(0)), RelayAction::Skip);
}

#[test]
fn a_closed_handle_stops_the_relay() {
    assert_eq!(relay_step(RelayEvent::Closed), RelayAction::Stop);
}
