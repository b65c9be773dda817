//! The dispatcher observed at runtime: classification of text payloads and
//! the routing decision for each kind of frame.

use tokio::sync::broadcast::error::TryRecvError;
use tokio::sync::broadcast;
use ws_relay::dispatch::{classify_text, dispatch_frame, TextClass};
use ws_relay::frame::Frame;
use ws_relay::registry::Registry;

#[test]
fn classify_recognises_a_register_frame() {
    let c = classify_text(&r#"{"type":"register","connectionId":"abc"}"#.to_string());
    assert_eq!(c, TextClass::Register("abc".to_string()));
}

#[test]
fn classify_register_without_alias_field() {
    let c = classify_text(&r#"{"type":"register"}"#.to_string());
    assert_eq!(c, TextClass::RegisterNoId);
    let c = classify_text(&r#"{"type":"register","connectionId":7}"#.to_string());
    assert_eq!(c, TextClass::RegisterNoId);
}

#[test]
fn classify_recognises_a_targeted_frame() {
    let c = classify_text(&r#"{"target_id":"peer","sdp":"blob"}"#.to_string());
    assert_eq!(c, TextClass::Targeted("peer".to_string()));
}

#[test]
fn classify_non_string_type_field_is_not_a_register() {
    let c = classify_text(&r#"{"type":17,"target_id":"z"}"#.to_string());
    assert_eq!(c, TextClass::Targeted("z".to_string()));
}

#[test]
fn classify_passes_over_everything_else() {
    assert_eq!(classify_text(&"not json at all".to_string()), TextClass::Plain);
    assert_eq!(classify_text(&r#"{"hello":"world"}"#.to_string()), TextClass::Plain);
    assert_eq!(classify_text(&r#"[1,2,3]"#.to_string()), TextClass::Plain);
    assert_eq!(classify_text(&r#"{"connectionId":"q"}"#.to_string()), TextClass::Plain);
}

#[test]
fn targeted_text_to_unknown_id_is_silently_dropped() {
    let mut reg = Registry::new();
    let mut target: Option<String> = None;
    let (own, _inbox) = broadcast::channel::<Frame>(8);
    let r = dispatch_frame(
        &mut reg,
        &mut target,
        &own,
        Frame::Text(r#"{"target_id":"ghost","x":1}"#.to_string()),
    );
    assert!(!r.stop);
    assert_eq!(r.published_to, None);
    // the destination is still recorded as the target binding
    assert_eq!(target, Some("ghost".to_string()));
}

#[test]
fn binary_before_any_target_is_silently_dropped() {
    let mut reg = Registry::new();
    let mut target: Option<String> = None;
    let (own, _own_inbox) = broadcast::channel::<Frame>(8);
    let (peer, mut peer_inbox) = broadcast::channel::<Frame>(8);
    reg.register("peer".to_string(), peer);
    let r = dispatch_frame(&mut reg, &mut target, &own, Frame::Binary(vec![9, 9]));
    assert!(!r.stop);
    assert_eq!(r.published_to, None);
    assert_eq!(target, None);
    assert_eq!(peer_inbox.try_recv(), Err(TryRecvError::Empty));
}

#[test]
fn binary_to_a_bound_but_dead_target_is_silently_dropped() {
    let mut reg = Registry::new();
    let mut target: Option<String> = Some("ghost".to_string());
    let (own, _inbox) = broadcast::channel::<Frame>(8);
    let r = dispatch_frame(&mut reg, &mut target, &own, Frame::Binary(vec![1]));
    assert!(!r.stop);
    assert_eq!(r.published_to, None);
}

#[test]
fn retarget_routes_binaries_only_to_the_new_target() {
    let mut reg = Registry::new();
    let (a_tx, mut a_inbox) = broadcast::channel::<Frame>(8);
    let (b_tx, mut b_inbox) = broadcast::channel::<Frame>(8);
    reg.register("a".to_string(), a_tx);
    reg.register("b".to_string(), b_tx);

    let mut target: Option<String> = None;
    let (own, _own_inbox) = broadcast::channel::<Frame>(8);
    let first = r#"{"target_id":"a"}"#.to_string();
    let second = r#"{"target_id":"b"}"#.to_string();
    let r1 = dispatch_frame(&mut reg, &mut target, &own, Frame::Text(first.clone()));
    assert_eq!(r1.published_to, Some("a".to_string()));
    let r2 = dispatch_frame(&mut reg, &mut target, &own, Frame::Text(second.clone()));
    assert_eq!(r2.published_to, Some("b".to_string()));
    let r3 = dispatch_frame(&mut reg, &mut target, &own, Frame::Binary(vec![5, 6, 7]));
    assert_eq!(r3.published_to, Some("b".to_string()));

    // a saw only the first targeted text, never the binary
    assert_eq!(a_inbox.try_recv().unwrap(), Frame::Text(first));
    assert_eq!(a_inbox.try_recv(), Err(TryRecvError::Empty));
    // b saw the second targeted text, then the binary
    assert_eq!(b_inbox.try_recv().unwrap(), Frame::Text(second));
    assert_eq!(b_inbox.try_recv().unwrap(), Frame::Binary(vec![5, 6, 7]));
}

#[test]
fn register_frame_adds_alias_and_is_not_relayed() {
    let mut reg = Registry::new();
    let mut target: Option<String> = None;
    let (own, mut own_inbox) = broadcast::channel::<Frame>(8);
    let r = dispatch_frame(
        &mut reg,
        &mut target,
        &own,
        Frame::Text(r#"{"type":"register","connectionId":"me"}"#.to_string()),
    );
    assert!(!r.stop);
    assert_eq!(r.published_to, None);
    let found = reg.lookup(&"me".to_string()).expect("alias was registered");
    found.send(Frame::Close).unwrap();
    assert_eq!(own_inbox.try_recv().unwrap(), Frame::Close);
}

#[test]
fn ping_and_pong_are_ignored() {
    let mut reg = Registry::new();
    let mut target: Option<String> = None;
    let (own, _inbox) = broadcast::channel::<Frame>(8);
    let r = dispatch_frame(&mut reg, &mut target, &own, Frame::Ping(vec![]));
    assert!(!r.stop);
    assert_eq!(r.published_to, None);
    let r = dispatch_frame(&mut reg, &mut target, &own, Frame::Pong(vec![1]));
    assert!(!r.stop);
    assert_eq!(r.published_to, None);
}

#[test]
fn close_frame_stops_the_session() {
    let mut reg = Registry::new();
    let mut target: Option<String> = None;
    let (own, _inbox) = broadcast::channel::<Frame>(8);
    let r = dispatch_frame(&mut reg, &mut target, &own, Frame::Close);
    assert!(r.stop);
    assert_eq!(r.published_to, None);
}
