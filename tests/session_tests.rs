use rtds_client::codec::{encode_envelope, ControlAction, DecodeError, FrameKind};
use rtds_client::model::{ConnectionStatus, MessageType, Subscription, Topic};
use rtds_client::session::{BoundedQueue, Received, Session};

fn connected(auto: bool) -> Session {
    let mut s = Session::new(auto, 8);
    assert!(s.connect());
    assert!(s.handshake_succeeded().is_empty());
    s
}

#[test]
fn connect_only_from_disconnected() {
    let mut s = Session::new(false, 4);
    assert_eq!(s.status(), ConnectionStatus::Disconnected);
    assert!(s.connect());
    assert_eq!(s.status(), ConnectionStatus::Connecting);
    assert!(!s.connect());
    s.handshake_failed();
    assert_eq!(s.status(), ConnectionStatus::Disconnected);
    assert!(!s.backoff_elapsed());
}

#[test]
fn subscribe_while_disconnected_is_queued_for_replay() {
    let mut s = Session::new(false, 4);
    let sub = Subscription::new(Topic::CryptoPrices, MessageType::Update);
    assert_eq!(s.subscribe(vec![sub]), None);
    assert_eq!(s.registry().len(), 1);
    assert!(s.connect());
    let replay = s.handshake_succeeded();
    assert_eq!(
        replay,
        vec![r#"{"action":"subscribe","subscriptions":[{"topic":"crypto_prices","type":"update"}]}"#
            .to_string()]
    );
}

#[test]
fn subscribe_while_connected_sends_now() {
    let mut s = connected(false);
    let subs = vec![Subscription::new(Topic::Activity, MessageType::Trades)];
    let expected = encode_envelope(ControlAction::Subscribe, &subs);
    assert_eq!(s.subscribe(subs), Some(expected));
    let out = s.unsubscribe(vec![Subscription::new(Topic::Activity, MessageType::Trades)]);
    assert_eq!(
        out.as_deref(),
        Some(r#"{"action":"unsubscribe","subscriptions":[{"topic":"activity","type":"trades"}]}"#)
    );
    assert_eq!(s.registry().len(), 0);
}

#[test]
fn unsubscribe_never_subscribed_is_noop() {
    let mut s = Session::new(false, 4);
    assert_eq!(s.unsubscribe(vec![Subscription::new(Topic::Activity, MessageType::Trades)]), None);
    assert!(s.registry().is_empty());
}

#[test]
fn reconnect_replays_two_subscriptions_in_order() {
    let mut s = connected(true);
    s.subscribe(vec![Subscription::new(Topic::Comments, MessageType::CommentCreated)]);
    s.subscribe(vec![Subscription::new(Topic::Activity, MessageType::Trades)]);
    assert!(s.connection_lost());
    assert_eq!(s.status(), ConnectionStatus::Disconnected);
    assert!(matches!(s.recv(), Received::Wait));
    assert!(s.backoff_elapsed());
    assert_eq!(s.status(), ConnectionStatus::Connecting);
    let replay = s.handshake_succeeded();
    assert_eq!(
        replay,
        vec![
            r#"{"action":"subscribe","subscriptions":[{"topic":"comments","type":"comment_created"}]}"#
                .to_string(),
            r#"{"action":"subscribe","subscriptions":[{"topic":"activity","type":"trades"}]}"#
                .to_string(),
        ]
    );
    assert_eq!(s.status(), ConnectionStatus::Connected);
}

#[test]
fn lost_connection_without_auto_reconnect_stays_down() {
    let mut s = connected(false);
    assert!(!s.connection_lost());
    assert!(!s.backoff_elapsed());
    assert_eq!(s.status(), ConnectionStatus::Disconnected);
    assert!(matches!(s.recv(), Received::End));
}

#[test]
fn frames_are_received_in_arrival_order() {
    let mut s = connected(false);
    assert!(s.on_frame(r#"{"type":"trades","n":1}"#).is_ok());
    assert!(s.on_frame("garbage").is_ok());
    assert!(s.on_frame(r#"{"type":"mystery"}"#).is_ok());
    assert!(s.on_frame(r#"{"n":4}"#).is_ok());
    match s.recv() {
        Received::Item(Ok(f)) => {
            assert!(matches!(f.kind, FrameKind::Known(MessageType::Trades)));
            assert_eq!(f.body, r#"{"type":"trades","n":1}"#);
        }
        _ => panic!("expected the first frame"),
    }
    assert!(matches!(s.recv(), Received::Item(Err(DecodeError::Malformed(_)))));
    match s.recv() {
        Received::Item(Ok(f)) => {
            assert!(matches!(f.kind, FrameKind::Unrecognized(ref t) if t == "mystery"))
        }
        _ => panic!("expected the third frame"),
    }
    assert!(matches!(s.recv(), Received::Item(Err(DecodeError::MissingType))));
    assert!(matches!(s.recv(), Received::Wait));
}

#[test]
fn price_update_frame_reaches_receiver() {
    let mut s = connected(false);
    let out = s.subscribe(vec![Subscription::new(Topic::CryptoPrices, MessageType::Update)]);
    assert!(out.is_some());
    let raw = r#"{"type":"update","symbol":"BTCUSDT","timestamp":1000,"value":50000.0}"#;
    assert!(s.on_frame(raw).is_ok());
    match s.recv() {
        Received::Item(Ok(f)) => {
            assert!(matches!(f.kind, FrameKind::Known(MessageType::Update)));
            assert_eq!(f.body, raw);
        }
        _ => panic!("expected the price update"),
    }
}

#[test]
fn full_inbox_hands_items_back() {
    let mut s = Session::new(false, 2);
    assert!(s.on_frame(r#"{"type":"a"}"#).is_ok());
    assert!(s.on_frame(r#"{"type":"b"}"#).is_ok());
    let back = s.on_frame(r#"{"type":"c"}"#).unwrap_err();
    assert!(matches!(back, Ok(ref f) if f.body == r#"{"type":"c"}"#));
    assert!(matches!(s.recv(), Received::Item(Ok(_))));
    assert!(s.deliver(back).is_ok());
}

#[test]
fn disconnect_is_idempotent_and_drains_before_end() {
    let mut s = connected(true);
    assert!(s.on_frame(r#"{"type":"order"}"#).is_ok());
    assert!(s.disconnect());
    assert!(!s.disconnect());
    assert!(!s.connection_lost());
    assert!(!s.backoff_elapsed());
    assert!(matches!(s.recv(), Received::Item(Ok(_))));
    assert!(matches!(s.recv(), Received::End));
    assert!(matches!(s.recv(), Received::End));
}

#[test]
fn bounded_queue_is_first_in_first_out() {
    let mut q = BoundedQueue::new(2);
    assert_eq!(q.capacity(), 2);
    assert_eq!(q.offer(1u32), Ok(()));
    assert_eq!(q.offer(2u32), Ok(()));
    assert_eq!(q.offer(3u32), Err(3));
    assert_eq!(q.len(), 2);
    assert_eq!(q.take(), Some(1));
    assert_eq!(q.offer(3u32), Ok(()));
    assert_eq!(q.take(), Some(2));
    assert_eq!(q.take(), Some(3));
    assert_eq!(q.take(), None);
}
