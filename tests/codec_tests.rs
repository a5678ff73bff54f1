use rtds_client::codec::{
    classify, decode_frame, detect_price_shape, price_shape, PriceShape, encode_envelope, encode_subscription, ControlAction, DecodeError,
    FrameKind,
};
use rtds_client::model::{
    ClobApiKeyCreds, GammaAuth, MessageType, Subscription, SubscriptionFilter,
    SubscriptionMessage, Topic,
};

#[test]
fn encodes_bare_subscription() {
    let s = Subscription::new(Topic::Activity, MessageType::Trades);
    assert_eq!(encode_subscription(&s), r#"{"topic":"activity","type":"trades"}"#);
}

#[test]
fn encodes_subscription_with_filter_and_credentials() {
    let s = Subscription::new(Topic::ClobUser, MessageType::All)
        .with_filter(SubscriptionFilter::symbol("btcusdt"))
        .unwrap()
        .with_clob_auth(ClobApiKeyCreds {
            key: "k1".to_string(),
            secret: "s1".to_string(),
            passphrase: "p1".to_string(),
        })
        .with_gamma_auth(GammaAuth { address: "0x1".to_string() });
    assert_eq!(
        encode_subscription(&s),
        [
            r#"{"topic":"clob_user","type":"*","filters":"{\"symbol\":\"btcusdt\"}","#,
            r#""clob_auth":{"key":"k1","secret":"s1","passphrase":"p1"},"#,
            r#""gamma_auth":{"address":"0x1"}}"#,
        ]
        .concat()
    );
}

#[test]
fn encodes_envelopes() {
    let subs = vec![
        Subscription::new(Topic::Activity, MessageType::Trades),
        Subscription::new(Topic::CryptoPrices, MessageType::Update),
    ];
    assert_eq!(
        encode_envelope(ControlAction::Subscribe, &subs),
        [
            r#"{"action":"subscribe","subscriptions":["#,
            r#"{"topic":"activity","type":"trades"},"#,
            r#"{"topic":"crypto_prices","type":"update"}]}"#,
        ]
        .concat()
    );
    let msg = SubscriptionMessage { subscriptions: vec![] };
    assert_eq!(
        msg.encode(ControlAction::Unsubscribe),
        r#"{"action":"unsubscribe","subscriptions":[]}"#
    );
}

#[test]
fn acknowledgement_echo_recovers_tokens() {
    let s = Subscription::new(Topic::Activity, MessageType::OrdersMatched);
    let wire = encode_subscription(&s);
    let ack = format!(
        r#"{{"topic":"{}","type":"{}","timestamp":1,"payload":{{}},"connection_id":"c"}}"#,
        s.topic.as_str(),
        s.subscription_type.as_str()
    );
    assert!(wire.contains(r#""topic":"activity""#));
    let f = decode_frame(&ack).unwrap();
    assert!(matches!(f.kind, FrameKind::Known(MessageType::OrdersMatched)));
    assert_eq!(Topic::from_token(s.topic.as_str()), Some(Topic::Activity));
}

#[test]
fn unknown_type_is_unrecognized() {
    let f = decode_frame(r#"{"type":"brand_new_kind","x":1}"#).unwrap();
    match f.kind {
        FrameKind::Unrecognized(raw) => assert_eq!(raw, "brand_new_kind"),
        other => panic!("unexpected {:?}", other),
    }
    assert_eq!(f.body, r#"{"type":"brand_new_kind","x":1}"#);
    match classify("*") {
        FrameKind::Unrecognized(raw) => assert_eq!(raw, "*"),
        other => panic!("unexpected {:?}", other),
    }
    assert!(matches!(classify("trade"), FrameKind::Known(MessageType::Trade)));
}

#[test]
fn field_order_and_extra_fields_do_not_matter() {
    let f = decode_frame(r#"{"extra":[1,2],"symbol":"X","type":"update","more":{"a":null}}"#)
        .unwrap();
    assert!(matches!(f.kind, FrameKind::Known(MessageType::Update)));
}

#[test]
fn malformed_and_untyped_frames_are_errors() {
    assert!(matches!(decode_frame("{not json"), Err(DecodeError::Malformed(_))));
    assert!(matches!(decode_frame(""), Err(DecodeError::Malformed(_))));
    assert!(matches!(decode_frame(r#"{"symbol":"X"}"#), Err(DecodeError::MissingType)));
    assert!(matches!(decode_frame(r#"{"type":5}"#), Err(DecodeError::MissingType)));
    assert!(matches!(decode_frame("[1,2]"), Err(DecodeError::MissingType)));
}

#[test]
fn price_shape_prefers_live_values() {
    assert_eq!(price_shape(true, true, true), Some(PriceShape::Live));
    assert_eq!(price_shape(true, false, true), Some(PriceShape::Series));
    assert_eq!(price_shape(false, true, true), None);
    assert_eq!(price_shape(true, false, false), None);
}

#[test]
fn detects_price_shapes_in_frames() {
    let live = r#"{"type":"update","symbol":"BTCUSDT","timestamp":1000,"value":50000.0}"#;
    assert_eq!(detect_price_shape(live).unwrap(), Some(PriceShape::Live));
    let series = r#"{"type":"update","symbol":"AAPL","data":[{"timestamp":1,"value":2.5}]}"#;
    assert_eq!(detect_price_shape(series).unwrap(), Some(PriceShape::Series));
    let neither = r#"{"type":"update","symbol":"AAPL","value":"12"}"#;
    assert_eq!(detect_price_shape(neither).unwrap(), None);
    assert!(matches!(detect_price_shape("{"), Err(DecodeError::Malformed(_))));
}
