use rtds_client::model::text_eq;
use rtds_client::registry::Registry;
use rtds_client::model::{
    ClobApiKeyCreds, GammaAuth, MessageType, Subscription, SubscriptionFilter, Topic,
};

#[test]
fn topic_tokens_round_trip() {
    let all = [
        Topic::Activity,
        Topic::Comments,
        Topic::Rfq,
        Topic::CryptoPrices,
        Topic::CryptoPricesChainlink,
        Topic::EquityPrices,
        Topic::ClobUser,
        Topic::ClobMarket,
    ];
    for t in all {
        assert_eq!(Topic::from_token(t.as_str()), Some(t));
    }
    assert_eq!(Topic::CryptoPrices.as_str(), "crypto_prices");
    assert_eq!(Topic::CryptoPricesChainlink.as_str(), "crypto_prices_chainlink");
    assert_eq!(Topic::from_token("crypto"), None);
    assert_eq!(Topic::from_token(""), None);
}

#[test]
fn message_type_tokens_round_trip() {
    let all = [
        MessageType::All,
        MessageType::Trades,
        MessageType::OrdersMatched,
        MessageType::CommentCreated,
        MessageType::CommentRemoved,
        MessageType::ReactionCreated,
        MessageType::ReactionRemoved,
        MessageType::RequestCreated,
        MessageType::RequestEdited,
        MessageType::RequestCanceled,
        MessageType::RequestExpired,
        MessageType::QuoteCreated,
        MessageType::QuoteEdited,
        MessageType::QuoteCanceled,
        MessageType::QuoteExpired,
        MessageType::Update,
        MessageType::Order,
        MessageType::Trade,
        MessageType::PriceChange,
        MessageType::AggOrderbook,
        MessageType::LastTradePrice,
        MessageType::TickSizeChange,
        MessageType::MarketCreated,
        MessageType::MarketResolved,
    ];
    for k in all {
        assert_eq!(MessageType::from_token(k.as_str()), Some(k));
    }
    assert_eq!(MessageType::All.as_str(), "*");
    assert_eq!(MessageType::TickSizeChange.as_str(), "tick_size_change");
    assert_eq!(MessageType::from_token("Trades"), None);
}

#[test]
fn filter_json_shapes() {
    assert_eq!(
        SubscriptionFilter::event_slug("fed-decision").to_json_string().unwrap(),
        r#"{"event_slug":"fed-decision"}"#
    );
    assert_eq!(
        SubscriptionFilter::market_slug("btc-up").to_json_string().unwrap(),
        r#"{"market_slug":"btc-up"}"#
    );
    assert_eq!(
        SubscriptionFilter::parent_entity(100, "Event").to_json_string().unwrap(),
        r#"{"parentEntityID":100,"parentEntityType":"Event"}"#
    );
    assert_eq!(
        SubscriptionFilter::symbol("btcusdt").to_json_string().unwrap(),
        r#"{"symbol":"btcusdt"}"#
    );
    assert_eq!(
        SubscriptionFilter::token_ids(vec!["1".to_string(), "22".to_string()])
            .to_json_string()
            .unwrap(),
        r#"["1","22"]"#
    );
    assert_eq!(
        SubscriptionFilter::token_ids(vec![]).to_json_string().unwrap(),
        "[]"
    );
}

#[test]
fn filter_json_escapes_and_large_ids() {
    assert_eq!(
        SubscriptionFilter::symbol("a\"b\\c").to_json_string().unwrap(),
        r#"{"symbol":"a\"b\\c"}"#
    );
    assert_eq!(
        SubscriptionFilter::parent_entity(u64::MAX, "Series").to_json_string().unwrap(),
        r#"{"parentEntityID":18446744073709551615,"parentEntityType":"Series"}"#
    );
    assert_eq!(
        SubscriptionFilter::parent_entity(0, "").to_json_string().unwrap(),
        r#"{"parentEntityID":0,"parentEntityType":""}"#
    );
}

#[test]
fn subscription_builders() {
    let s = Subscription::new(Topic::Comments, MessageType::CommentCreated);
    assert!(s.filters.is_none() && s.clob_auth.is_none() && s.gamma_auth.is_none());
    let s = s
        .with_filter(SubscriptionFilter::parent_entity(7, "Event"))
        .unwrap()
        .with_gamma_auth(GammaAuth { address: "0xabc".to_string() })
        .with_clob_auth(ClobApiKeyCreds {
            key: "k".to_string(),
            secret: "s".to_string(),
            passphrase: "p".to_string(),
        });
    assert_eq!(
        s.filters.as_deref(),
        Some(r#"{"parentEntityID":7,"parentEntityType":"Event"}"#)
    );
    assert_eq!(s.gamma_auth.as_ref().unwrap().address, "0xabc");
    assert_eq!(s.clob_auth.as_ref().unwrap().passphrase, "p");
    let s = s.with_raw_filter("{}".to_string());
    assert_eq!(s.filters.as_deref(), Some("{}"));
    let c = s.cloned();
    assert_eq!(c.topic, Topic::Comments);
    assert_eq!(c.filters.as_deref(), Some("{}"));
}

#[test]
fn text_equality() {
    assert!(text_eq("", ""));
    assert!(text_eq("héllo", "héllo"));
    assert!(!text_eq("abc", "abd"));
    assert!(!text_eq("abc", "ab"));
}

#[test]
fn registry_position_and_entries() {
    let mut r = Registry::new();
    r.add(vec![
        Subscription::new(Topic::Rfq, MessageType::RequestCreated),
        Subscription::new(Topic::Rfq, MessageType::QuoteCreated),
    ]);
    assert_eq!(r.position(Topic::Rfq, MessageType::QuoteCreated), Some(1));
    assert_eq!(r.position(Topic::Rfq, MessageType::QuoteExpired), None);
    assert_eq!(r.entry(0).subscription_type, MessageType::RequestCreated);
}
