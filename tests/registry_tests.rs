use rtds_client::model::{MessageType, Subscription, Topic};
use rtds_client::registry::Registry;

fn keys(r: &Registry) -> Vec<(Topic, MessageType, Option<String>)> {
    r.snapshot()
        .into_iter()
        .map(|s| (s.topic, s.subscription_type, s.filters))
        .collect()
}

fn sub(t: Topic, k: MessageType, f: &str) -> Subscription {
    Subscription::new(t, k).with_raw_filter(f.to_string())
}

#[test]
fn later_subscribe_overwrites_in_place() {
    let mut r = Registry::new();
    r.add(vec![
        sub(Topic::Activity, MessageType::Trades, "a"),
        sub(Topic::Comments, MessageType::CommentCreated, "b"),
    ]);
    r.add(vec![sub(Topic::Activity, MessageType::Trades, "c")]);
    assert_eq!(
        keys(&r),
        vec![
            (Topic::Activity, MessageType::Trades, Some("c".to_string())),
            (Topic::Comments, MessageType::CommentCreated, Some("b".to_string())),
        ]
    );
}

#[test]
fn remove_ignores_filter() {
    let mut r = Registry::new();
    r.add(vec![sub(Topic::Activity, MessageType::Trades, "a")]);
    r.remove(&vec![sub(Topic::Activity, MessageType::Trades, "other")]);
    assert!(r.is_empty());
}

#[test]
fn unsubscribe_without_subscribe_is_noop() {
    let mut r = Registry::new();
    r.remove(&vec![Subscription::new(Topic::Activity, MessageType::Trades)]);
    assert_eq!(r.len(), 0);
    r.add(vec![sub(Topic::Rfq, MessageType::QuoteCreated, "q")]);
    r.remove(&vec![Subscription::new(Topic::Activity, MessageType::Trades)]);
    assert_eq!(keys(&r), vec![(Topic::Rfq, MessageType::QuoteCreated, Some("q".to_string()))]);
}

#[test]
fn sequence_keeps_last_subscribed_keys() {
    let mut r = Registry::new();
    r.add(vec![sub(Topic::Activity, MessageType::Trades, "1")]);
    r.add(vec![sub(Topic::CryptoPrices, MessageType::Update, "2")]);
    r.remove(&vec![Subscription::new(Topic::Activity, MessageType::Trades)]);
    r.add(vec![sub(Topic::EquityPrices, MessageType::Update, "3")]);
    r.add(vec![sub(Topic::Activity, MessageType::Trades, "4")]);
    r.add(vec![sub(Topic::CryptoPrices, MessageType::Update, "5")]);
    r.remove(&vec![Subscription::new(Topic::EquityPrices, MessageType::Update)]);
    assert_eq!(
        keys(&r),
        vec![
            (Topic::CryptoPrices, MessageType::Update, Some("5".to_string())),
            (Topic::Activity, MessageType::Trades, Some("4".to_string())),
        ]
    );
}

#[test]
fn duplicate_keys_in_one_batch_keep_the_last() {
    let mut r = Registry::new();
    r.add(vec![
        sub(Topic::ClobMarket, MessageType::PriceChange, "x"),
        sub(Topic::ClobMarket, MessageType::PriceChange, "y"),
    ]);
    assert_eq!(
        keys(&r),
        vec![(Topic::ClobMarket, MessageType::PriceChange, Some("y".to_string()))]
    );
}

#[test]
fn replaying_snapshot_twice_is_same_as_once() {
    let mut client = Registry::new();
    client.add(vec![
        sub(Topic::Activity, MessageType::Trades, "a"),
        sub(Topic::Comments, MessageType::All, "b"),
    ]);
    let mut server = Registry::new();
    server.add(vec![sub(Topic::Comments, MessageType::All, "old")]);
    server.add(client.snapshot());
    let once = keys(&server);
    server.add(client.snapshot());
    assert_eq!(keys(&server), once);
    assert_eq!(once.len(), 2);
}
