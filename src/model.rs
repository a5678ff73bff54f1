//! The event model: topics, message kinds, filters, credentials and
//! subscriptions.
use vstd::prelude::*;
use vstd::string::*;

use crate::json::{decimal, json_quoted, push_decimal, push_quoted_array, quote, quoted_array};

verus! {

/// True when two texts hold the same characters.
pub fn text_eq(a: &str, b: &str) -> (r: bool)
    ensures
        r == (a@ == b@),
{
    let n = a.unicode_len();
    if n != b.unicode_len() {
        return false;
    }
    let mut i: usize = 0;
    while i < n
        invariant
            n == a@.len(),
            n == b@.len(),
            i <= n,
            forall|j: int| 0 <= j < i ==> a@[j] == b@[j],
        decreases n - i,
    {
        if a.get_char(i) != b.get_char(i) {
            return false;
        }
        i = i + 1;
    }
    assert(a@ =~= b@);
    true
}

/// A named channel of the streaming service.
#[derive(Debug, Clone, Copy, PartialEq, Eq, Structural)]
pub enum Topic {
    /// Trades and order matches
    Activity,
    /// Comments and reactions
    Comments,
    /// Request for quote
    Rfq,
    /// Crypto price updates
    CryptoPrices,
    /// Crypto price updates from the secondary oracle
    CryptoPricesChainlink,
    /// Equity price updates
    EquityPrices,
    /// Authenticated order-book user updates
    ClobUser,
    /// Order-book market updates
    ClobMarket,
}

impl Topic {
    /// The wire token of the topic.
    pub open spec fn token(self) -> Seq<char> {
        match self {
            Topic::Activity => "activity"@,
            Topic::Comments => "comments"@,
            Topic::Rfq => "rfq"@,
            Topic::CryptoPrices => "crypto_prices"@,
            Topic::CryptoPricesChainlink => "crypto_prices_chainlink"@,
            Topic::EquityPrices => "equity_prices"@,
            Topic::ClobUser => "clob_user"@,
            Topic::ClobMarket => "clob_market"@,
        }
    }

    pub fn as_str(&self) -> (r: &'static str)
        ensures
            r@ == self.token(),
    {
        match self {
            Topic::Activity => "activity",
            Topic::Comments => "comments",
            Topic::Rfq => "rfq",
            Topic::CryptoPrices => "crypto_prices",
            Topic::CryptoPricesChainlink => "crypto_prices_chainlink",
            Topic::EquityPrices => "equity_prices",
            Topic::ClobUser => "clob_user",
            Topic::ClobMarket => "clob_market",
        }
    }

    /// The topic whose wire token is `s`, if any.
    pub open spec fn of_token(s: Seq<char>) -> Option<Topic> {
        if exists|t: Topic| t.token() == s {
            Some(choose|t: Topic| t.token() == s)
        } else {
            None
        }
    }

    /// The topic whose wire token is `s`; `None` for an unknown token.
    pub fn from_token(s: &str) -> (r: Option<Topic>)
        ensures
            r == Topic::of_token(s@),
            match r {
                Some(t) => t.token() == s@,
                None => forall|t: Topic| t.token() != s@,
            },
    {
        let r = if text_eq(s, "activity") {
            Some(Topic::Activity)
        } else if text_eq(s, "comments") {
            Some(Topic::Comments)
        } else if text_eq(s, "rfq") {
            Some(Topic::Rfq)
        } else if text_eq(s, "crypto_prices") {
            Some(Topic::CryptoPrices)
        } else if text_eq(s, "crypto_prices_chainlink") {
            Some(Topic::CryptoPricesChainlink)
        } else if text_eq(s, "equity_prices") {
            Some(Topic::EquityPrices)
        } else if text_eq(s, "clob_user") {
            Some(Topic::ClobUser)
        } else if text_eq(s, "clob_market") {
            Some(Topic::ClobMarket)
        } else {
            None
        };
        proof {
            if let Some(t) = r {
                assert(t.token() == s@);
                let c = choose|c: Topic| c.token() == s@;
                lemma_topic_token_injective(t, c);
            }
        }
        r
    }
}

/// Distinct topics have distinct wire tokens.
pub proof fn lemma_topic_token_injective(a: Topic, b: Topic)
    ensures
        a.token() == b.token() ==> a == b,
{
    reveal_strlit("activity");
    reveal_strlit("comments");
    reveal_strlit("rfq");
    reveal_strlit("crypto_prices");
    reveal_strlit("crypto_prices_chainlink");
    reveal_strlit("equity_prices");
    reveal_strlit("clob_user");
    reveal_strlit("clob_market");
    if a.token() == b.token() && a != b {
        let (x, y) = (a.token(), b.token());
        assert(x.len() == y.len());
        assert(x[0] == y[0]);
        assert(x[x.len() - 1] == y[y.len() - 1]);
        assert(x[5] == y[5]);
    }
}

/// The event sub-type of a topic, plus a wildcard used for subscribing.
#[derive(Debug, Clone, Copy, PartialEq, Eq, Structural)]
pub enum MessageType {
    /// Every kind of the topic (subscribing only)
    All,
    /// Trade activity
    Trades,
    OrdersMatched,
    /// Comment lifecycle
    CommentCreated,
    CommentRemoved,
    ReactionCreated,
    ReactionRemoved,
    /// Request-for-quote lifecycle
    RequestCreated,
    RequestEdited,
    RequestCanceled,
    RequestExpired,
    QuoteCreated,
    QuoteEdited,
    QuoteCanceled,
    QuoteExpired,
    /// Price update
    Update,
    /// Authenticated order update
    Order,
    /// Authenticated trade update
    Trade,
    /// Order-book market events
    PriceChange,
    AggOrderbook,
    LastTradePrice,
    TickSizeChange,
    MarketCreated,
    MarketResolved,
}

impl MessageType {
    /// The wire token of the kind.
    pub open spec fn token(self) -> Seq<char> {
        match self {
            MessageType::All => "*"@,
            MessageType::Trades => "trades"@,
            MessageType::OrdersMatched => "orders_matched"@,
            MessageType::CommentCreated => "comment_created"@,
            MessageType::CommentRemoved => "comment_removed"@,
            MessageType::ReactionCreated => "reaction_created"@,
            MessageType::ReactionRemoved => "reaction_removed"@,
            MessageType::RequestCreated => "request_created"@,
            MessageType::RequestEdited => "request_edited"@,
            MessageType::RequestCanceled => "request_canceled"@,
            MessageType::RequestExpired => "request_expired"@,
            MessageType::QuoteCreated => "quote_created"@,
            MessageType::QuoteEdited => "quote_edited"@,
            MessageType::QuoteCanceled => "quote_canceled"@,
            MessageType::QuoteExpired => "quote_expired"@,
            MessageType::Update => "update"@,
            MessageType::Order => "order"@,
            MessageType::Trade => "trade"@,
            MessageType::PriceChange => "price_change"@,
            MessageType::AggOrderbook => "agg_orderbook"@,
            MessageType::LastTradePrice => "last_trade_price"@,
            MessageType::TickSizeChange => "tick_size_change"@,
            MessageType::MarketCreated => "market_created"@,
            MessageType::MarketResolved => "market_resolved"@,
        }
    }

    pub fn as_str(&self) -> (r: &'static str)
        ensures
            r@ == self.token(),
    {
        match self {
            MessageType::All => "*",
            MessageType::Trades => "trades",
            MessageType::OrdersMatched => "orders_matched",
            MessageType::CommentCreated => "comment_created",
            MessageType::CommentRemoved => "comment_removed",
            MessageType::ReactionCreated => "reaction_created",
            MessageType::ReactionRemoved => "reaction_removed",
            MessageType::RequestCreated => "request_created",
            MessageType::RequestEdited => "request_edited",
            MessageType::RequestCanceled => "request_canceled",
            MessageType::RequestExpired => "request_expired",
            MessageType::QuoteCreated => "quote_created",
            MessageType::QuoteEdited => "quote_edited",
            MessageType::QuoteCanceled => "quote_canceled",
            MessageType::QuoteExpired => "quote_expired",
            MessageType::Update => "update",
            MessageType::Order => "order",
            MessageType::Trade => "trade",
            MessageType::PriceChange => "price_change",
            MessageType::AggOrderbook => "agg_orderbook",
            MessageType::LastTradePrice => "last_trade_price",
            MessageType::TickSizeChange => "tick_size_change",
            MessageType::MarketCreated => "market_created",
            MessageType::MarketResolved => "market_resolved",
        }
    }

    /// The kind whose wire token is `s`, if any.
    pub open spec fn of_token(s: Seq<char>) -> Option<MessageType> {
        if exists|k: MessageType| k.token() == s {
            Some(choose|k: MessageType| k.token() == s)
        } else {
            None
        }
    }

    /// The kind whose wire token is `s`; `None` for an unknown token.
    pub fn from_token(s: &str) -> (r: Option<MessageType>)
        ensures
            r == MessageType::of_token(s@),
            match r {
                Some(k) => k.token() == s@,
                None => forall|k: MessageType| k.token() != s@,
            },
    {
        let r = if text_eq(s, "*") {
            Some(MessageType::All)
        } else if text_eq(s, "trades") {
            Some(MessageType::Trades)
        } else if text_eq(s, "orders_matched") {
            Some(MessageType::OrdersMatched)
        } else if text_eq(s, "comment_created") {
            Some(MessageType::CommentCreated)
        } else if text_eq(s, "comment_removed") {
            Some(MessageType::CommentRemoved)
        } else if text_eq(s, "reaction_created") {
            Some(MessageType::ReactionCreated)
        } else if text_eq(s, "reaction_removed") {
            Some(MessageType::ReactionRemoved)
        } else if text_eq(s, "request_created") {
            Some(MessageType::RequestCreated)
        } else if text_eq(s, "request_edited") {
            Some(MessageType::RequestEdited)
        } else if text_eq(s, "request_canceled") {
            Some(MessageType::RequestCanceled)
        } else if text_eq(s, "request_expired") {
            Some(MessageType::RequestExpired)
        } else if text_eq(s, "quote_created") {
            Some(MessageType::QuoteCreated)
        } else if text_eq(s, "quote_edited") {
            Some(MessageType::QuoteEdited)
        } else if text_eq(s, "quote_canceled") {
            Some(MessageType::QuoteCanceled)
        } else if text_eq(s, "quote_expired") {
            Some(MessageType::QuoteExpired)
        } else if text_eq(s, "update") {
            Some(MessageType::Update)
        } else if text_eq(s, "order") {
            Some(MessageType::Order)
        } else if text_eq(s, "trade") {
            Some(MessageType::Trade)
        } else if text_eq(s, "price_change") {
            Some(MessageType::PriceChange)
        } else if text_eq(s, "agg_orderbook") {
            Some(MessageType::AggOrderbook)
        } else if text_eq(s, "last_trade_price") {
            Some(MessageType::LastTradePrice)
        } else if text_eq(s, "tick_size_change") {
            Some(MessageType::TickSizeChange)
        } else if text_eq(s, "market_created") {
            Some(MessageType::MarketCreated)
        } else if text_eq(s, "market_resolved") {
            Some(MessageType::MarketResolved)
        } else {
            None
        };
        proof {
            if let Some(t) = r {
                assert(t.token() == s@);
                let c = choose|c: MessageType| c.token() == s@;
                lemma_kind_token_injective(t, c);
            }
        }
        r
    }
}

/// Distinct kinds have distinct wire tokens.
pub proof fn lemma_kind_token_injective(a: MessageType, b: MessageType)
    ensures
        a.token() == b.token() ==> a == b,
{
    reveal_strlit("*");
    reveal_strlit("trades");
    reveal_strlit("orders_matched");
    reveal_strlit("comment_created");
    reveal_strlit("comment_removed");
    reveal_strlit("reaction_created");
    reveal_strlit("reaction_removed");
    reveal_strlit("request_created");
    reveal_strlit("request_edited");
    reveal_strlit("request_canceled");
    reveal_strlit("request_expired");
    reveal_strlit("quote_created");
    reveal_strlit("quote_edited");
    reveal_strlit("quote_canceled");
    reveal_strlit("quote_expired");
    reveal_strlit("update");
    reveal_strlit("order");
    reveal_strlit("trade");
    reveal_strlit("price_change");
    reveal_strlit("agg_orderbook");
    reveal_strlit("last_trade_price");
    reveal_strlit("tick_size_change");
    reveal_strlit("market_created");
    reveal_strlit("market_resolved");
    if a.token() == b.token() && a != b {
        let (x, y) = (a.token(), b.token());
        assert(x.len() == y.len());
        assert(x[0] == y[0]);
        assert(x[x.len() - 1] == y[y.len() - 1]);
        assert(x[2] == y[2]);
        assert(x[6] == y[6]);
        assert(x[8] == y[8]);
        assert(x[9] == y[9]);
    }
}

/// API-key credentials of the order-book authentication scheme.
#[derive(Debug, Clone)]
pub struct ClobApiKeyCreds {
    /// API key
    pub key: String,
    /// Secret that belongs to the key
    pub secret: String,
    /// Passphrase that belongs to the key
    pub passphrase: String,
}

impl ClobApiKeyCreds {
    /// A copy of the credentials.
    pub fn cloned(&self) -> (r: Self)
        ensures
            r == *self,
    {
        ClobApiKeyCreds {
            key: self.key.clone(),
            secret: self.secret.clone(),
            passphrase: self.passphrase.clone(),
        }
    }
}

/// Address credentials of the second authentication scheme.
#[derive(Debug, Clone)]
pub struct GammaAuth {
    /// Address used for authentication
    pub address: String,
}

impl GammaAuth {
    /// A copy of the credentials.
    pub fn cloned(&self) -> (r: Self)
        ensures
            r == *self,
    {
        GammaAuth { address: self.address.clone() }
    }
}

/// What a subscription narrows its events to; exactly one shape per value.
#[derive(Debug, Clone)]
pub enum SubscriptionFilter {
    EventSlug { event_slug: String },
    MarketSlug { market_slug: String },
    ParentEntity { parent_entity_id: u64, parent_entity_type: String },
    Symbol { symbol: String },
    TokenIds(Vec<String>),
}

impl SubscriptionFilter {
    pub fn event_slug(slug: &str) -> (r: Self)
        ensures
            r matches SubscriptionFilter::EventSlug { event_slug } && event_slug@ == slug@,
    {
        SubscriptionFilter::EventSlug { event_slug: String::from_str(slug) }
    }

    pub fn market_slug(slug: &str) -> (r: Self)
        ensures
            r matches SubscriptionFilter::MarketSlug { market_slug } && market_slug@ == slug@,
    {
        SubscriptionFilter::MarketSlug { market_slug: String::from_str(slug) }
    }

    pub fn parent_entity(id: u64, entity_type: &str) -> (r: Self)
        ensures
            r matches SubscriptionFilter::ParentEntity { parent_entity_id, parent_entity_type }
                && parent_entity_id == id && parent_entity_type@ == entity_type@,
    {
        SubscriptionFilter::ParentEntity {
            parent_entity_id: id,
            parent_entity_type: String::from_str(entity_type),
        }
    }

    pub fn symbol(symbol: &str) -> (r: Self)
        ensures
            r matches SubscriptionFilter::Symbol { symbol: s } && s@ == symbol@,
    {
        SubscriptionFilter::Symbol { symbol: String::from_str(symbol) }
    }

    pub fn token_ids(ids: Vec<String>) -> (r: Self)
        ensures
            r == SubscriptionFilter::TokenIds(ids),
    {
        SubscriptionFilter::TokenIds(ids)
    }

    /// The JSON text of the filter: an object with the one member of its
    /// shape, or for token ids the array of them.
    pub open spec fn json(self) -> Seq<char> {
        match self {
            SubscriptionFilter::EventSlug { event_slug } => "{\"event_slug\":"@ + json_quoted(
                event_slug@,
            ) + "}"@,
            SubscriptionFilter::MarketSlug { market_slug } => "{\"market_slug\":"@ + json_quoted(
                market_slug@,
            ) + "}"@,
            SubscriptionFilter::ParentEntity { parent_entity_id, parent_entity_type } =>
                "{\"parentEntityID\":"@ + decimal(parent_entity_id as nat)
                    + ",\"parentEntityType\":"@ + json_quoted(parent_entity_type@) + "}"@,
            SubscriptionFilter::Symbol { symbol } => "{\"symbol\":"@ + json_quoted(symbol@) + "}"@,
            SubscriptionFilter::TokenIds(ids) => quoted_array(ids@),
        }
    }

    /// Serialises the filter to its JSON text; it always succeeds, as every
    /// shape holds only texts and an integer.
    pub fn to_json_string(&self) -> (r: Result<String, serde_json::Error>)
        ensures
            r is Ok,
            r matches Ok(j) && j@ == self.json(),
    {
        let mut out = String::new();
        match self {
            SubscriptionFilter::EventSlug { event_slug } => {
                out.append("{\"event_slug\":");
                out.append(quote(event_slug.as_str()).as_str());
                out.append("}");
            },
            SubscriptionFilter::MarketSlug { market_slug } => {
                out.append("{\"market_slug\":");
                out.append(quote(market_slug.as_str()).as_str());
                out.append("}");
            },
            SubscriptionFilter::ParentEntity { parent_entity_id, parent_entity_type } => {
                out.append("{\"parentEntityID\":");
                push_decimal(&mut out, *parent_entity_id);
                out.append(",\"parentEntityType\":");
                out.append(quote(parent_entity_type.as_str()).as_str());
                out.append("}");
            },
            SubscriptionFilter::Symbol { symbol } => {
                out.append("{\"symbol\":");
                out.append(quote(symbol.as_str()).as_str());
                out.append("}");
            },
            SubscriptionFilter::TokenIds(ids) => {
                push_quoted_array(&mut out, ids);
            },
        }
        assert(out@ =~= self.json());
        Ok(out)
    }
}

/// A declaration of interest: a topic and kind, with an optional filter
/// text and optional credentials of each scheme.
#[derive(Debug, Clone)]
pub struct Subscription {
    /// Topic to subscribe to
    pub topic: Topic,
    /// Kind of message within the topic
    pub subscription_type: MessageType,
    /// Filter, already serialised to JSON text
    pub filters: Option<String>,
    /// Order-book API-key credentials
    pub clob_auth: Option<ClobApiKeyCreds>,
    /// Address credentials
    pub gamma_auth: Option<GammaAuth>,
}

impl Subscription {
    /// The (topic, kind) pair that identifies the subscription.
    pub open spec fn key(self) -> (Topic, MessageType) {
        (self.topic, self.subscription_type)
    }

    pub fn new(topic: Topic, message_type: MessageType) -> (r: Self)
        ensures
            r == (Subscription {
                topic,
                subscription_type: message_type,
                filters: None,
                clob_auth: None,
                gamma_auth: None,
            }),
    {
        Subscription {
            topic,
            subscription_type: message_type,
            filters: None,
            clob_auth: None,
            gamma_auth: None,
        }
    }

    /// Sets the filter to the JSON text of `filter`.
    pub fn with_filter(self, filter: SubscriptionFilter) -> (r: Result<Self, serde_json::Error>)
        ensures
            r is Ok,
            r matches Ok(s) && s.filters matches Some(f) && f@ == filter.json()
                && s == (Subscription { filters: s.filters, ..self }),
    {
        let mut this = self;
        match filter.to_json_string() {
            Ok(text) => {
                this.filters = Some(text);
                Ok(this)
            },
            Err(e) => Err(e),
        }
    }

    /// Sets the filter to a JSON text given as it is.
    pub fn with_raw_filter(self, filter: String) -> (r: Self)
        ensures
            r == (Subscription { filters: Some(filter), ..self }),
    {
        let mut this = self;
        this.filters = Some(filter);
        this
    }

    pub fn with_clob_auth(self, auth: ClobApiKeyCreds) -> (r: Self)
        ensures
            r == (Subscription { clob_auth: Some(auth), ..self }),
    {
        let mut this = self;
        this.clob_auth = Some(auth);
        this
    }

    pub fn with_gamma_auth(self, auth: GammaAuth) -> (r: Self)
        ensures
            r == (Subscription { gamma_auth: Some(auth), ..self }),
    {
        let mut this = self;
        this.gamma_auth = Some(auth);
        this
    }

    /// A copy of the subscription.
    pub fn cloned(&self) -> (r: Self)
        ensures
            r == *self,
    {
        let filters = match &self.filters {
            Some(f) => Some(f.clone()),
            None => None,
        };
        let clob_auth = match &self.clob_auth {
            Some(a) => Some(a.cloned()),
            None => None,
        };
        let gamma_auth = match &self.gamma_auth {
            Some(a) => Some(a.cloned()),
            None => None,
        };
        Subscription {
            topic: self.topic,
            subscription_type: self.subscription_type,
            filters,
            clob_auth,
            gamma_auth,
        }
    }
}

/// The subscriptions of one control message.
#[derive(Debug, Clone)]
pub struct SubscriptionMessage {
    /// Subscriptions the message is about
    pub subscriptions: Vec<Subscription>,
}

/// The state of the connection; exactly one holds at any time.
#[derive(Debug, Clone, Copy, PartialEq, Eq, Structural)]
pub enum ConnectionStatus {
    /// Attempting to establish a connection
    Connecting,
    /// Connected to the server
    Connected,
    /// Not connected
    Disconnected,
}

} // verus!
