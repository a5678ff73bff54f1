//! The wire codec: control envelopes out, classified frames in.
use vstd::prelude::*;
use vstd::string::*;

use crate::json::{json_quoted, quote};
use crate::model::{
    lemma_kind_token_injective, lemma_topic_token_injective, ClobApiKeyCreds, GammaAuth, MessageType,
    Subscription, SubscriptionMessage, Topic,
};

verus! {

/// What a control envelope asks of the server.
#[derive(Debug, Clone, Copy, PartialEq, Eq, Structural)]
pub enum ControlAction {
    Subscribe,
    Unsubscribe,
}

impl ControlAction {
    pub open spec fn token(self) -> Seq<char> {
        match self {
            ControlAction::Subscribe => "subscribe"@,
            ControlAction::Unsubscribe => "unsubscribe"@,
        }
    }

    pub fn as_str(&self) -> (r: &'static str)
        ensures
            r@ == self.token(),
    {
        match self {
            ControlAction::Subscribe => "subscribe",
            ControlAction::Unsubscribe => "unsubscribe",
        }
    }
}

/// The `filters` member of a subscription record, when it has a filter.
pub open spec fn filters_member(f: Option<String>) -> Seq<char> {
    match f {
        Some(text) => ",\"filters\":"@ + json_quoted(text@),
        None => Seq::empty(),
    }
}

/// The `clob_auth` member of a subscription record, when it has one.
pub open spec fn clob_auth_member(a: Option<ClobApiKeyCreds>) -> Seq<char> {
    match a {
        Some(c) => ",\"clob_auth\":{\"key\":"@ + json_quoted(c.key@) + ",\"secret\":"@
            + json_quoted(c.secret@) + ",\"passphrase\":"@ + json_quoted(c.passphrase@) + "}"@,
        None => Seq::empty(),
    }
}

/// The `gamma_auth` member of a subscription record, when it has one.
pub open spec fn gamma_auth_member(a: Option<GammaAuth>) -> Seq<char> {
    match a {
        Some(g) => ",\"gamma_auth\":{\"address\":"@ + json_quoted(g.address@) + "}"@,
        None => Seq::empty(),
    }
}

/// The JSON record of a subscription: topic and kind as their tokens, then
/// the filter text and the credentials that it carries.
pub open spec fn subscription_json(x: Subscription) -> Seq<char> {
    "{\"topic\":"@ + json_quoted(x.topic.token()) + ",\"type\":"@ + json_quoted(
        x.subscription_type.token(),
    ) + filters_member(x.filters) + clob_auth_member(x.clob_auth) + gamma_auth_member(
        x.gamma_auth,
    ) + "}"@
}

/// The records of `xs` separated by commas.
pub open spec fn subscription_list(xs: Seq<Subscription>) -> Seq<char>
    decreases xs.len(),
{
    if xs.len() == 0 {
        Seq::empty()
    } else if xs.len() == 1 {
        subscription_json(xs[0])
    } else {
        subscription_list(xs.drop_last()) + ","@ + subscription_json(xs.last())
    }
}

/// The control envelope: the action and the array of subscription records.
pub open spec fn envelope_json(action: ControlAction, xs: Seq<Subscription>) -> Seq<char> {
    "{\"action\":"@ + json_quoted(action.token()) + ",\"subscriptions\":["@ + subscription_list(xs)
        + "]}"@
}

fn push_filters_member(out: &mut String, f: &Option<String>)
    ensures
        final(out)@ == old(out)@ + filters_member(*f),
{
    match f {
        Some(text) => {
            out.append(",\"filters\":");
            out.append(quote(text.as_str()).as_str());
        },
        None => {},
    }
    assert(final(out)@ =~= old(out)@ + filters_member(*f));
}

fn push_clob_auth_member(out: &mut String, a: &Option<ClobApiKeyCreds>)
    ensures
        final(out)@ == old(out)@ + clob_auth_member(*a),
{
    match a {
        Some(c) => {
            out.append(",\"clob_auth\":{\"key\":");
            out.append(quote(c.key.as_str()).as_str());
            out.append(",\"secret\":");
            out.append(quote(c.secret.as_str()).as_str());
            out.append(",\"passphrase\":");
            out.append(quote(c.passphrase.as_str()).as_str());
            out.append("}");
        },
        None => {},
    }
    assert(final(out)@ =~= old(out)@ + clob_auth_member(*a));
}

fn push_gamma_auth_member(out: &mut String, a: &Option<GammaAuth>)
    ensures
        final(out)@ == old(out)@ + gamma_auth_member(*a),
{
    match a {
        Some(g) => {
            out.append(",\"gamma_auth\":{\"address\":");
            out.append(quote(g.address.as_str()).as_str());
            out.append("}");
        },
        None => {},
    }
    assert(final(out)@ =~= old(out)@ + gamma_auth_member(*a));
}

/// Appends the JSON record of `x` to `out`.
pub fn push_subscription(out: &mut String, x: &Subscription)
    ensures
        final(out)@ == old(out)@ + subscription_json(*x),
{
    out.append("{\"topic\":");
    out.append(quote(x.topic.as_str()).as_str());
    out.append(",\"type\":");
    out.append(quote(x.subscription_type.as_str()).as_str());
    push_filters_member(out, &x.filters);
    push_clob_auth_member(out, &x.clob_auth);
    push_gamma_auth_member(out, &x.gamma_auth);
    out.append("}");
    assert(final(out)@ =~= old(out)@ + subscription_json(*x));
}

/// The JSON record of one subscription.
pub fn encode_subscription(x: &Subscription) -> (r: String)
    ensures
        r@ == subscription_json(*x),
{
    let mut out = String::new();
    push_subscription(&mut out, x);
    assert(out@ =~= subscription_json(*x));
    out
}

/// The control envelope that asks `action` for each of `xs`.
pub fn encode_envelope(action: ControlAction, xs: &Vec<Subscription>) -> (r: String)
    ensures
        r@ == envelope_json(action, xs@),
{
    let mut out = String::new();
    out.append("{\"action\":");
    out.append(quote(action.as_str()).as_str());
    out.append(",\"subscriptions\":[");
    let ghost start = out@;
    let mut i: usize = 0;
    while i < xs.len()
        invariant
            i <= xs@.len(),
            out@ == start + subscription_list(xs@.subrange(0, i as int)),
        decreases xs@.len() - i,
    {
        if i > 0 {
            out.append(",");
        }
        push_subscription(&mut out, &xs[i]);
        proof {
            let s = xs@.subrange(0, i as int + 1);
            assert(s.drop_last() =~= xs@.subrange(0, i as int));
            assert(s.last() == xs@[i as int]);
            if i == 0 {
                assert(s.len() == 1);
            }
        }
        i = i + 1;
    }
    assert(xs@.subrange(0, xs@.len() as int) =~= xs@);
    out.append("]}");
    assert(out@ =~= envelope_json(action, xs@));
    out
}

impl SubscriptionMessage {
    /// The control envelope that asks `action` for the message's
    /// subscriptions.
    pub fn encode(&self, action: ControlAction) -> (r: String)
        ensures
            r@ == envelope_json(action, self.subscriptions@),
    {
        encode_envelope(action, &self.subscriptions)
    }
}

/// How the `type` token of an inbound frame reads.
#[derive(Debug, Clone)]
pub enum FrameKind {
    /// A kind of the event model (never the subscribing wildcard)
    Known(MessageType),
    /// A token the event model does not know, kept as it came
    Unrecognized(String),
}

/// `k` is the reading of the token `t`.
pub open spec fn classifies(t: Seq<char>, k: FrameKind) -> bool {
    match k {
        FrameKind::Known(m) => m != MessageType::All && m.token() == t,
        FrameKind::Unrecognized(raw) => raw@ == t && forall|m: MessageType|
            m != MessageType::All ==> m.token() != t,
    }
}

/// Reads a `type` token: a known kind, or the token itself as unrecognized.
pub fn classify(token: &str) -> (r: FrameKind)
    ensures
        classifies(token@, r),
{
    match MessageType::from_token(token) {
        Some(m) => {
            if m == MessageType::All {
                proof {
                    assert forall|m2: MessageType| m2 != MessageType::All implies m2.token()
                        != token@ by {
                        lemma_kind_token_injective(m, m2);
                    }
                }
                FrameKind::Unrecognized(String::from_str(token))
            } else {
                FrameKind::Known(m)
            }
        },
        None => FrameKind::Unrecognized(String::from_str(token)),
    }
}

/// An inbound frame: the reading of its `type` token and its text.
#[derive(Debug, Clone)]
pub struct Frame {
    pub kind: FrameKind,
    pub body: String,
}

/// Why an inbound frame could not be read.
#[derive(Debug)]
pub enum DecodeError {
    /// The text is not a JSON document
    Malformed(serde_json::Error),
    /// The document has no string `type` member at its top level
    MissingType,
}

/// What serde_json reads from a text: `None` when it refuses the text (not
/// one JSON document, or nested deeper than it reads); otherwise the `type` member of the top-level object when that
/// member is a string.
pub uninterp spec fn json_type_member(text: Seq<char>) -> Option<Option<Seq<char>>>;

/// Relies on `serde_json::from_str` into a `serde_json::Value`, whose
/// outcome depends on the text alone, and on `Value::get` for the `type`
/// member, kept when it is a string.
#[verifier::external_body]
fn read_type_member(raw: &str) -> (r: Result<Option<String>, serde_json::Error>)
    ensures
        match r {
            Ok(Some(t)) => json_type_member(raw@) == Some(Some(t@)),
            Ok(None) => json_type_member(raw@) == Some(None::<Seq<char>>),
            Err(_) => json_type_member(raw@) is None,
        },
{
    match serde_json::from_str::<serde_json::Value>(raw) {
        Ok(v) => match v.get("type") {
            Some(serde_json::Value::String(t)) => Ok(Some(t.clone())),
            _ => Ok(None),
        },
        Err(e) => Err(e),
    }
}

/// `r` is what reading the frame text `raw` gives.
pub open spec fn decodes_to(raw: Seq<char>, r: Result<Frame, DecodeError>) -> bool {
    match r {
        Ok(f) => json_type_member(raw) matches Some(Some(t)) && classifies(t, f.kind) && f.body@
            == raw,
        Err(DecodeError::Malformed(_)) => json_type_member(raw) is None,
        Err(DecodeError::MissingType) => json_type_member(raw) == Some(None::<Seq<char>>),
    }
}

/// Reads one inbound frame. A malformed text and a missing `type` are
/// errors; any string `type`, known or not, gives a frame.
pub fn decode_frame(raw: &str) -> (r: Result<Frame, DecodeError>)
    ensures
        decodes_to(raw@, r),
{
    match read_type_member(raw) {
        Ok(Some(t)) => Ok(Frame { kind: classify(t.as_str()), body: String::from_str(raw) }),
        Ok(None) => Err(DecodeError::MissingType),
        Err(e) => Err(DecodeError::Malformed(e)),
    }
}

/// What the server echoes of a subscription record reads back as what was
/// sent: the topic token names the subscription's topic, and the kind token
/// names its kind, which a frame reads as that kind unless it is the
/// subscribing wildcard.
pub proof fn lemma_token_round_trip(x: Subscription)
    ensures
        Topic::of_token(x.topic.token()) == Some(x.topic),
        MessageType::of_token(x.subscription_type.token()) == Some(x.subscription_type),
        x.subscription_type != MessageType::All ==> classifies(
            x.subscription_type.token(),
            FrameKind::Known(x.subscription_type),
        ),
{
    let s = x.topic.token();
    let t = choose|t: Topic| t.token() == s;
    lemma_topic_token_injective(t, x.topic);
    let u = x.subscription_type.token();
    let k = choose|k: MessageType| k.token() == u;
    lemma_kind_token_injective(k, x.subscription_type);
}

/// The shape of a price-update payload.
#[derive(Debug, Clone, Copy, PartialEq, Eq, Structural)]
pub enum PriceShape {
    /// One live value: a `symbol` text and a numeric `value`
    Live,
    /// A historical series: a `symbol` text and a `data` array
    Series,
}

/// The shape that the facts about a payload's members give, the live shape
/// taking precedence; `None` when neither fits.
pub open spec fn price_shape_of(symbol_is_text: bool, value_is_number: bool, data_is_array: bool)
    -> Option<PriceShape> {
    if symbol_is_text && value_is_number {
        Some(PriceShape::Live)
    } else if symbol_is_text && data_is_array {
        Some(PriceShape::Series)
    } else {
        None
    }
}

/// Picks the shape of a price-update payload from the facts about its
/// members, trying the live shape before the series.
pub fn price_shape(symbol_is_text: bool, value_is_number: bool, data_is_array: bool) -> (r: Option<
    PriceShape,
>)
    ensures
        r == price_shape_of(symbol_is_text, value_is_number, data_is_array),
{
    if symbol_is_text && value_is_number {
        Some(PriceShape::Live)
    } else if symbol_is_text && data_is_array {
        Some(PriceShape::Series)
    } else {
        None
    }
}

/// What serde_json reads of a text: `None` when it refuses the text (not
/// one JSON document, or nested deeper than it reads); otherwise whether its top-level `symbol` member is a string, whether its
/// `value` member is a number and whether its `data` member is an array.
pub uninterp spec fn json_price_members(text: Seq<char>) -> Option<(bool, bool, bool)>;

/// Relies on `serde_json::from_str` into a `serde_json::Value`, whose
/// outcome depends on the text alone, and on `Value::get` for the
/// `symbol`, `value` and `data` members, each told apart by variant.
#[verifier::external_body]
fn read_price_members(raw: &str) -> (r: Result<(bool, bool, bool), serde_json::Error>)
    ensures
        match r {
            Ok(m) => json_price_members(raw@) == Some(m),
            Err(_) => json_price_members(raw@) is None,
        },
{
    match serde_json::from_str::<serde_json::Value>(raw) {
        Ok(v) => Ok((
            matches!(v.get("symbol"), Some(serde_json::Value::String(_))),
            matches!(v.get("value"), Some(serde_json::Value::Number(_))),
            matches!(v.get("data"), Some(serde_json::Value::Array(_))),
        )),
        Err(e) => Err(e),
    }
}

/// The shape of the price-update payload in `raw`: live or series, or
/// `None` when it has neither; a text that is not JSON is an error.
pub fn detect_price_shape(raw: &str) -> (r: Result<Option<PriceShape>, DecodeError>)
    ensures
        match r {
            Ok(p) => json_price_members(raw@) matches Some(m) && p == price_shape_of(m.0, m.1, m.2),
            Err(DecodeError::Malformed(_)) => json_price_members(raw@) is None,
            Err(DecodeError::MissingType) => false,
        },
{
    match read_price_members(raw) {
        Ok(m) => Ok(price_shape(m.0, m.1, m.2)),
        Err(e) => Err(DecodeError::Malformed(e)),
    }
}

} // verus!
