//! Streaming client core for a real-time market-data service: the event
//! model, the subscription registry, the wire codec and the session state
//! machine that ties them together.
pub mod codec;
pub mod json;
pub mod model;
pub mod registry;
pub mod session;

pub use codec::{decode_frame, encode_envelope, ControlAction, DecodeError, Frame, FrameKind};
pub use model::{
    ClobApiKeyCreds, ConnectionStatus, GammaAuth, MessageType, Subscription, SubscriptionFilter,
    SubscriptionMessage, Topic,
};
pub use registry::Registry;
pub use session::{Received, Session};
