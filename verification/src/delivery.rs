//! The library's model of one inbound broker message: raw payload bytes, a
//! property bag, and the delivery tag used for acknowledgment. A delivery is
//! immutable after construction and is read by any number of extractors.

use vstd::prelude::*;

verus! {

/// The property bag carried by a delivery: optional message id, correlation
/// id, application id, reply-to queue name, and a publish timestamp.
#[derive(Debug, Clone)]
pub struct Props {
    /// Message id, used to correlate dead-letter records and RPC responses.
    pub message_id: Option<String>,
    /// Correlation id carried by RPC response messages.
    pub correlation_id: Option<String>,
    /// Id of the application that published the message.
    pub app_id: Option<String>,
    /// Name of the queue a response should be published to.
    pub reply_to: Option<String>,
    /// Publish timestamp in seconds.
    pub timestamp: Option<u64>,
}

impl Props {
    /// A property bag with nothing set.
    pub fn empty() -> (r: Props)
        ensures
            r.message_id is None,
            r.correlation_id is None,
            r.app_id is None,
            r.reply_to is None,
            r.timestamp is None,
    {
        Props {
            message_id: None,
            correlation_id: None,
            app_id: None,
            reply_to: None,
            timestamp: None,
        }
    }
}

/// One inbound message from a broker subscription.
#[derive(Debug, Clone)]
pub struct Delivery {
    /// The tag the broker uses to identify this delivery on ack/nack.
    pub delivery_tag: u64,
    /// The raw payload bytes.
    pub payload: Vec<u8>,
    /// The delivery's property bag.
    pub props: Props,
}

impl Delivery {
    /// Whether the delivery carries a message id.
    pub open spec fn spec_has_message_id(&self) -> bool {
        self.props.message_id is Some
    }

    /// Whether the delivery carries a message id.
    pub fn has_message_id(&self) -> (r: bool)
        ensures
            r == self.spec_has_message_id(),
    {
        self.props.message_id.is_some()
    }
}

} // verus!
