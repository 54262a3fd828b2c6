//! Publishing one message to an exchange: options and the message's
//! property bag. A new publish carries the client's application id, a
//! fresh message id, and the current timestamp by default.

use vstd::prelude::*;

use crate::message::new_id_string;

verus! {

/// Options for a publish call.
#[derive(Debug, Clone, Copy, PartialEq, Eq, Structural)]
pub struct BasicPublishOpts {
    /// Ask the broker to deliver only if a consumer is ready.
    pub immediate: bool,
    /// Ask the broker to return the message if it cannot be routed.
    pub mandatory: bool,
}

/// The properties placed on an outgoing message.
#[derive(Debug, Clone)]
pub struct PublishProps {
    /// Id of the publishing application.
    pub app_id: Option<String>,
    /// Correlation id for responses.
    pub correlation_id: Option<String>,
    /// The message's own id.
    pub message_id: Option<String>,
    /// The queue a response should be published to.
    pub reply_to: Option<String>,
    /// Publish timestamp in seconds.
    pub timestamp: Option<u64>,
}

/// The error returned when publishing fails.
#[derive(Debug, Clone)]
pub struct PublishError(pub String);

/// Relies on `chrono::Utc::now` and its `timestamp`: seconds since the
/// epoch. The value depends on the clock, so nothing is promised of it.
#[verifier::external_body]
fn unix_timestamp_now() -> u64 {
    chrono::Utc::now().timestamp() as u64
}

/// Builds one publish.
#[derive(Debug, Clone)]
pub struct BasicPublishBuilder {
    /// The exchange to publish to.
    pub exchange_name: String,
    /// The routing key to publish under.
    pub routing_key: String,
    /// Publish options.
    pub opts: BasicPublishOpts,
    /// Message properties.
    pub props: PublishProps,
}

impl BasicPublishBuilder {
    /// A publish with the defaults: the client's application id, a fresh
    /// message id, the current timestamp, and no other properties.
    pub fn new(app_id: String, exchange_name: String, routing_key: String) -> (r:
        BasicPublishBuilder)
        ensures
            r.exchange_name == exchange_name,
            r.routing_key == routing_key,
            r.opts == (BasicPublishOpts { immediate: false, mandatory: false }),
            r.props.app_id == Some(app_id),
            r.props.correlation_id is None,
            r.props.message_id matches Some(m) && m@.len() == 36,
            r.props.reply_to is None,
            r.props.timestamp is Some,
    {
        BasicPublishBuilder {
            exchange_name,
            routing_key,
            opts: BasicPublishOpts { immediate: false, mandatory: false },
            props: PublishProps {
                app_id: Some(app_id),
                correlation_id: None,
                message_id: Some(new_id_string()),
                reply_to: None,
                timestamp: Some(unix_timestamp_now()),
            },
        }
    }

    /// Sets the immediate option; defaults to off.
    pub fn immediate(self, immediate: bool) -> (r: BasicPublishBuilder)
        ensures
            r == (BasicPublishBuilder {
                opts: BasicPublishOpts { immediate, ..self.opts },
                ..self
            }),
    {
        BasicPublishBuilder { opts: BasicPublishOpts { immediate, ..self.opts }, ..self }
    }

    /// Sets the mandatory option; defaults to off.
    pub fn mandatory(self, mandatory: bool) -> (r: BasicPublishBuilder)
        ensures
            r == (BasicPublishBuilder {
                opts: BasicPublishOpts { mandatory, ..self.opts },
                ..self
            }),
    {
        BasicPublishBuilder { opts: BasicPublishOpts { mandatory, ..self.opts }, ..self }
    }

    /// Sets the application id; defaults to the client's.
    pub fn app_id(self, app_id: String) -> (r: BasicPublishBuilder)
        ensures
            r == (BasicPublishBuilder {
                props: PublishProps { app_id: Some(app_id), ..self.props },
                ..self
            }),
    {
        BasicPublishBuilder { props: PublishProps { app_id: Some(app_id), ..self.props }, ..self }
    }

    /// Sets the correlation id; absent by default.
    pub fn correlation_id(self, correlation_id: String) -> (r: BasicPublishBuilder)
        ensures
            r == (BasicPublishBuilder {
                props: PublishProps { correlation_id: Some(correlation_id), ..self.props },
                ..self
            }),
    {
        BasicPublishBuilder {
            props: PublishProps { correlation_id: Some(correlation_id), ..self.props },
            ..self
        }
    }

    /// Sets the message id; defaults to a fresh one.
    pub fn message_id(self, message_id: String) -> (r: BasicPublishBuilder)
        ensures
            r == (BasicPublishBuilder {
                props: PublishProps { message_id: Some(message_id), ..self.props },
                ..self
            }),
    {
        BasicPublishBuilder {
            props: PublishProps { message_id: Some(message_id), ..self.props },
            ..self
        }
    }

    /// Sets the reply-to queue; absent by default.
    pub fn reply_to(self, reply_to: String) -> (r: BasicPublishBuilder)
        ensures
            r == (BasicPublishBuilder {
                props: PublishProps { reply_to: Some(reply_to), ..self.props },
                ..self
            }),
    {
        BasicPublishBuilder {
            props: PublishProps { reply_to: Some(reply_to), ..self.props },
            ..self
        }
    }

    /// Sets the timestamp; defaults to the time of construction.
    pub fn timestamp(self, timestamp: u64) -> (r: BasicPublishBuilder)
        ensures
            r == (BasicPublishBuilder {
                props: PublishProps { timestamp: Some(timestamp), ..self.props },
                ..self
            }),
    {
        BasicPublishBuilder {
            props: PublishProps { timestamp: Some(timestamp), ..self.props },
            ..self
        }
    }
}

} // verus!
