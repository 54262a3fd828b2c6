//! Unbinding a queue from an exchange and routing key.

use vstd::prelude::*;

use crate::builder_arguments::FieldTable;
use crate::builder_arguments::FieldValue;
use crate::queue::QueueName;

verus! {

/// The error returned when unbinding the queue fails.
#[derive(Debug, Clone)]
pub struct UnbindError(pub String);

/// Builds one queue unbinding.
#[derive(Debug, Clone)]
pub struct QueueUnbindBuilder {
    /// The queue's name.
    pub name: String,
    /// The exchange to unbind from.
    pub exchange_name: String,
    /// The routing key the binding was made under.
    pub routing_key: String,
    /// Additional unbind arguments.
    pub args: FieldTable,
}

impl QueueUnbindBuilder {
    /// An unbinding with the defaults.
    pub fn new<N: QueueName>(name: &N, exchange_name: String, routing_key: String) -> (r:
        QueueUnbindBuilder)
        ensures
            r.name@ == name.spec_queue_name(),
            r.exchange_name == exchange_name,
            r.routing_key == routing_key,
            r.args@ == Map::<Seq<char>, FieldValue>::empty(),
    {
        QueueUnbindBuilder {
            name: String::from_str(name.queue_name()),
            exchange_name,
            routing_key,
            args: FieldTable::new(),
        }
    }
}

} // verus!
