//! Binding a queue to an exchange under a routing key.

use vstd::prelude::*;

use crate::builder_arguments::FieldTable;
use crate::builder_arguments::FieldValue;
use crate::queue::QueueName;

verus! {

/// Options for a queue bind call.
#[derive(Debug, Clone, Copy, PartialEq, Eq, Structural)]
pub struct QueueBindOpts {
    /// Do not wait for the broker's confirmation.
    pub nowait: bool,
}

/// The error returned when binding the queue fails.
#[derive(Debug, Clone)]
pub struct BindError(pub String);

/// Builds one queue binding.
#[derive(Debug, Clone)]
pub struct QueueBindBuilder {
    /// The queue's name.
    pub name: String,
    /// The exchange to bind to.
    pub exchange_name: String,
    /// The routing key to bind under.
    pub routing_key: String,
    /// Bind options.
    pub opts: QueueBindOpts,
    /// Additional bind arguments.
    pub args: FieldTable,
}

impl QueueBindBuilder {
    /// A binding with the defaults.
    pub fn new<N: QueueName>(name: &N, exchange_name: String, routing_key: String) -> (r:
        QueueBindBuilder)
        ensures
            r.name@ == name.spec_queue_name(),
            r.exchange_name == exchange_name,
            r.routing_key == routing_key,
            r.opts == (QueueBindOpts { nowait: false }),
            r.args@ == Map::<Seq<char>, FieldValue>::empty(),
    {
        QueueBindBuilder {
            name: String::from_str(name.queue_name()),
            exchange_name,
            routing_key,
            opts: QueueBindOpts { nowait: false },
            args: FieldTable::new(),
        }
    }

    /// Sets the nowait option; defaults to off.
    pub fn nowait(self, nowait: bool) -> (r: QueueBindBuilder)
        ensures
            r == (QueueBindBuilder { opts: QueueBindOpts { nowait }, ..self }),
    {
        QueueBindBuilder { opts: QueueBindOpts { nowait }, ..self }
    }
}

} // verus!
