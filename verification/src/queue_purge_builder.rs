//! Purging a queue.

use vstd::prelude::*;

use crate::queue::QueueName;

verus! {

/// Options for a queue purge call.
#[derive(Debug, Clone, Copy, PartialEq, Eq, Structural)]
pub struct QueuePurgeOpts {
    /// Do not wait for the broker's confirmation.
    pub nowait: bool,
}

/// The error returned when purging the queue fails.
#[derive(Debug, Clone)]
pub struct PurgeError(pub String);

/// Builds one queue purge.
#[derive(Debug, Clone)]
pub struct QueuePurgeBuilder {
    /// The queue's name.
    pub name: String,
    /// Purge options.
    pub opts: QueuePurgeOpts,
}

impl QueuePurgeBuilder {
    /// A purge with the defaults.
    pub fn new<N: QueueName>(name: &N) -> (r: QueuePurgeBuilder)
        ensures
            r.name@ == name.spec_queue_name(),
            r.opts == (QueuePurgeOpts { nowait: false }),
    {
        QueuePurgeBuilder {
            name: String::from_str(name.queue_name()),
            opts: QueuePurgeOpts { nowait: false },
        }
    }

    /// Sets the nowait option; defaults to off.
    pub fn nowait(self, nowait: bool) -> (r: QueuePurgeBuilder)
        ensures
            r == (QueuePurgeBuilder { opts: QueuePurgeOpts { nowait }, ..self }),
    {
        QueuePurgeBuilder { opts: QueuePurgeOpts { nowait }, ..self }
    }
}

} // verus!
