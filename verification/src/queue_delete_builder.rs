//! Deleting a queue.

use vstd::prelude::*;

use crate::queue::QueueName;

verus! {

/// Options for a queue delete call.
#[derive(Debug, Clone, Copy, PartialEq, Eq, Structural)]
pub struct QueueDeleteOpts {
    /// Delete only if the queue has no messages.
    pub if_empty: bool,
    /// Delete only if the queue has no consumers.
    pub if_unused: bool,
    /// Do not wait for the broker's confirmation.
    pub nowait: bool,
}

/// The error returned when deleting the queue fails.
#[derive(Debug, Clone)]
pub struct DeleteError(pub String);

/// Builds one queue deletion.
#[derive(Debug, Clone)]
pub struct QueueDeleteBuilder {
    /// The queue's name.
    pub name: String,
    /// Delete options.
    pub opts: QueueDeleteOpts,
}

impl QueueDeleteBuilder {
    /// A deletion with the defaults: unconditional and confirmed.
    pub fn new<N: QueueName>(name: &N) -> (r: QueueDeleteBuilder)
        ensures
            r.name@ == name.spec_queue_name(),
            r.opts == (QueueDeleteOpts { if_empty: false, if_unused: false, nowait: false }),
    {
        QueueDeleteBuilder {
            name: String::from_str(name.queue_name()),
            opts: QueueDeleteOpts { if_empty: false, if_unused: false, nowait: false },
        }
    }

    /// Sets the if-empty option; defaults to off.
    pub fn if_empty(self, if_empty: bool) -> (r: QueueDeleteBuilder)
        ensures
            r == (QueueDeleteBuilder { opts: QueueDeleteOpts { if_empty, ..self.opts }, ..self }),
    {
        QueueDeleteBuilder { opts: QueueDeleteOpts { if_empty, ..self.opts }, ..self }
    }

    /// Sets the if-unused option; defaults to off.
    pub fn if_unused(self, if_unused: bool) -> (r: QueueDeleteBuilder)
        ensures
            r == (QueueDeleteBuilder { opts: QueueDeleteOpts { if_unused, ..self.opts }, ..self }),
    {
        QueueDeleteBuilder { opts: QueueDeleteOpts { if_unused, ..self.opts }, ..self }
    }

    /// Sets the nowait option; defaults to off.
    pub fn nowait(self, nowait: bool) -> (r: QueueDeleteBuilder)
        ensures
            r == (QueueDeleteBuilder { opts: QueueDeleteOpts { nowait, ..self.opts }, ..self }),
    {
        QueueDeleteBuilder { opts: QueueDeleteOpts { nowait, ..self.opts }, ..self }
    }
}

} // verus!
