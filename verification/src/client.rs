//! The client's error vocabulary, its registry of supervisor tasks, and
//! the join operation's decisions: the registry is drained with a
//! take-and-replace swap when joining begins, and the join races every
//! supervisor's completion against a broker-level connection error.

use vstd::prelude::*;

verus! {

/// Errors when creating the client.
#[derive(Debug, Clone, PartialEq)]
pub enum NewError {
    /// Connecting to the broker failed.
    Connection(String),
    /// Creating the channel pool failed.
    ChannelPool(String),
    /// Declaring the dead-letter exchange failed.
    DlxExchangeDeclare(String),
}

/// Errors when leasing a channel through the client.
#[derive(Debug, Clone, PartialEq)]
pub enum GetChannelError {
    /// Any error from the pool.
    Other(String),
}

/// Errors surfaced by the join operation.
#[derive(Debug, Clone, PartialEq)]
pub enum JoinBasicConsumersError {
    /// Joining a supervisor task failed.
    JoinTask(String),
    /// A supervisor stopped with an error of its own.
    Consumer(String),
    /// The connection-error notification channel was dropped.
    ConnectionErrorReceiverDropped,
    /// The broker connection reported an error while supervisors were
    /// still running.
    Connection(String),
}

/// The registry of running supervisor tasks, identified by their task ids.
/// It is appended to on registration and drained whole when the join
/// operation begins.
#[derive(Debug, Clone)]
pub struct ConsumerSet {
    /// The registered task ids, in registration order.
    pub tasks: Vec<u64>,
}

impl ConsumerSet {
    /// An empty registry.
    pub fn new() -> (r: ConsumerSet)
        ensures
            r.tasks@.len() == 0,
    {
        ConsumerSet { tasks: Vec::new() }
    }

    /// Registers one supervisor task.
    pub fn register(&mut self, task: u64)
        ensures
            final(self).tasks@ == old(self).tasks@.push(task),
    {
        self.tasks.push(task);
    }

    /// Takes every registered task and leaves the registry empty: the
    /// take-and-replace swap the join operation performs. A supervisor
    /// registered after this point is deliberately not waited on.
    pub fn take(&mut self) -> (r: Vec<u64>)
        ensures
            r@ == old(self).tasks@,
            final(self).tasks@.len() == 0,
    {
        let mut out: Vec<u64> = Vec::new();
        core::mem::swap(&mut out, &mut self.tasks);
        out
    }
}

/// What the join operation observed: one of its two select sources
/// resolved.
#[derive(Debug, Clone)]
pub enum CompletionEvent {
    /// The broker connection reported an error.
    ConnError(String),
    /// The connection-error notification channel was dropped.
    ConnSenderDropped,
    /// Joining one supervisor task failed.
    JoinFailed(String),
    /// One supervisor stopped with an error of its own.
    ConsumerFailed(String),
    /// One supervisor completed normally.
    ConsumerFinished,
}

/// One decision of the join operation: a connection error or a dropped
/// notification channel fails the join immediately, a failed task or a
/// failed supervisor fails it too, and a normal completion only shrinks
/// the set of supervisors still awaited.
pub fn completion_step(remaining: u64, ev: CompletionEvent) -> (r: (
    u64,
    Option<JoinBasicConsumersError>,
))
    requires
        (ev is JoinFailed || ev is ConsumerFailed || ev is ConsumerFinished) ==> remaining > 0,
    ensures
        match ev {
            CompletionEvent::ConnError(m) => r.0 == remaining && (r.1 matches Some(e) && e
                == JoinBasicConsumersError::Connection(m)),
            CompletionEvent::ConnSenderDropped => r.0 == remaining && (r.1 matches Some(e) && e
                is ConnectionErrorReceiverDropped),
            CompletionEvent::JoinFailed(m) => r.0 == remaining && (r.1 matches Some(e) && e
                == JoinBasicConsumersError::JoinTask(m)),
            CompletionEvent::ConsumerFailed(m) => r.0 == remaining && (r.1 matches Some(e) && e
                == JoinBasicConsumersError::Consumer(m)),
            CompletionEvent::ConsumerFinished => r.0 == remaining - 1 && r.1 is None,
        },
{
    match ev {
        CompletionEvent::ConnError(m) => (remaining, Some(JoinBasicConsumersError::Connection(m))),
        CompletionEvent::ConnSenderDropped => (
            remaining,
            Some(JoinBasicConsumersError::ConnectionErrorReceiverDropped),
        ),
        CompletionEvent::JoinFailed(m) => (remaining, Some(JoinBasicConsumersError::JoinTask(m))),
        CompletionEvent::ConsumerFailed(m) => (
            remaining,
            Some(JoinBasicConsumersError::Consumer(m)),
        ),
        CompletionEvent::ConsumerFinished => (remaining - 1, None),
    }
}

} // verus!
