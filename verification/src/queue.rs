//! The queue descriptor: a name and the dead-lettering flag, immutable
//! after declaration.

use vstd::prelude::*;

verus! {

/// A declared queue.
#[derive(Debug, Clone)]
pub struct Queue {
    /// The queue's name.
    pub name: String,
    /// Whether handler failures on this queue are mirrored to the
    /// dead-letter exchange.
    pub dead_lettering: bool,
}

/// A uniform way to get the name of a queue.
pub trait QueueName {
    /// The name, as a specification value.
    spec fn spec_queue_name(&self) -> Seq<char>;

    /// The name of the queue.
    fn queue_name(&self) -> (r: &str)
        ensures
            r@ == self.spec_queue_name(),
    ;
}

impl QueueName for Queue {
    open spec fn spec_queue_name(&self) -> Seq<char> {
        self.name@
    }

    fn queue_name(&self) -> (r: &str) {
        self.name.as_str()
    }
}

impl QueueName for String {
    open spec fn spec_queue_name(&self) -> Seq<char> {
        self@
    }

    fn queue_name(&self) -> (r: &str) {
        self.as_str()
    }
}

} // verus!
