//! The channel pool's vocabulary and its one decision: a channel handed
//! back to the pool is reused only while it is still connected; a
//! disconnected channel is discarded rather than recycled.

use vstd::prelude::*;

verus! {

/// Errors when creating the pool.
#[derive(Debug, Clone, PartialEq)]
pub enum NewError {
    /// Any error from the pool's construction.
    Other(String),
}

/// Errors when leasing a channel from the pool.
#[derive(Debug, Clone, PartialEq)]
pub enum GetError {
    /// Any error from the pool's lease.
    Other(String),
}

/// Decides whether a channel returned to the pool may be recycled: only a
/// channel whose state is still connected is; any other state discards it.
pub fn recycle_decision(connected: bool) -> (r: Result<(), String>)
    ensures
        connected ==> r is Ok,
        !connected ==> (r matches Err(m) && m@ == "channel is not connected"@),
{
    if connected {
        Ok(())
    } else {
        Err(String::from_str("channel is not connected"))
    }
}

} // verus!
