//! Message-consumption and handler-dispatch layer above a generic AMQP
//! transport: typed extraction of handler arguments from deliveries,
//! per-delivery lifecycle with timeout and dead-lettering, consumer
//! supervision, and a request/response protocol with correlation ids.

pub mod basic_consume_builder;
pub mod basic_publish_builder;
pub mod builder_arguments;
pub mod channel_pool;
pub mod client;
pub mod consumer_extract;
pub mod consumer_handler;
pub mod consumer_handler_result;
pub mod delivery;
pub mod dlx;
pub mod lifecycle;
pub mod exchange_declare_builder;
pub mod message;
pub mod queue;
pub mod queue_bind_builder;
pub mod queue_declare_builder;
pub mod queue_delete_builder;
pub mod queue_purge_builder;
pub mod queue_unbind_builder;
pub mod rpc_builder;
pub mod util;

pub use consumer_handler_result::ConsumerHandlerError;
pub use delivery::Delivery;
pub use queue::Queue;

use vstd::prelude::*;

verus! {

/// Milliseconds in the default consume timeout (five minutes).
pub const DEFAULT_CONSUME_TIMEOUT_MS: u64 = 300_000;

} // verus!
