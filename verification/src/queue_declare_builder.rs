//! Declaring a queue: options, extra arguments, an optional expiry, and
//! the dead-lettering arguments that mirror failures to the dead-letter
//! exchange.

use vstd::prelude::*;

use crate::builder_arguments::FieldTable;
use crate::builder_arguments::FieldValue;
use crate::dlx;
use crate::queue::Queue;

verus! {

/// Key name for queue expiry.
pub const XARGS_EXPIRES: &'static str = "x-expires";

/// Options for a queue declare call.
#[derive(Debug, Clone, Copy, PartialEq, Eq, Structural)]
pub struct QueueDeclareOpts {
    /// Delete the queue when the last consumer unsubscribes.
    pub auto_delete: bool,
    /// Survive a broker restart.
    pub durable: bool,
    /// Restrict the queue to this connection.
    pub exclusive: bool,
    /// Do not wait for the broker's confirmation.
    pub nowait: bool,
    /// Only check that the queue exists.
    pub passive: bool,
}

/// The error returned when declaring the queue fails.
#[derive(Debug, Clone)]
pub struct DeclareError(pub String);

/// Builds one queue declaration.
#[derive(Debug, Clone)]
pub struct QueueDeclareBuilder {
    /// The queue's name.
    pub name: String,
    /// Declare options.
    pub opts: QueueDeclareOpts,
    /// Additional declare arguments.
    pub args: FieldTable,
    /// Whether handler failures on this queue are mirrored to the
    /// dead-letter exchange.
    pub dead_lettering: bool,
}

impl QueueDeclareBuilder {
    /// A declaration with the defaults: durable, not auto-deleting, not
    /// exclusive, confirmed, really declared, and with dead-lettering on.
    pub fn new(name: String) -> (r: QueueDeclareBuilder)
        ensures
            r.name == name,
            r.opts == (QueueDeclareOpts {
                auto_delete: false,
                durable: true,
                exclusive: false,
                nowait: false,
                passive: false,
            }),
            r.args@ == Map::<Seq<char>, FieldValue>::empty(),
            r.dead_lettering == true,
    {
        QueueDeclareBuilder {
            name,
            opts: QueueDeclareOpts {
                auto_delete: false,
                durable: true,
                exclusive: false,
                nowait: false,
                passive: false,
            },
            args: FieldTable::new(),
            dead_lettering: true,
        }
    }

    /// Sets the auto-delete option; defaults to off.
    pub fn auto_delete(self, auto_delete: bool) -> (r: QueueDeclareBuilder)
        ensures
            r == (QueueDeclareBuilder { opts: QueueDeclareOpts { auto_delete, ..self.opts }, ..self }),
    {
        QueueDeclareBuilder { opts: QueueDeclareOpts { auto_delete, ..self.opts }, ..self }
    }

    /// Sets the durable option; defaults to on.
    pub fn durable(self, durable: bool) -> (r: QueueDeclareBuilder)
        ensures
            r == (QueueDeclareBuilder { opts: QueueDeclareOpts { durable, ..self.opts }, ..self }),
    {
        QueueDeclareBuilder { opts: QueueDeclareOpts { durable, ..self.opts }, ..self }
    }

    /// Sets the exclusive option; defaults to off.
    pub fn exclusive(self, exclusive: bool) -> (r: QueueDeclareBuilder)
        ensures
            r == (QueueDeclareBuilder { opts: QueueDeclareOpts { exclusive, ..self.opts }, ..self }),
    {
        QueueDeclareBuilder { opts: QueueDeclareOpts { exclusive, ..self.opts }, ..self }
    }

    /// Sets the nowait option; defaults to off.
    pub fn nowait(self, nowait: bool) -> (r: QueueDeclareBuilder)
        ensures
            r == (QueueDeclareBuilder { opts: QueueDeclareOpts { nowait, ..self.opts }, ..self }),
    {
        QueueDeclareBuilder { opts: QueueDeclareOpts { nowait, ..self.opts }, ..self }
    }

    /// Sets the passive option; defaults to off.
    pub fn passive(self, passive: bool) -> (r: QueueDeclareBuilder)
        ensures
            r == (QueueDeclareBuilder { opts: QueueDeclareOpts { passive, ..self.opts }, ..self }),
    {
        QueueDeclareBuilder { opts: QueueDeclareOpts { passive, ..self.opts }, ..self }
    }

    /// Sets the dead-lettering flag; defaults to on.
    pub fn dead_lettering(self, dead_lettering: bool) -> (r: QueueDeclareBuilder)
        ensures
            r == (QueueDeclareBuilder { dead_lettering, ..self }),
    {
        QueueDeclareBuilder { dead_lettering, ..self }
    }

    /// Sets the queue's expiry. The broker's expiry field is 32 bits of
    /// milliseconds; a larger value is rejected.
    pub fn expires(self, expires_ms: u64) -> (r: Result<QueueDeclareBuilder, DeclareError>)
        ensures
            expires_ms <= u32::MAX ==> (r matches Ok(b) && b.name == self.name && b.opts
                == self.opts && b.dead_lettering == self.dead_lettering && b.args@
                == self.args@.insert("x-expires"@, FieldValue::U32(expires_ms as u32))),
            expires_ms > u32::MAX ==> (r matches Err(e) && e.0@
                == "queue expiry must fit 32 bits of milliseconds"@),
    {
        if expires_ms <= u32::MAX as u64 {
            let mut b = self;
            b.args.arg_u32(String::from_str(XARGS_EXPIRES), expires_ms as u32);
            proof {
                reveal_strlit("x-expires");
            }
            Ok(b)
        } else {
            Err(DeclareError(String::from_str("queue expiry must fit 32 bits of milliseconds")))
        }
    }

    /// Finishes the arguments for the declare call: with dead-lettering
    /// on, the dead-letter exchange and routing-key arguments are added to
    /// the caller's own; with it off, the arguments are untouched.
    pub fn with_dead_letter_args(self) -> (r: QueueDeclareBuilder)
        ensures
            r.name == self.name,
            r.opts == self.opts,
            r.dead_lettering == self.dead_lettering,
            !self.dead_lettering ==> r.args == self.args,
            self.dead_lettering ==> r.args@.dom() == self.args@.dom().insert(
                "x-dead-letter-exchange"@,
            ).insert("x-dead-letter-routing-key"@),
            self.dead_lettering ==> (r.args@["x-dead-letter-exchange"@] matches FieldValue::Str(s)
                && s@ == "amq.direct"@),
            self.dead_lettering ==> (r.args@["x-dead-letter-routing-key"@] matches FieldValue::Str(
                s,
            ) && s@ == "dlx.dead_letter"@),
            self.dead_lettering ==> forall|k: Seq<char>|
                self.args@.dom().contains(k) && k != "x-dead-letter-exchange"@ && k
                    != "x-dead-letter-routing-key"@ ==> r.args@[k] == self.args@[k],
    {
        proof {
            reveal_strlit("x-dead-letter-exchange");
            reveal_strlit("x-dead-letter-routing-key");
            assert(dlx::QUEUE_ARGUMENT_KEY_EXCHANGE_NAME@ == "x-dead-letter-exchange"@);
            assert(dlx::QUEUE_ARGUMENT_KEY_ROUTING_KEY@ == "x-dead-letter-routing-key"@);
            assert(dlx::EXCHANGE_NAME@ == "amq.direct"@);
            assert(dlx::ROUTING_KEY_DEAD_LETTER@ == "dlx.dead_letter"@);
        }
        if self.dead_lettering {
            let mut b = self;
            b.args.arg_str(
                String::from_str(dlx::QUEUE_ARGUMENT_KEY_EXCHANGE_NAME),
                String::from_str(dlx::EXCHANGE_NAME),
            );
            b.args.arg_str(
                String::from_str(dlx::QUEUE_ARGUMENT_KEY_ROUTING_KEY),
                String::from_str(dlx::ROUTING_KEY_DEAD_LETTER),
            );
            b
        } else {
            self
        }
    }

    /// The queue descriptor for a completed declaration: the name the
    /// broker confirmed, and this builder's dead-lettering flag.
    pub fn queue_result(&self, declared_name: String) -> (r: Queue)
        ensures
            r.name == declared_name,
            r.dead_lettering == self.dead_lettering,
    {
        Queue { name: declared_name, dead_lettering: self.dead_lettering }
    }
}

} // verus!
