//! Declaring an exchange: its kind, options, and extra arguments.

use vstd::prelude::*;

use crate::builder_arguments::FieldTable;
use crate::builder_arguments::FieldValue;

verus! {

/// The kind of an exchange.
#[derive(Debug, Clone, PartialEq)]
pub enum ExchangeKind {
    /// Route on an exact routing-key match.
    Direct,
    /// Route to every bound queue.
    Fanout,
    /// Route on header values.
    Headers,
    /// Route on a routing-key pattern.
    Topic,
    /// A broker-specific kind under its own name.
    Custom(String),
}

/// Options for an exchange declare call.
#[derive(Debug, Clone, Copy, PartialEq, Eq, Structural)]
pub struct ExchangeDeclareOpts {
    /// Delete the exchange when the last binding is removed.
    pub auto_delete: bool,
    /// Survive a broker restart.
    pub durable: bool,
    /// Accept publishes only from other exchanges.
    pub internal: bool,
    /// Do not wait for the broker's confirmation.
    pub nowait: bool,
    /// Only check that the exchange exists.
    pub passive: bool,
}

/// The error returned when declaring the exchange fails.
#[derive(Debug, Clone)]
pub struct DeclareError(pub String);

/// Builds one exchange declaration.
#[derive(Debug, Clone)]
pub struct ExchangeDeclareBuilder {
    /// The exchange's name.
    pub name: String,
    /// The exchange's kind.
    pub kind: ExchangeKind,
    /// Declare options.
    pub opts: ExchangeDeclareOpts,
    /// Additional declare arguments.
    pub args: FieldTable,
}

impl ExchangeDeclareBuilder {
    /// A declaration with the defaults: durable and nothing else.
    pub fn new(name: String, kind: ExchangeKind) -> (r: ExchangeDeclareBuilder)
        ensures
            r.name == name,
            r.kind == kind,
            r.opts == (ExchangeDeclareOpts {
                auto_delete: false,
                durable: true,
                internal: false,
                nowait: false,
                passive: false,
            }),
            r.args@ == Map::<Seq<char>, FieldValue>::empty(),
    {
        ExchangeDeclareBuilder {
            name,
            kind,
            opts: ExchangeDeclareOpts {
                auto_delete: false,
                durable: true,
                internal: false,
                nowait: false,
                passive: false,
            },
            args: FieldTable::new(),
        }
    }

    /// Sets the auto-delete option; defaults to off.
    pub fn auto_delete(self, auto_delete: bool) -> (r: ExchangeDeclareBuilder)
        ensures
            r == (ExchangeDeclareBuilder {
                opts: ExchangeDeclareOpts { auto_delete, ..self.opts },
                ..self
            }),
    {
        ExchangeDeclareBuilder { opts: ExchangeDeclareOpts { auto_delete, ..self.opts }, ..self }
    }

    /// Sets the durable option; defaults to on.
    pub fn durable(self, durable: bool) -> (r: ExchangeDeclareBuilder)
        ensures
            r == (ExchangeDeclareBuilder {
                opts: ExchangeDeclareOpts { durable, ..self.opts },
                ..self
            }),
    {
        ExchangeDeclareBuilder { opts: ExchangeDeclareOpts { durable, ..self.opts }, ..self }
    }

    /// Sets the internal option; defaults to off.
    pub fn internal(self, internal: bool) -> (r: ExchangeDeclareBuilder)
        ensures
            r == (ExchangeDeclareBuilder {
                opts: ExchangeDeclareOpts { internal, ..self.opts },
                ..self
            }),
    {
        ExchangeDeclareBuilder { opts: ExchangeDeclareOpts { internal, ..self.opts }, ..self }
    }

    /// Sets the nowait option; defaults to off.
    pub fn nowait(self, nowait: bool) -> (r: ExchangeDeclareBuilder)
        ensures
            r == (ExchangeDeclareBuilder {
                opts: ExchangeDeclareOpts { nowait, ..self.opts },
                ..self
            }),
    {
        ExchangeDeclareBuilder { opts: ExchangeDeclareOpts { nowait, ..self.opts }, ..self }
    }

    /// Sets the passive option; defaults to off.
    pub fn passive(self, passive: bool) -> (r: ExchangeDeclareBuilder)
        ensures
            r == (ExchangeDeclareBuilder {
                opts: ExchangeDeclareOpts { passive, ..self.opts },
                ..self
            }),
    {
        ExchangeDeclareBuilder { opts: ExchangeDeclareOpts { passive, ..self.opts }, ..self }
    }
}

} // verus!
