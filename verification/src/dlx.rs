//! Dead-lettering: the error record that is published when a handler fails,
//! and its structured wire encoding. The record is encoded by this module
//! itself so that the same record always yields byte-identical output.

use vstd::prelude::*;
use vstd::string::StringSliceAdditionalSpecFns;

use crate::consumer_handler_result::spec_error_message;
use crate::consumer_handler_result::ConsumerHandlerError;
use crate::delivery::Delivery;

verus! {

/// Dead-lettering exchange the dead-letter handler is subscribed to.
pub const EXCHANGE_NAME: &'static str = "amq.direct";

/// Routing key for broker-dead-lettered messages.
pub const ROUTING_KEY_DEAD_LETTER: &'static str = "dlx.dead_letter";

/// Routing key for application-forwarded error records.
pub const ROUTING_KEY_ERROR: &'static str = "dlx.error";

/// Queue argument naming the dead-letter exchange.
pub const QUEUE_ARGUMENT_KEY_EXCHANGE_NAME: &'static str = "x-dead-letter-exchange";

/// Queue argument naming the dead-letter routing key.
pub const QUEUE_ARGUMENT_KEY_ROUTING_KEY: &'static str = "x-dead-letter-routing-key";

/// Where an error originated: the message that caused it and the queue it
/// was consumed from.
#[derive(Debug, Clone)]
pub struct ErrorDataOrigin {
    /// Message that resulted in the error, if it carried an id.
    pub message_id: Option<String>,
    /// Queue the message was consumed from.
    pub queue_name: String,
}

/// Language-specific error information, tagged so consumers written in
/// different runtimes can share one dead-letter schema.
#[derive(Debug, Clone)]
pub enum ErrorDataError {
    /// An error raised by a consumer of this library.
    Rs {
        /// Error type name.
        name: String,
        /// Error message.
        message: String,
    },
    /// An error raised by a JavaScript consumer.
    Js {
        /// Error name.
        name: String,
        /// Error message.
        message: String,
        /// Error stack trace.
        stacktrace: String,
    },
}

/// The payload published to the dead-letter exchange when a handler fails.
#[derive(Debug, Clone)]
pub struct ErrorData {
    /// Message id and origin queue.
    pub origin: ErrorDataOrigin,
    /// The error itself.
    pub error: ErrorDataError,
}

impl ErrorData {
    /// Builds the record for a failed delivery: the origin is the delivery's
    /// message id (if any) and the queue it was consumed from; the error part
    /// carries this library's error type name and the failure's message.
    pub fn new(queue_name: String, delivery: &Delivery, err: &ConsumerHandlerError) -> (r:
        ErrorData)
        ensures
            r.origin.message_id.deep_view() == delivery.props.message_id.deep_view(),
            r.origin.queue_name@ == queue_name@,
            r.error matches ErrorDataError::Rs { name, message } && name@ == "ConsumerHandlerError"@
                && message@ == spec_error_message(*err),
    {
        let message_id = match &delivery.props.message_id {
            Some(id) => Some(id.clone()),
            None => None,
        };
        ErrorData {
            origin: ErrorDataOrigin { message_id, queue_name },
            error: ErrorDataError::Rs {
                name: String::from_str("ConsumerHandlerError"),
                message: err.message(),
            },
        }
    }
}

/// A lowercase hexadecimal digit as an ASCII byte.
pub open spec fn spec_hex_digit(d: nat) -> u8 {
    if d < 10 {
        (0x30 + d) as u8
    } else {
        (0x61 + (d - 10)) as u8
    }
}

/// How one payload byte is escaped inside an encoded string: quote and
/// backslash get a backslash escape, the common control characters get their
/// short escapes, the remaining control bytes a `\u00XX` escape, and every
/// other byte stands for itself.
pub open spec fn spec_json_escape_byte(b: u8) -> Seq<u8> {
    if b == 0x22 {
        seq![0x5c, 0x22]
    } else if b == 0x5c {
        seq![0x5c, 0x5c]
    } else if b == 0x08 {
        seq![0x5c, 0x62]
    } else if b == 0x09 {
        seq![0x5c, 0x74]
    } else if b == 0x0a {
        seq![0x5c, 0x6e]
    } else if b == 0x0c {
        seq![0x5c, 0x66]
    } else if b == 0x0d {
        seq![0x5c, 0x72]
    } else if b < 0x20 {
        seq![0x5c, 0x75, 0x30, 0x30, spec_hex_digit((b / 16) as nat), spec_hex_digit(
            (b % 16) as nat,
        )]
    } else {
        seq![b]
    }
}

/// The escaped form of a whole byte sequence.
pub open spec fn spec_json_escape(s: Seq<u8>) -> Seq<u8>
    decreases s.len(),
{
    if s.len() == 0 {
        Seq::empty()
    } else {
        spec_json_escape(s.drop_last()) + spec_json_escape_byte(s.last())
    }
}

/// A quoted, escaped encoded string.
pub open spec fn spec_json_string(s: Seq<u8>) -> Seq<u8> {
    seq![0x22u8] + spec_json_escape(s) + seq![0x22u8]
}

/// The UTF-8 bytes of a string value.
pub open spec fn spec_str_bytes(s: Seq<char>) -> Seq<u8> {
    vstd::utf8::encode_utf8(s)
}

/// The encoding of the error part, over the field values: a `lang`
/// discriminant first, then the variant's fields in declaration order. A
/// stack trace is present exactly on the JavaScript variant.
pub open spec fn spec_error_json_v(
    name: Seq<char>,
    message: Seq<char>,
    stacktrace: Option<Seq<char>>,
) -> Seq<u8> {
    match stacktrace {
        None => ("{\"lang\":\"rs\",\"name\":").spec_bytes() + spec_json_string(
            spec_str_bytes(name),
        ) + (",\"message\":").spec_bytes() + spec_json_string(spec_str_bytes(message)) + (
        "}").spec_bytes(),
        Some(st) => ("{\"lang\":\"js\",\"name\":").spec_bytes() + spec_json_string(
            spec_str_bytes(name),
        ) + (",\"message\":").spec_bytes() + spec_json_string(spec_str_bytes(message)) + (
        ",\"stacktrace\":").spec_bytes() + spec_json_string(spec_str_bytes(st)) + (
        "}").spec_bytes(),
    }
}

/// The encoding of a whole record, over the field values: field names in
/// lower camel case, fields in declaration order, an absent message id
/// encoded as `null`. The encoding is a function of the values alone.
pub open spec fn spec_record_json_v(
    message_id: Option<Seq<char>>,
    queue_name: Seq<char>,
    name: Seq<char>,
    message: Seq<char>,
    stacktrace: Option<Seq<char>>,
) -> Seq<u8> {
    ("{\"origin\":{\"messageId\":").spec_bytes() + (match message_id {
        Some(id) => spec_json_string(spec_str_bytes(id)),
        None => ("null").spec_bytes(),
    }) + (",\"queueName\":").spec_bytes() + spec_json_string(spec_str_bytes(queue_name)) + (
    "},\"error\":").spec_bytes() + spec_error_json_v(name, message, stacktrace) + (
    "}").spec_bytes()
}

/// The encoding of the error part of a record.
pub open spec fn spec_error_json(e: ErrorDataError) -> Seq<u8> {
    match e {
        ErrorDataError::Rs { name, message } => spec_error_json_v(name@, message@, None),
        ErrorDataError::Js { name, message, stacktrace } => spec_error_json_v(
            name@,
            message@,
            Some(stacktrace@),
        ),
    }
}

/// The encoding of a whole record.
pub open spec fn spec_record_json(r: ErrorData) -> Seq<u8> {
    match r.error {
        ErrorDataError::Rs { name, message } => spec_record_json_v(
            r.origin.message_id.deep_view(),
            r.origin.queue_name@,
            name@,
            message@,
            None,
        ),
        ErrorDataError::Js { name, message, stacktrace } => spec_record_json_v(
            r.origin.message_id.deep_view(),
            r.origin.queue_name@,
            name@,
            message@,
            Some(stacktrace@),
        ),
    }
}

/// Appends the bytes of `s` to `out`.
fn push_str_bytes(out: &mut Vec<u8>, s: &str)
    ensures
        final(out)@ == old(out)@ + s.spec_bytes(),
{
    let bs = s.as_bytes();
    let mut i: usize = 0;
    while i < bs.len()
        invariant
            i <= bs.len(),
            bs@ == s.spec_bytes(),
            out@ == old(out)@ + bs@.take(i as int),
        decreases bs.len() - i,
    {
        out.push(bs[i]);
        i = i + 1;
        proof {
            assert(bs@.take(i as int) =~= bs@.take(i as int - 1).push(bs@[i as int - 1]));
        }
    }
    proof {
        assert(bs@.take(bs@.len() as int) =~= bs@);
    }
}

/// Appends the escape sequence for one byte to `out`.
fn push_escaped_byte(out: &mut Vec<u8>, b: u8)
    ensures
        final(out)@ == old(out)@ + spec_json_escape_byte(b),
{
    if b == 0x22 {
        out.push(0x5c);
        out.push(0x22);
    } else if b == 0x5c {
        out.push(0x5c);
        out.push(0x5c);
    } else if b == 0x08 {
        out.push(0x5c);
        out.push(0x62);
    } else if b == 0x09 {
        out.push(0x5c);
        out.push(0x74);
    } else if b == 0x0a {
        out.push(0x5c);
        out.push(0x6e);
    } else if b == 0x0c {
        out.push(0x5c);
        out.push(0x66);
    } else if b == 0x0d {
        out.push(0x5c);
        out.push(0x72);
    } else if b < 0x20 {
        out.push(0x5c);
        out.push(0x75);
        out.push(0x30);
        out.push(0x30);
        let hi = b / 16;
        let lo = b % 16;
        out.push(if hi < 10 {
            0x30 + hi
        } else {
            0x61 + (hi - 10)
        });
        out.push(if lo < 10 {
            0x30 + lo
        } else {
            0x61 + (lo - 10)
        });
    } else {
        out.push(b);
    }
    proof {
        assert(out@ =~= old(out)@ + spec_json_escape_byte(b));
    }
}

/// Appends the quoted, escaped encoding of `s` to `out`.
fn push_json_string(out: &mut Vec<u8>, s: &str)
    ensures
        final(out)@ == old(out)@ + spec_json_string(s.spec_bytes()),
{
    out.push(0x22);
    let bs = s.as_bytes();
    let mut i: usize = 0;
    while i < bs.len()
        invariant
            i <= bs.len(),
            bs@ == s.spec_bytes(),
            out@ == old(out)@ + seq![0x22u8] + spec_json_escape(bs@.take(i as int)),
        decreases bs.len() - i,
    {
        proof {
            assert(bs@.take(i as int + 1).drop_last() =~= bs@.take(i as int));
            assert(bs@.take(i as int + 1).last() == bs@[i as int]);
        }
        push_escaped_byte(out, bs[i]);
        i = i + 1;
    }
    proof {
        assert(bs@.take(bs@.len() as int) =~= bs@);
    }
    out.push(0x22);
    proof {
        assert(out@ =~= old(out)@ + spec_json_string(s.spec_bytes()));
    }
}

impl ErrorData {
    /// Encodes the record. The output is a pure function of the record's
    /// field values, so encoding the same record twice yields byte-identical
    /// payloads.
    pub fn to_json(&self) -> (r: Vec<u8>)
        ensures
            r@ == spec_record_json(*self),
    {
        let mut out: Vec<u8> = Vec::new();
        push_str_bytes(&mut out, "{\"origin\":{\"messageId\":");
        match &self.origin.message_id {
            Some(id) => push_json_string(&mut out, id.as_str()),
            None => push_str_bytes(&mut out, "null"),
        }
        push_str_bytes(&mut out, ",\"queueName\":");
        push_json_string(&mut out, self.origin.queue_name.as_str());
        push_str_bytes(&mut out, "},\"error\":");
        match &self.error {
            ErrorDataError::Rs { name, message } => {
                push_str_bytes(&mut out, "{\"lang\":\"rs\",\"name\":");
                push_json_string(&mut out, name.as_str());
                push_str_bytes(&mut out, ",\"message\":");
                push_json_string(&mut out, message.as_str());
                push_str_bytes(&mut out, "}");
            },
            ErrorDataError::Js { name, message, stacktrace } => {
                push_str_bytes(&mut out, "{\"lang\":\"js\",\"name\":");
                push_json_string(&mut out, name.as_str());
                push_str_bytes(&mut out, ",\"message\":");
                push_json_string(&mut out, message.as_str());
                push_str_bytes(&mut out, ",\"stacktrace\":");
                push_json_string(&mut out, stacktrace.as_str());
                push_str_bytes(&mut out, "}");
            },
        }
        push_str_bytes(&mut out, "}");
        proof {
            assert(out@ =~= spec_record_json(*self));
        }
        out
    }
}

/// The value content of a record: everything its encoding may depend on.
pub open spec fn spec_record_value(r: ErrorData) -> (
    Option<Seq<char>>,
    Seq<char>,
    Option<(Seq<char>, Seq<char>, Option<Seq<char>>)>,
) {
    (
        r.origin.message_id.deep_view(),
        r.origin.queue_name@,
        match r.error {
            ErrorDataError::Rs { name, message } => Some((name@, message@, None)),
            ErrorDataError::Js { name, message, stacktrace } => Some(
                (name@, message@, Some(stacktrace@)),
            ),
        },
    )
}

/// Repeatedly constructing a dead-letter record from the same delivery and
/// error yields byte-identical encoded output: the encoding depends on the
/// record's field values alone, never on wall-clock state or identity.
pub proof fn lemma_record_json_deterministic(a: ErrorData, b: ErrorData)
    requires
        spec_record_value(a) == spec_record_value(b),
    ensures
        spec_record_json(a) == spec_record_json(b),
{
    match (a.origin.message_id, b.origin.message_id) {
        (Some(x), Some(y)) => {
            assert(x@ == y@);
        },
        (None, None) => {
        },
        _ => {
            assert(false);
        },
    }
    match (a.error, b.error) {
        (
            ErrorDataError::Rs { name: n1, message: m1 },
            ErrorDataError::Rs { name: n2, message: m2 },
        ) => {
            assert(n1@ == n2@ && m1@ == m2@);
        },
        (
            ErrorDataError::Js { name: n1, message: m1, stacktrace: s1 },
            ErrorDataError::Js { name: n2, message: m2, stacktrace: s2 },
        ) => {
            assert(n1@ == n2@ && m1@ == m2@ && s1@ == s2@);
        },
        _ => {
            assert(false);
        },
    }
}

} // verus!
