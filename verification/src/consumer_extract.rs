//! Extractors: typed conversions from a delivery to one handler argument,
//! each independently failable. Extraction never mutates the delivery.

use vstd::prelude::*;

use crate::delivery::Delivery;
use crate::delivery::Props;
use crate::message::parse_id;
use crate::message::spec_parse_id;

verus! {

/// Why one extraction failed.
#[derive(Debug, Clone, PartialEq, Eq)]
pub enum ExtractError {
    /// A required delivery property is absent.
    Missing(String),
    /// A property is present but malformed.
    Unparseable(String),
    /// The payload could not be decoded.
    Decode(String),
}

/// The message carried by an extraction failure.
pub open spec fn spec_extract_err_msg(e: ExtractError) -> Seq<char> {
    match e {
        ExtractError::Missing(m) => m@,
        ExtractError::Unparseable(m) => m@,
        ExtractError::Decode(m) => m@,
    }
}

impl ExtractError {
    /// The failure's message.
    pub fn message(&self) -> (s: String)
        ensures
            s@ == spec_extract_err_msg(*self),
    {
        match self {
            ExtractError::Missing(m) => m.clone(),
            ExtractError::Unparseable(m) => m.clone(),
            ExtractError::Decode(m) => m.clone(),
        }
    }
}

/// Gets `Self` from a reference of `T`.
pub trait FromRef<T>: Sized {
    /// Gets `Self` from a reference of `T`.
    fn from_ref(value: &T) -> Self;
}

impl<T: Clone> FromRef<T> for T {
    fn from_ref(value: &T) -> Self {
        value.clone()
    }
}

/// Shared-state extractor: hands the handler a value derived from the
/// process-wide state. Extraction always succeeds.
#[derive(Debug, Clone)]
pub struct State<S>(pub S);

impl<S> State<S> {
    /// Extracts a value of `S` from the shared state `T`.
    pub fn from_state<T>(state: &T) -> (r: State<S>) where S: FromRef<T> {
        State(S::from_ref(state))
    }
}

/// Application-id extractor.
#[derive(Debug, Clone)]
pub struct AppId<T>(pub T);

impl AppId<String> {
    /// Extracts the delivery's application id; fails with
    /// [`ExtractError::Missing`] when the property is absent.
    pub fn from_delivery(d: &Delivery) -> (r: Result<AppId<String>, ExtractError>)
        ensures
            match (r, d.props.app_id) {
                (Ok(a), Some(s)) => a.0@ == s@,
                (Err(e), None) => e matches ExtractError::Missing(m) && m@
                    == "app ID is missing"@,
                _ => false,
            },
    {
        match &d.props.app_id {
            Some(s) => Ok(AppId(s.clone())),
            None => Err(ExtractError::Missing(String::from_str("app ID is missing"))),
        }
    }
}

/// Message-id extractor.
#[derive(Debug, Clone)]
pub struct MessageId<T>(pub T);

impl MessageId<String> {
    /// Extracts the delivery's message id as text; fails with
    /// [`ExtractError::Missing`] when the property is absent.
    pub fn from_delivery(d: &Delivery) -> (r: Result<MessageId<String>, ExtractError>)
        ensures
            match (r, d.props.message_id) {
                (Ok(a), Some(s)) => a.0@ == s@,
                (Err(e), None) => e matches ExtractError::Missing(m) && m@
                    == "message ID is missing"@,
                _ => false,
            },
    {
        match &d.props.message_id {
            Some(s) => Ok(MessageId(s.clone())),
            None => Err(ExtractError::Missing(String::from_str("message ID is missing"))),
        }
    }
}

impl MessageId<u128> {
    /// Extracts the delivery's message id in structured form: fails with
    /// [`ExtractError::Missing`] when absent and
    /// [`ExtractError::Unparseable`] when present but not a valid id.
    pub fn from_delivery(d: &Delivery) -> (r: Result<MessageId<u128>, ExtractError>)
        ensures
            match d.props.message_id {
                None => r matches Err(e) && e matches ExtractError::Missing(m) && m@
                    == "message ID is missing"@,
                Some(s) => match spec_parse_id(s@) {
                    Ok(v) => r == Result::<MessageId<u128>, ExtractError>::Ok(MessageId(v)),
                    Err(()) => r matches Err(e) && e matches ExtractError::Unparseable(m) && m@
                        == "message ID not parseable"@,
                },
            },
    {
        match &d.props.message_id {
            None => Err(ExtractError::Missing(String::from_str("message ID is missing"))),
            Some(s) => match parse_id(s.as_str()) {
                Ok(v) => Ok(MessageId(v)),
                Err(()) => Err(
                    ExtractError::Unparseable(String::from_str("message ID not parseable")),
                ),
            },
        }
    }
}

/// Whether the bytes parse as one JSON document. Parsing is a deterministic
/// function of the bytes alone.
pub uninterp spec fn spec_json_wf(bytes: Seq<u8>) -> bool;

/// Relies on `serde_json::from_slice` for `serde_json::Value`: it accepts
/// exactly the well-formed JSON documents, deterministically in the bytes.
#[verifier::external_body]
fn json_syntax_ok(bytes: &[u8]) -> (r: bool)
    ensures
        r == spec_json_wf(bytes@),
{
    serde_json::from_slice::<serde_json::Value>(bytes).is_ok()
}

/// JSON payload extractor. The library checks the payload is a well-formed
/// document and hands its bytes on; the typed decode into the handler's
/// parameter happens at the call site that knows the type.
#[derive(Debug, Clone)]
pub struct Json<T>(pub T);

impl Json<Vec<u8>> {
    /// Validates the payload as JSON; fails with [`ExtractError::Decode`] on
    /// malformed bytes.
    pub fn from_delivery(d: &Delivery) -> (r: Result<Json<Vec<u8>>, ExtractError>)
        ensures
            spec_json_wf(d.payload@) ==> (r matches Ok(j) && j.0@ == d.payload@),
            !spec_json_wf(d.payload@) ==> (r matches Err(e) && e matches ExtractError::Decode(m)
                && m@ == "message payload not deserializable"@),
    {
        if json_syntax_ok(d.payload.as_slice()) {
            Ok(Json(copy_bytes(&d.payload)))
        } else {
            Err(ExtractError::Decode(String::from_str("message payload not deserializable")))
        }
    }
}

/// Binary-protocol payload extractor. The decode depends on the target
/// message type's generated implementation, so it happens at the call site
/// that knows the type; the library hands the raw bytes on.
#[derive(Debug, Clone)]
pub struct Protobuf<T>(pub T);

/// Copies a payload byte vector.
pub fn copy_bytes(b: &Vec<u8>) -> (r: Vec<u8>)
    ensures
        r@ == b@,
{
    let mut out: Vec<u8> = Vec::new();
    let mut i: usize = 0;
    while i < b.len()
        invariant
            i <= b.len(),
            out@ == b@.take(i as int),
        decreases b.len() - i,
    {
        out.push(b[i]);
        i = i + 1;
        proof {
            assert(b@.take(i as int) =~= b@.take(i as int - 1).push(b@[i as int - 1]));
        }
    }
    proof {
        assert(b@.take(b@.len() as int) =~= b@);
    }
    out
}

/// The value content of a property bag.
pub open spec fn spec_props_value(p: Props) -> (
    Option<Seq<char>>,
    Option<Seq<char>>,
    Option<Seq<char>>,
    Option<Seq<char>>,
    Option<u64>,
) {
    (
        p.message_id.deep_view(),
        p.correlation_id.deep_view(),
        p.app_id.deep_view(),
        p.reply_to.deep_view(),
        p.timestamp,
    )
}

/// The value content of a delivery.
pub open spec fn spec_delivery_value(d: Delivery) -> (u64, Seq<u8>, (
    Option<Seq<char>>,
    Option<Seq<char>>,
    Option<Seq<char>>,
    Option<Seq<char>>,
    Option<u64>,
)) {
    (d.delivery_tag, d.payload@, spec_props_value(d.props))
}

/// Copies an optional string property.
fn copy_opt_string(s: &Option<String>) -> (r: Option<String>)
    ensures
        r.deep_view() == s.deep_view(),
{
    match s {
        Some(v) => Some(v.clone()),
        None => None,
    }
}

impl Delivery {
    /// Extracts the delivery itself: a value-equal copy, since a delivery is
    /// shared by many extractors and never mutated.
    pub fn from_delivery(d: &Delivery) -> (r: Delivery)
        ensures
            spec_delivery_value(r) == spec_delivery_value(*d),
    {
        Delivery {
            delivery_tag: d.delivery_tag,
            payload: copy_bytes(&d.payload),
            props: Props {
                message_id: copy_opt_string(&d.props.message_id),
                correlation_id: copy_opt_string(&d.props.correlation_id),
                app_id: copy_opt_string(&d.props.app_id),
                reply_to: copy_opt_string(&d.props.reply_to),
                timestamp: d.props.timestamp,
            },
        }
    }
}

} // verus!
