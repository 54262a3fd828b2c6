//! Handler invocation: a handler is an ordinary function of up to eight
//! extractable parameters. Before the call, every parameter is extracted
//! from the delivery in declaration order, failing fast: the first failing
//! extraction aborts the invocation, and the reported failure names that
//! parameter's type.

use vstd::prelude::*;

use crate::consumer_extract::spec_delivery_value;
use crate::consumer_extract::spec_extract_err_msg;
use crate::consumer_extract::spec_json_wf;
use crate::consumer_extract::AppId;
use crate::consumer_extract::ExtractError;
use crate::consumer_extract::Json;
use crate::consumer_extract::MessageId;
use crate::consumer_handler_result::ConsumerHandlerError;
use crate::delivery::Delivery;
use crate::message::spec_parse_id;

verus! {

/// The largest number of parameters a handler may declare.
pub const MAX_HANDLER_ARITY: usize = 8;

/// Which built-in extractor feeds one handler parameter.
#[derive(Debug, Clone, PartialEq, Eq)]
pub enum ParamKind {
    /// The client handle itself; always extractable.
    ClientHandle,
    /// Process-wide shared state; always extractable.
    SharedState,
    /// The delivery itself; always extractable.
    WholeDelivery,
    /// The raw payload bytes; always extractable.
    PayloadBytes,
    /// The application id as text.
    AppIdText,
    /// The message id as text.
    MessageIdText,
    /// The message id in structured form.
    MessageIdUuid,
    /// The payload as a JSON document.
    JsonPayload,
    /// The payload as a binary-protocol message.
    ProtobufPayload,
}

/// How a parameter wraps its extractor.
#[derive(Debug, Clone, PartialEq, Eq)]
pub enum Wrap {
    /// `T`: an extraction failure aborts the invocation.
    Required,
    /// `Option<T>`: an extraction failure becomes absence.
    Optional,
    /// `Result<T, E>`: an extraction failure is handed to the handler.
    Fallible,
}

/// One declared handler parameter: its extractor, its wrapping, and the
/// type name used when attributing a failure to it.
#[derive(Debug, Clone)]
pub struct ParamSpec {
    /// The extractor feeding this parameter.
    pub kind: ParamKind,
    /// How the parameter wraps its extractor.
    pub wrap: Wrap,
    /// The parameter's type name, for failure attribution.
    pub type_label: String,
}

/// One extracted argument value.
#[derive(Debug, Clone)]
pub enum ArgValue {
    /// Stands for the client handle, materialized by the caller.
    ClientHandle,
    /// Stands for the shared state, materialized by the caller.
    SharedState,
    /// The delivery itself.
    WholeDelivery(Delivery),
    /// The raw payload bytes.
    Bytes(Vec<u8>),
    /// A textual property value.
    Text(String),
    /// A structured message id.
    IdValue(u128),
    /// A payload validated as JSON; the typed decode is the caller's.
    JsonBytes(Vec<u8>),
    /// A binary-protocol payload; the typed decode is the caller's.
    ProtobufBytes(Vec<u8>),
    /// An optional parameter whose extraction failed.
    Absent,
    /// A fallible parameter whose extraction failure was captured.
    Captured(ExtractError),
}

/// Whether the base extractor for `k` succeeds on `d`.
pub open spec fn spec_extract_ok(d: Delivery, k: ParamKind) -> bool {
    match k {
        ParamKind::AppIdText => d.props.app_id is Some,
        ParamKind::MessageIdText => d.props.message_id is Some,
        ParamKind::MessageIdUuid => d.props.message_id matches Some(s) && spec_parse_id(s@) is Ok,
        ParamKind::JsonPayload => spec_json_wf(d.payload@),
        _ => true,
    }
}

/// Whether the parameter `p` fails on `d`: only a required parameter whose
/// extractor fails aborts the invocation.
pub open spec fn spec_param_fails(d: Delivery, p: ParamSpec) -> bool {
    p.wrap is Required && !spec_extract_ok(d, p.kind)
}

/// The message reported when the base extractor for `k` fails on `d`.
pub open spec fn spec_extract_err_text(d: Delivery, k: ParamKind) -> Seq<char> {
    match k {
        ParamKind::AppIdText => "app ID is missing"@,
        ParamKind::MessageIdText => "message ID is missing"@,
        ParamKind::MessageIdUuid => if d.props.message_id is None {
            "message ID is missing"@
        } else {
            "message ID not parseable"@
        },
        ParamKind::JsonPayload => "message payload not deserializable"@,
        _ => Seq::empty(),
    }
}

/// Whether `a` is the value the base extractor for `k` yields on `d`.
pub open spec fn spec_base_matches(d: Delivery, k: ParamKind, a: ArgValue) -> bool {
    match k {
        ParamKind::ClientHandle => a is ClientHandle,
        ParamKind::SharedState => a is SharedState,
        ParamKind::WholeDelivery => a matches ArgValue::WholeDelivery(d2) && spec_delivery_value(
            d2,
        ) == spec_delivery_value(d),
        ParamKind::PayloadBytes => a matches ArgValue::Bytes(b) && b@ == d.payload@,
        ParamKind::AppIdText => a matches ArgValue::Text(s) && Some(s@)
            == d.props.app_id.deep_view(),
        ParamKind::MessageIdText => a matches ArgValue::Text(s) && Some(s@)
            == d.props.message_id.deep_view(),
        ParamKind::MessageIdUuid => a matches ArgValue::IdValue(v)
            && (d.props.message_id matches Some(s) && spec_parse_id(s@) == Result::<u128, ()>::Ok(
            v,
        )),
        ParamKind::JsonPayload => a matches ArgValue::JsonBytes(b) && b@ == d.payload@,
        ParamKind::ProtobufPayload => a matches ArgValue::ProtobufBytes(b) && b@ == d.payload@,
    }
}

/// Whether `a` is the value parameter `p` receives on `d`, wrapping
/// included.
pub open spec fn spec_wrapped_matches(d: Delivery, p: ParamSpec, a: ArgValue) -> bool {
    if spec_extract_ok(d, p.kind) {
        spec_base_matches(d, p.kind, a)
    } else {
        match p.wrap {
            Wrap::Required => false,
            Wrap::Optional => a is Absent,
            Wrap::Fallible => a matches ArgValue::Captured(e) && spec_extract_err_msg(e)
                == spec_extract_err_text(d, p.kind),
        }
    }
}

/// The position of the first failing parameter, if any.
pub open spec fn spec_first_failing(d: Delivery, params: Seq<ParamSpec>) -> Option<int>
    decreases params.len(),
{
    if params.len() == 0 {
        None
    } else if spec_param_fails(d, params[0]) {
        Some(0int)
    } else {
        match spec_first_failing(d, params.drop_first()) {
            Some(i) => Some(i + 1),
            None => None,
        }
    }
}

/// If every parameter before `i` succeeds and the parameter at `i` fails,
/// then `i` is the first failing position.
proof fn lemma_first_failing_at(d: Delivery, params: Seq<ParamSpec>, i: int)
    requires
        0 <= i < params.len(),
        spec_param_fails(d, params[i]),
        forall|j: int| 0 <= j < i ==> !spec_param_fails(d, #[trigger] params[j]),
    ensures
        spec_first_failing(d, params) == Some(i),
    decreases params.len(),
{
    if i == 0 {
    } else {
        assert(!spec_param_fails(d, params[0]));
        assert(params.drop_first()[i - 1] == params[i]);
        assert(forall|j: int|
            0 <= j < i - 1 ==> #[trigger] params.drop_first()[j] == params[j + 1]);
        lemma_first_failing_at(d, params.drop_first(), i - 1);
    }
}

/// If no parameter fails, there is no first failing position.
proof fn lemma_first_failing_none(d: Delivery, params: Seq<ParamSpec>)
    requires
        forall|j: int| 0 <= j < params.len() ==> !spec_param_fails(d, #[trigger] params[j]),
    ensures
        spec_first_failing(d, params) is None,
    decreases params.len(),
{
    if params.len() > 0 {
        assert(forall|j: int|
            0 <= j < params.len() - 1 ==> #[trigger] params.drop_first()[j] == params[j + 1]);
        lemma_first_failing_none(d, params.drop_first());
    }
}

/// Runs the base extractor for `k` on `d`.
fn extract_base(d: &Delivery, k: &ParamKind) -> (r: Result<ArgValue, ExtractError>)
    ensures
        spec_extract_ok(*d, *k) ==> (r matches Ok(a) && spec_base_matches(*d, *k, a)),
        !spec_extract_ok(*d, *k) ==> (r matches Err(e) && spec_extract_err_msg(e)
            == spec_extract_err_text(*d, *k)),
{
    match k {
        ParamKind::ClientHandle => Ok(ArgValue::ClientHandle),
        ParamKind::SharedState => Ok(ArgValue::SharedState),
        ParamKind::WholeDelivery => Ok(ArgValue::WholeDelivery(Delivery::from_delivery(d))),
        ParamKind::PayloadBytes => Ok(ArgValue::Bytes(crate::consumer_extract::copy_bytes(&d.payload))),
        ParamKind::AppIdText => match AppId::<String>::from_delivery(d) {
            Ok(a) => Ok(ArgValue::Text(a.0)),
            Err(e) => Err(e),
        },
        ParamKind::MessageIdText => match MessageId::<String>::from_delivery(d) {
            Ok(a) => Ok(ArgValue::Text(a.0)),
            Err(e) => Err(e),
        },
        ParamKind::MessageIdUuid => match MessageId::<u128>::from_delivery(d) {
            Ok(a) => Ok(ArgValue::IdValue(a.0)),
            Err(e) => Err(e),
        },
        ParamKind::JsonPayload => match Json::<Vec<u8>>::from_delivery(d) {
            Ok(a) => Ok(ArgValue::JsonBytes(a.0)),
            Err(e) => Err(e),
        },
        ParamKind::ProtobufPayload => Ok(
            ArgValue::ProtobufBytes(crate::consumer_extract::copy_bytes(&d.payload)),
        ),
    }
}

/// Extracts every declared parameter of a handler from one delivery, in
/// declaration order, failing fast: the first required parameter whose
/// extractor fails aborts the remaining extractions, and the returned
/// failure names exactly that parameter's type. A handler declares at most
/// [`MAX_HANDLER_ARITY`] parameters.
pub fn extract_args(d: &Delivery, params: &Vec<ParamSpec>) -> (r: Result<
    Vec<ArgValue>,
    ConsumerHandlerError,
>)
    requires
        params@.len() <= MAX_HANDLER_ARITY,
    ensures
        match spec_first_failing(*d, params@) {
            None => r matches Ok(args) && args@.len() == params@.len() && (forall|i: int|
                0 <= i < params@.len() ==> spec_wrapped_matches(*d, params@[i], #[trigger] args@[i])),
            Some(i) => r matches Err(e) && (e matches ConsumerHandlerError::Extractor(name, cause)
                && name@ == params@[i].type_label@ && cause@ == spec_extract_err_text(
                *d,
                params@[i].kind,
            )),
        },
{
    let mut args: Vec<ArgValue> = Vec::new();
    let mut idx: usize = 0;
    while idx < params.len()
        invariant
            idx <= params@.len(),
            args@.len() == idx,
            forall|j: int| 0 <= j < idx ==> !spec_param_fails(*d, #[trigger] params@[j]),
            forall|j: int|
                0 <= j < idx ==> spec_wrapped_matches(*d, params@[j], #[trigger] args@[j]),
        decreases params@.len() - idx,
    {
        let p = &params[idx];
        match extract_base(d, &p.kind) {
            Ok(a) => {
                args.push(a);
            },
            Err(e) => match p.wrap {
                Wrap::Required => {
                    proof {
                        lemma_first_failing_at(*d, params@, idx as int);
                    }
                    return Err(ConsumerHandlerError::Extractor(p.type_label.clone(), e.message()));
                },
                Wrap::Optional => {
                    args.push(ArgValue::Absent);
                },
                Wrap::Fallible => {
                    args.push(ArgValue::Captured(e));
                },
            },
        }
        idx = idx + 1;
    }
    proof {
        lemma_first_failing_none(*d, params@);
    }
    Ok(args)
}

/// Builds the failure report for a typed decode that failed at the call
/// site, attributing it to the parameter at `idx`.
pub fn attribute_decode_failure(params: &Vec<ParamSpec>, idx: usize, cause: String) -> (r:
    ConsumerHandlerError)
    requires
        idx < params@.len(),
    ensures
        r matches ConsumerHandlerError::Extractor(name, c) && name@ == params@[idx as int].type_label@
            && c@ == cause@,
{
    ConsumerHandlerError::Extractor(params[idx].type_label.clone(), cause)
}

/// Extraction failure attribution: with two declared parameters where the
/// first extracts successfully and the second fails, the reported failure
/// names the second parameter's type, never the first.
pub proof fn lemma_second_extractor_attribution(d: Delivery, params: Seq<ParamSpec>)
    requires
        params.len() == 2,
        !spec_param_fails(d, params[0]),
        spec_param_fails(d, params[1]),
    ensures
        spec_first_failing(d, params) == Some(1int),
{
    lemma_first_failing_at(d, params, 1);
}

} // verus!
