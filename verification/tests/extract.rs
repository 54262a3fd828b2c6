use hare::consumer_extract::{AppId, ExtractError, Json, MessageId};
use hare::consumer_handler::{
    attribute_decode_failure, extract_args, ArgValue, ParamKind, ParamSpec, Wrap,
};
use hare::consumer_handler_result::ConsumerHandlerError;
use hare::delivery::{Delivery, Props};

fn delivery(app_id: Option<&str>, message_id: Option<&str>, payload: &[u8]) -> Delivery {
    Delivery {
        delivery_tag: 1,
        payload: payload.to_vec(),
        props: Props {
            message_id: message_id.map(|s| s.to_string()),
            correlation_id: None,
            app_id: app_id.map(|s| s.to_string()),
            reply_to: None,
            timestamp: None,
        },
    }
}

fn param(kind: ParamKind, wrap: Wrap, label: &str) -> ParamSpec {
    ParamSpec { kind, wrap, type_label: label.to_string() }
}

#[test]
fn app_id_extraction_succeeds_when_present() {
    let d = delivery(Some("svc"), None, b"");
    let got = AppId::<String>::from_delivery(&d).unwrap();
    assert_eq!(got.0, "svc");
}

#[test]
fn app_id_extraction_fails_when_missing() {
    let d = delivery(None, None, b"");
    match AppId::<String>::from_delivery(&d) {
        Err(ExtractError::Missing(m)) => assert_eq!(m, "app ID is missing"),
        other => panic!("expected a missing-property failure, got {:?}", other),
    }
}

#[test]
fn message_id_text_extraction() {
    let d = delivery(None, Some("m-9"), b"");
    assert_eq!(MessageId::<String>::from_delivery(&d).unwrap().0, "m-9");
    let none = delivery(None, None, b"");
    match MessageId::<String>::from_delivery(&none) {
        Err(ExtractError::Missing(m)) => assert_eq!(m, "message ID is missing"),
        other => panic!("expected a missing-property failure, got {:?}", other),
    }
}

#[test]
fn message_id_structured_extraction_parses_the_id() {
    let d = delivery(None, Some("550e8400-e29b-41d4-a716-446655440000"), b"");
    let got = MessageId::<u128>::from_delivery(&d).unwrap();
    assert_eq!(got.0, 0x550e8400_e29b_41d4_a716_446655440000u128);
}

#[test]
fn message_id_structured_extraction_rejects_malformed_ids() {
    let d = delivery(None, Some("not-a-uuid"), b"");
    match MessageId::<u128>::from_delivery(&d) {
        Err(ExtractError::Unparseable(m)) => assert_eq!(m, "message ID not parseable"),
        other => panic!("expected an unparseable failure, got {:?}", other),
    }
}

#[test]
fn json_extraction_validates_the_payload() {
    let good = delivery(None, None, b"{\"a\":1}");
    let got = Json::<Vec<u8>>::from_delivery(&good).unwrap();
    assert_eq!(got.0, b"{\"a\":1}".to_vec());

    let bad = delivery(None, None, b"not json");
    match Json::<Vec<u8>>::from_delivery(&bad) {
        Err(ExtractError::Decode(m)) => assert_eq!(m, "message payload not deserializable"),
        other => panic!("expected a decode failure, got {:?}", other),
    }
}

#[test]
fn extraction_failure_names_the_second_parameter() {
    let d = delivery(Some("svc"), None, b"");
    let params = vec![
        param(ParamKind::AppIdText, Wrap::Required, "AppId<String>"),
        param(ParamKind::MessageIdUuid, Wrap::Required, "MessageId<Uuid>"),
    ];
    match extract_args(&d, &params) {
        Err(ConsumerHandlerError::Extractor(name, cause)) => {
            assert_eq!(name, "MessageId<Uuid>");
            assert_eq!(cause, "message ID is missing");
        }
        other => panic!("expected an extractor failure, got {:?}", other),
    }
}

#[test]
fn extraction_is_left_to_right_and_fail_fast() {
    let d = delivery(None, None, b"");
    let params = vec![
        param(ParamKind::AppIdText, Wrap::Required, "AppId<String>"),
        param(ParamKind::MessageIdText, Wrap::Required, "MessageId<String>"),
    ];
    match extract_args(&d, &params) {
        Err(ConsumerHandlerError::Extractor(name, _)) => assert_eq!(name, "AppId<String>"),
        other => panic!("expected an extractor failure, got {:?}", other),
    }
}

#[test]
fn successful_extraction_yields_one_argument_per_parameter() {
    let d = delivery(Some("svc"), Some("m-1"), b"raw");
    let params = vec![
        param(ParamKind::ClientHandle, Wrap::Required, "Client"),
        param(ParamKind::PayloadBytes, Wrap::Required, "Vec<u8>"),
        param(ParamKind::AppIdText, Wrap::Required, "AppId<String>"),
        param(ParamKind::WholeDelivery, Wrap::Required, "Delivery"),
    ];
    let args = extract_args(&d, &params).unwrap();
    assert_eq!(args.len(), 4);
    assert!(matches!(args[0], ArgValue::ClientHandle));
    match &args[1] {
        ArgValue::Bytes(b) => assert_eq!(b, b"raw"),
        other => panic!("expected payload bytes, got {:?}", other),
    }
    match &args[2] {
        ArgValue::Text(s) => assert_eq!(s, "svc"),
        other => panic!("expected the app id, got {:?}", other),
    }
    match &args[3] {
        ArgValue::WholeDelivery(copy) => assert_eq!(copy.delivery_tag, 1),
        other => panic!("expected the delivery, got {:?}", other),
    }
}

#[test]
fn optional_wrapper_turns_failure_into_absence() {
    let d = delivery(None, None, b"");
    let params = vec![param(ParamKind::AppIdText, Wrap::Optional, "Option<AppId<String>>")];
    let args = extract_args(&d, &params).unwrap();
    assert!(matches!(args[0], ArgValue::Absent));
}

#[test]
fn fallible_wrapper_captures_the_failure() {
    let d = delivery(None, None, b"");
    let params = vec![param(ParamKind::AppIdText, Wrap::Fallible, "Result<AppId<String>, E>")];
    let args = extract_args(&d, &params).unwrap();
    match &args[0] {
        ArgValue::Captured(ExtractError::Missing(m)) => assert_eq!(m, "app ID is missing"),
        other => panic!("expected a captured failure, got {:?}", other),
    }
}

#[test]
fn late_decode_failures_are_attributed_to_their_parameter() {
    let params = vec![
        param(ParamKind::JsonPayload, Wrap::Required, "Json<Order>"),
        param(ParamKind::ProtobufPayload, Wrap::Required, "Protobuf<Order>"),
    ];
    match attribute_decode_failure(&params, 1, "bad wire format".to_string()) {
        ConsumerHandlerError::Extractor(name, cause) => {
            assert_eq!(name, "Protobuf<Order>");
            assert_eq!(cause, "bad wire format");
        }
        other => panic!("expected an extractor failure, got {:?}", other),
    }
}

#[test]
fn empty_props_have_nothing_set() {
    let p = Props::empty();
    assert!(p.message_id.is_none());
    assert!(p.correlation_id.is_none());
    assert!(p.app_id.is_none());
    assert!(p.reply_to.is_none());
    assert!(p.timestamp.is_none());
}
