use hare::consumer_handler_result::ConsumerHandlerError;
use hare::delivery::{Delivery, Props};
use hare::dlx::{ErrorData, ErrorDataError, ErrorDataOrigin};

fn delivery(id: Option<&str>) -> Delivery {
    Delivery {
        delivery_tag: 1,
        payload: Vec::new(),
        props: Props {
            message_id: id.map(|s| s.to_string()),
            correlation_id: None,
            app_id: None,
            reply_to: None,
            timestamp: None,
        },
    }
}

#[test]
fn record_encodes_with_stable_field_order() {
    let d = delivery(Some("abc"));
    let err = ConsumerHandlerError::Other("it broke".to_string());
    let record = ErrorData::new("jobs".to_string(), &d, &err);
    let expected = "{\"origin\":{\"messageId\":\"abc\",\"queueName\":\"jobs\"},\"error\":{\"lang\":\"rs\",\"name\":\"ConsumerHandlerError\",\"message\":\"it broke\"}}";
    assert_eq!(record.to_json(), expected.as_bytes());
}

#[test]
fn record_encodes_missing_message_id_as_null() {
    let d = delivery(None);
    let err = ConsumerHandlerError::Other("x".to_string());
    let record = ErrorData::new("jobs".to_string(), &d, &err);
    let text = String::from_utf8(record.to_json()).unwrap();
    assert!(text.starts_with("{\"origin\":{\"messageId\":null,"));
}

#[test]
fn record_escapes_quotes_backslashes_and_controls() {
    let record = ErrorData {
        origin: ErrorDataOrigin { message_id: None, queue_name: "q\"\\".to_string() },
        error: ErrorDataError::Rs {
            name: "E".to_string(),
            message: "line1\nline2\ttab\u{1}".to_string(),
        },
    };
    let text = String::from_utf8(record.to_json()).unwrap();
    assert!(text.contains("\"queueName\":\"q\\\"\\\\\""));
    assert!(text.contains("\"message\":\"line1\\nline2\\ttab\\u0001\""));
}

#[test]
fn record_parses_back_as_json() {
    let d = delivery(Some("id-1"));
    let err = ConsumerHandlerError::Extractor("AppId".to_string(), "app ID is missing".to_string());
    let record = ErrorData::new("work".to_string(), &d, &err);
    let value: serde_json::Value = serde_json::from_slice(&record.to_json()).unwrap();
    assert_eq!(value["origin"]["messageId"], "id-1");
    assert_eq!(value["origin"]["queueName"], "work");
    assert_eq!(value["error"]["lang"], "rs");
    assert_eq!(value["error"]["name"], "ConsumerHandlerError");
    assert_eq!(value["error"]["message"], "AppId extractor failed: app ID is missing");
}

#[test]
fn record_js_variant_carries_stacktrace() {
    let record = ErrorData {
        origin: ErrorDataOrigin { message_id: Some("m".to_string()), queue_name: "q".to_string() },
        error: ErrorDataError::Js {
            name: "TypeError".to_string(),
            message: "oops".to_string(),
            stacktrace: "at foo".to_string(),
        },
    };
    let value: serde_json::Value = serde_json::from_slice(&record.to_json()).unwrap();
    assert_eq!(value["error"]["lang"], "js");
    assert_eq!(value["error"]["stacktrace"], "at foo");
}

#[test]
fn same_inputs_give_byte_identical_records() {
    let d1 = delivery(Some("same"));
    let d2 = delivery(Some("same"));
    let err1 = ConsumerHandlerError::Timeout(300);
    let err2 = ConsumerHandlerError::Timeout(300);
    let a = ErrorData::new("q".to_string(), &d1, &err1).to_json();
    let b = ErrorData::new("q".to_string(), &d2, &err2).to_json();
    assert_eq!(a, b);
}

#[test]
fn error_messages_have_exact_text() {
    assert_eq!(ConsumerHandlerError::Timeout(250).message(), "timeout of 250ms reached");
    assert_eq!(ConsumerHandlerError::Other("why".to_string()).message(), "why");
    assert_eq!(
        ConsumerHandlerError::Extractor("Json".to_string(), "bad".to_string()).message(),
        "Json extractor failed: bad"
    );
}

#[test]
fn dead_letter_wire_names_are_fixed() {
    assert_eq!(hare::dlx::EXCHANGE_NAME, "amq.direct");
    assert_eq!(hare::dlx::ROUTING_KEY_DEAD_LETTER, "dlx.dead_letter");
    assert_eq!(hare::dlx::ROUTING_KEY_ERROR, "dlx.error");
    assert_eq!(hare::dlx::QUEUE_ARGUMENT_KEY_EXCHANGE_NAME, "x-dead-letter-exchange");
    assert_eq!(hare::dlx::QUEUE_ARGUMENT_KEY_ROUTING_KEY, "x-dead-letter-routing-key");
}

#[test]
fn decimal_formatting_is_exact() {
    assert_eq!(hare::util::u64_to_dec(0), "0");
    assert_eq!(hare::util::u64_to_dec(7), "7");
    assert_eq!(hare::util::u64_to_dec(1234567890), "1234567890");
    assert_eq!(hare::util::u64_to_dec(u64::MAX), "18446744073709551615");
}
