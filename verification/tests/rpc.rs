use hare::delivery::{Delivery, Props};
use hare::rpc_builder::{
    check_correlation, response_queue_name, rpc_expiry_ms, run_rpc, CallError, RpcBuilder,
    RpcEvent, RpcPhase,
};

fn response(correlation_id: Option<&str>, payload: &[u8]) -> Delivery {
    Delivery {
        delivery_tag: 1,
        payload: payload.to_vec(),
        props: Props {
            message_id: None,
            correlation_id: correlation_id.map(|s| s.to_string()),
            app_id: None,
            reply_to: None,
            timestamp: None,
        },
    }
}

#[test]
fn rpc_builder_defaults() {
    let b = RpcBuilder::new("requests".to_string());
    assert_eq!(b.request_queue_name, "requests");
    assert_eq!(b.timeout_ms, 10_000);
    let b = b.timeout_duration(2_000);
    assert_eq!(b.timeout_ms, 2_000);
}

#[test]
fn expiry_is_timeout_plus_margin() {
    assert_eq!(rpc_expiry_ms(1_000), Ok(1_500));
    assert_eq!(rpc_expiry_ms(u32::MAX as u64 - 500), Ok(u32::MAX));
}

#[test]
fn oversized_timeout_is_rejected() {
    assert_eq!(rpc_expiry_ms(u32::MAX as u64 - 499), Err(CallError::TimeoutTooBig));
    assert_eq!(rpc_expiry_ms(u64::MAX), Err(CallError::TimeoutTooBig));
}

#[test]
fn reply_queue_name_has_the_fixed_prefix() {
    assert_eq!(response_queue_name(&"abc".to_string()), "rpc_response_queue_abc");
}

#[test]
fn correlation_check_accepts_only_the_request_id() {
    let mid = "m-42".to_string();
    assert!(check_correlation(&mid, &Some("m-42".to_string())).is_ok());
    match check_correlation(&mid, &Some("m-43".to_string())) {
        Err(CallError::CorrelationIdMismatch(m)) => {
            assert_eq!(m, "response message correlation_id does not match")
        }
        other => panic!("expected a mismatch failure, got {:?}", other),
    }
    match check_correlation(&mid, &None) {
        Err(CallError::CorrelationIdMismatch(m)) => {
            assert_eq!(m, "response message is missing correlation_id")
        }
        other => panic!("expected a mismatch failure, got {:?}", other),
    }
}

fn drive(message_id: &str, events: Vec<RpcEvent>) -> RpcPhase {
    run_rpc(&message_id.to_string(), events)
}

#[test]
fn round_trip_returns_the_response_payload() {
    let phase = drive(
        "m-1",
        vec![
            RpcEvent::DeclareOk,
            RpcEvent::PublishOk,
            RpcEvent::ChannelOk,
            RpcEvent::ConsumeOk,
            RpcEvent::ResponseDelivery(response(Some("m-1"), b"42")),
            RpcEvent::DecodeOk,
            RpcEvent::PurgeOk,
        ],
    );
    match phase {
        RpcPhase::Finished(Ok(payload)) => assert_eq!(payload, b"42".to_vec()),
        other => panic!("expected a successful call, got {:?}", other),
    }
}

#[test]
fn mismatched_correlation_fails_the_call() {
    let phase = drive(
        "m-1",
        vec![
            RpcEvent::DeclareOk,
            RpcEvent::PublishOk,
            RpcEvent::ChannelOk,
            RpcEvent::ConsumeOk,
            RpcEvent::ResponseDelivery(response(Some("other"), b"42")),
        ],
    );
    assert!(matches!(
        phase,
        RpcPhase::Finished(Err(CallError::CorrelationIdMismatch(_)))
    ));
}

#[test]
fn missing_correlation_fails_the_call() {
    let phase = drive(
        "m-1",
        vec![
            RpcEvent::DeclareOk,
            RpcEvent::PublishOk,
            RpcEvent::ChannelOk,
            RpcEvent::ConsumeOk,
            RpcEvent::ResponseDelivery(response(None, b"42")),
        ],
    );
    assert!(matches!(
        phase,
        RpcPhase::Finished(Err(CallError::CorrelationIdMismatch(_)))
    ));
}

#[test]
fn timeout_fails_the_call_and_skips_the_purge() {
    let phase = drive(
        "m-1",
        vec![
            RpcEvent::DeclareOk,
            RpcEvent::PublishOk,
            RpcEvent::ChannelOk,
            RpcEvent::ConsumeOk,
            RpcEvent::ResponseTimeout,
            RpcEvent::PurgeOk,
        ],
    );
    assert!(matches!(phase, RpcPhase::Finished(Err(CallError::TimeoutReached))));
}

#[test]
fn each_setup_failure_maps_to_its_own_error() {
    let phase = drive("m", vec![RpcEvent::DeclareErr("no".to_string())]);
    assert!(matches!(phase, RpcPhase::Finished(Err(CallError::QueueDeclare(_)))));
    let phase = drive("m", vec![RpcEvent::DeclareOk, RpcEvent::PublishErr("no".to_string())]);
    assert!(matches!(phase, RpcPhase::Finished(Err(CallError::PublishRequest(_)))));
    let phase = drive(
        "m",
        vec![RpcEvent::DeclareOk, RpcEvent::PublishOk, RpcEvent::ChannelErr("no".to_string())],
    );
    assert!(matches!(phase, RpcPhase::Finished(Err(CallError::Channel(_)))));
    let phase = drive(
        "m",
        vec![
            RpcEvent::DeclareOk,
            RpcEvent::PublishOk,
            RpcEvent::ChannelOk,
            RpcEvent::ConsumeErr("no".to_string()),
        ],
    );
    assert!(matches!(phase, RpcPhase::Finished(Err(CallError::ConsumeResponse(_)))));
}

#[test]
fn stream_end_and_stream_error_have_their_own_kinds() {
    let setup = || {
        vec![RpcEvent::DeclareOk, RpcEvent::PublishOk, RpcEvent::ChannelOk, RpcEvent::ConsumeOk]
    };
    let mut events = setup();
    events.push(RpcEvent::ResponseClosed);
    assert!(matches!(
        drive("m", events),
        RpcPhase::Finished(Err(CallError::ConsumerCanceled))
    ));
    let mut events = setup();
    events.push(RpcEvent::ResponseErr("io".to_string()));
    assert!(matches!(drive("m", events), RpcPhase::Finished(Err(CallError::Delivery(_)))));
}

#[test]
fn decode_and_purge_failures_have_their_own_kinds() {
    let setup = |tail: Vec<RpcEvent>| {
        let mut events = vec![
            RpcEvent::DeclareOk,
            RpcEvent::PublishOk,
            RpcEvent::ChannelOk,
            RpcEvent::ConsumeOk,
            RpcEvent::ResponseDelivery(response(Some("m"), b"x")),
        ];
        events.extend(tail);
        events
    };
    assert!(matches!(
        drive("m", setup(vec![RpcEvent::DecodeErr("bad".to_string())])),
        RpcPhase::Finished(Err(CallError::DeserializeReturn(_)))
    ));
    assert!(matches!(
        drive("m", setup(vec![RpcEvent::DecodeOk, RpcEvent::PurgeErr("bad".to_string())])),
        RpcPhase::Finished(Err(CallError::PurgeQueue(_)))
    ));
}

#[test]
fn a_finished_call_absorbs_later_events() {
    let phase = drive(
        "m",
        vec![
            RpcEvent::DeclareErr("no".to_string()),
            RpcEvent::PublishOk,
            RpcEvent::PurgeOk,
            RpcEvent::ResponseTimeout,
        ],
    );
    assert!(matches!(phase, RpcPhase::Finished(Err(CallError::QueueDeclare(_)))));
}
