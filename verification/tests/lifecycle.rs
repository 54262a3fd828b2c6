use hare::consumer_handler_result::ConsumerHandlerError;
use hare::delivery::{Delivery, Props};
use hare::lifecycle::{run_lifecycle, Action, Event, LifecycleConfig, Outcome, Phase};

fn delivery_with_id(id: Option<&str>) -> Delivery {
    Delivery {
        delivery_tag: 7,
        payload: b"payload".to_vec(),
        props: Props {
            message_id: id.map(|s| s.to_string()),
            correlation_id: None,
            app_id: None,
            reply_to: None,
            timestamp: None,
        },
    }
}

fn cfg(dead_lettering: bool) -> LifecycleConfig {
    LifecycleConfig { queue_name: "q".to_string(), dead_lettering, timeout_ms: 250 }
}

#[test]
fn success_is_acked_exactly_once() {
    let d = delivery_with_id(Some("m-1"));
    let (phase, actions) = run_lifecycle(&cfg(true), &d, vec![Event::HandlerOk, Event::AckOk]);
    assert_eq!(phase, Phase::Done(Outcome::Acked));
    assert_eq!(actions.len(), 1);
    assert!(matches!(actions[0], Action::Ack));
}

#[test]
fn failure_is_nacked_and_dead_lettered() {
    let d = delivery_with_id(Some("m-1"));
    let events = vec![
        Event::HandlerFailed(ConsumerHandlerError::Other("boom".to_string())),
        Event::NackOk,
        Event::PublishOk,
    ];
    let (phase, actions) = run_lifecycle(&cfg(true), &d, events);
    assert_eq!(phase, Phase::Done(Outcome::NackedAndDeadLettered));
    assert_eq!(actions.len(), 2);
    assert!(matches!(actions[0], Action::Nack));
    match &actions[1] {
        Action::PublishErrorRecord(payload) => {
            let expected = "{\"origin\":{\"messageId\":\"m-1\",\"queueName\":\"q\"},\"error\":{\"lang\":\"rs\",\"name\":\"ConsumerHandlerError\",\"message\":\"boom\"}}";
            assert_eq!(payload.as_slice(), expected.as_bytes());
        }
        other => panic!("expected a publish action, got {:?}", other),
    }
}

#[test]
fn timeout_is_treated_as_failure() {
    let d = delivery_with_id(Some("m-2"));
    let events = vec![Event::HandlerTimedOut, Event::NackOk, Event::PublishOk];
    let (phase, actions) = run_lifecycle(&cfg(true), &d, events);
    assert_eq!(phase, Phase::Done(Outcome::NackedAndDeadLettered));
    match &actions[1] {
        Action::PublishErrorRecord(payload) => {
            let text = String::from_utf8(payload.clone()).unwrap();
            assert!(text.contains("\"message\":\"timeout of 250ms reached\""));
        }
        other => panic!("expected a publish action, got {:?}", other),
    }
}

#[test]
fn disabled_dead_lettering_never_publishes() {
    let d = delivery_with_id(Some("m-3"));
    let events = vec![
        Event::HandlerFailed(ConsumerHandlerError::Other("boom".to_string())),
        Event::NackOk,
    ];
    let (phase, actions) = run_lifecycle(&cfg(false), &d, events);
    assert_eq!(phase, Phase::Done(Outcome::NackedOnly));
    assert_eq!(actions.len(), 1);
    assert!(matches!(actions[0], Action::Nack));
}

#[test]
fn missing_message_id_is_not_dead_lettered() {
    let d = delivery_with_id(None);
    let events = vec![
        Event::HandlerFailed(ConsumerHandlerError::Other("boom".to_string())),
        Event::NackOk,
    ];
    let (phase, actions) = run_lifecycle(&cfg(true), &d, events);
    assert_eq!(phase, Phase::Done(Outcome::NackedOnly));
    assert_eq!(actions.len(), 1);
}

#[test]
fn ack_failure_terminates_without_nack() {
    let d = delivery_with_id(Some("m-4"));
    let events = vec![Event::HandlerOk, Event::AckFailed("io".to_string())];
    let (phase, actions) = run_lifecycle(&cfg(true), &d, events);
    assert_eq!(phase, Phase::Done(Outcome::AckFailed));
    assert_eq!(actions.len(), 1);
    assert!(matches!(actions[0], Action::Ack));
}

#[test]
fn nack_failure_terminates_without_publish() {
    let d = delivery_with_id(Some("m-5"));
    let events = vec![
        Event::HandlerFailed(ConsumerHandlerError::Other("boom".to_string())),
        Event::NackFailed("io".to_string()),
    ];
    let (phase, actions) = run_lifecycle(&cfg(true), &d, events);
    assert_eq!(phase, Phase::Done(Outcome::NackFailed));
    assert_eq!(actions.len(), 1);
}

#[test]
fn publish_failure_is_not_retried() {
    let d = delivery_with_id(Some("m-6"));
    let events = vec![
        Event::HandlerFailed(ConsumerHandlerError::Other("boom".to_string())),
        Event::NackOk,
        Event::PublishFailed("io".to_string()),
    ];
    let (phase, actions) = run_lifecycle(&cfg(true), &d, events);
    assert_eq!(phase, Phase::Done(Outcome::NackedAndDeadLettered));
    assert_eq!(actions.len(), 2);
}
