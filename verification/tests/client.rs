use hare::basic_publish_builder::BasicPublishBuilder;
use hare::builder_arguments::{FieldTable, FieldValue};
use hare::channel_pool::recycle_decision;
use hare::client::{completion_step, CompletionEvent, ConsumerSet, JoinBasicConsumersError};
use hare::exchange_declare_builder::{ExchangeDeclareBuilder, ExchangeKind};
use hare::queue::{Queue, QueueName};
use hare::queue_bind_builder::QueueBindBuilder;
use hare::queue_declare_builder::QueueDeclareBuilder;
use hare::queue_delete_builder::QueueDeleteBuilder;
use hare::queue_purge_builder::QueuePurgeBuilder;
use hare::queue_unbind_builder::QueueUnbindBuilder;
use hare::consumer_handler_result::{
    into_consumer_handler_result, result_into_consumer_handler_result, ConsumerHandlerError,
};
use hare::util::OnError;

#[test]
fn recycle_keeps_only_connected_channels() {
    assert!(recycle_decision(true).is_ok());
    assert_eq!(recycle_decision(false), Err("channel is not connected".to_string()));
}

#[test]
fn consumer_registry_take_and_replace() {
    let mut set = ConsumerSet::new();
    set.register(10);
    set.register(11);
    let taken = set.take();
    assert_eq!(taken, vec![10, 11]);
    assert!(set.tasks.is_empty());
    set.register(12);
    assert_eq!(set.tasks, vec![12]);
}

#[test]
fn completion_decisions() {
    let (rem, err) = completion_step(2, CompletionEvent::ConsumerFinished);
    assert_eq!(rem, 1);
    assert!(err.is_none());

    let (rem, err) = completion_step(2, CompletionEvent::ConnError("gone".to_string()));
    assert_eq!(rem, 2);
    assert_eq!(err, Some(JoinBasicConsumersError::Connection("gone".to_string())));

    let (_, err) = completion_step(2, CompletionEvent::ConnSenderDropped);
    assert_eq!(err, Some(JoinBasicConsumersError::ConnectionErrorReceiverDropped));

    let (_, err) = completion_step(1, CompletionEvent::JoinFailed("panic".to_string()));
    assert_eq!(err, Some(JoinBasicConsumersError::JoinTask("panic".to_string())));

    let (_, err) = completion_step(1, CompletionEvent::ConsumerFailed("stream".to_string()));
    assert_eq!(err, Some(JoinBasicConsumersError::Consumer("stream".to_string())));
}

#[test]
fn field_table_keeps_insertion_order_and_overrides() {
    let mut t = FieldTable::new();
    t.arg_str("k".to_string(), "a".to_string());
    t.arg_u32("n".to_string(), 5);
    t.arg_str("k".to_string(), "b".to_string());
    assert_eq!(t.entries.len(), 3);
    assert_eq!(t.entries[0], ("k".to_string(), FieldValue::Str("a".to_string())));
    assert_eq!(t.entries[1], ("n".to_string(), FieldValue::U32(5)));
    assert_eq!(t.entries[2], ("k".to_string(), FieldValue::Str("b".to_string())));
}

#[test]
fn queue_declare_defaults_and_dead_letter_args() {
    let b = QueueDeclareBuilder::new("jobs".to_string());
    assert!(b.opts.durable);
    assert!(!b.opts.auto_delete);
    assert!(b.dead_lettering);
    let b = b.with_dead_letter_args();
    let entries = &b.args.entries;
    assert_eq!(entries.len(), 2);
    assert_eq!(
        entries[0],
        (
            "x-dead-letter-exchange".to_string(),
            FieldValue::Str("amq.direct".to_string())
        )
    );
    assert_eq!(
        entries[1],
        (
            "x-dead-letter-routing-key".to_string(),
            FieldValue::Str("dlx.dead_letter".to_string())
        )
    );
}

#[test]
fn disabled_dead_lettering_adds_no_arguments() {
    let b = QueueDeclareBuilder::new("jobs".to_string()).dead_lettering(false).with_dead_letter_args();
    assert!(b.args.entries.is_empty());
    let q = b.queue_result("jobs".to_string());
    assert!(!q.dead_lettering);
}

#[test]
fn queue_expiry_must_fit_32_bits() {
    let ok = QueueDeclareBuilder::new("q".to_string()).expires(1_500).unwrap();
    assert_eq!(
        ok.args.entries[0],
        ("x-expires".to_string(), FieldValue::U32(1_500))
    );
    assert!(QueueDeclareBuilder::new("q".to_string()).expires(u32::MAX as u64 + 1).is_err());
}

#[test]
fn queue_names_are_uniform() {
    let q = Queue { name: "a".to_string(), dead_lettering: true };
    assert_eq!(q.queue_name(), "a");
    assert_eq!("b".to_string().queue_name(), "b");
}

#[test]
fn exchange_declare_defaults_and_setters() {
    let b = ExchangeDeclareBuilder::new("ex".to_string(), ExchangeKind::Topic);
    assert!(b.opts.durable);
    assert!(!b.opts.internal);
    let b = b.durable(false).internal(true).auto_delete(true).nowait(true).passive(true);
    assert!(!b.opts.durable);
    assert!(b.opts.internal);
    assert!(b.opts.auto_delete);
    assert!(b.opts.nowait);
    assert!(b.opts.passive);
    assert_eq!(b.kind, ExchangeKind::Topic);
}

#[test]
fn bind_unbind_delete_purge_builders() {
    let bind = QueueBindBuilder::new(&"q".to_string(), "ex".to_string(), "rk".to_string());
    assert_eq!(bind.name, "q");
    assert!(!bind.opts.nowait);
    assert!(bind.nowait(true).opts.nowait);

    let unbind = QueueUnbindBuilder::new(&"q".to_string(), "ex".to_string(), "rk".to_string());
    assert_eq!(unbind.exchange_name, "ex");
    assert_eq!(unbind.routing_key, "rk");

    let delete = QueueDeleteBuilder::new(&"q".to_string()).if_empty(true).if_unused(true);
    assert!(delete.opts.if_empty);
    assert!(delete.opts.if_unused);
    assert!(!delete.opts.nowait);

    let purge = QueuePurgeBuilder::new(&"q".to_string()).nowait(true);
    assert!(purge.opts.nowait);
}

#[test]
fn publish_builder_fills_default_properties() {
    let b = BasicPublishBuilder::new("svc".to_string(), "ex".to_string(), "rk".to_string());
    assert_eq!(b.props.app_id.as_deref(), Some("svc"));
    let mid = b.props.message_id.clone().unwrap();
    assert_eq!(mid.len(), 36);
    assert!(mid.chars().all(|c| c.is_ascii_hexdigit() || c == '-'));
    assert!(b.props.timestamp.is_some());
    assert!(b.props.correlation_id.is_none());
    assert!(b.props.reply_to.is_none());
}

#[test]
fn publish_builder_fresh_ids_differ() {
    let a = BasicPublishBuilder::new("s".to_string(), "e".to_string(), "r".to_string());
    let b = BasicPublishBuilder::new("s".to_string(), "e".to_string(), "r".to_string());
    assert_ne!(a.props.message_id, b.props.message_id);
}

#[test]
fn publish_builder_setters() {
    let b = BasicPublishBuilder::new("svc".to_string(), "ex".to_string(), "rk".to_string())
        .immediate(true)
        .mandatory(true)
        .app_id("other".to_string())
        .correlation_id("c-1".to_string())
        .message_id("m-1".to_string())
        .reply_to("reply".to_string())
        .timestamp(123);
    assert!(b.opts.immediate);
    assert!(b.opts.mandatory);
    assert_eq!(b.props.app_id.as_deref(), Some("other"));
    assert_eq!(b.props.correlation_id.as_deref(), Some("c-1"));
    assert_eq!(b.props.message_id.as_deref(), Some("m-1"));
    assert_eq!(b.props.reply_to.as_deref(), Some("reply"));
    assert_eq!(b.props.timestamp, Some(123));
}

#[test]
fn on_err_observes_failures_and_returns_the_value() {
    let mut seen: Option<String> = None;
    let r: Result<u32, String> = Err("boom".to_string());
    let back = r.on_err(|e| seen = Some(e.clone()));
    assert_eq!(back, Err("boom".to_string()));
    assert_eq!(seen.as_deref(), Some("boom"));

    let mut called = false;
    let ok: Result<u32, String> = Ok(3);
    let back = ok.on_err(|_| called = true);
    assert_eq!(back, Ok(3));
    assert!(!called);
}

#[test]
fn handler_returns_normalize_into_results() {
    assert!(into_consumer_handler_result().is_ok());
    assert!(result_into_consumer_handler_result(Ok(())).is_ok());
    assert_eq!(
        result_into_consumer_handler_result(Err("bad".to_string())),
        Err(ConsumerHandlerError::Other("bad".to_string()))
    );
}
