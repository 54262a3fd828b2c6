use hare::basic_consume_builder::{
    run_supervisor, sup_init, sup_step, BasicConsumeBuilder, SupAction, SupEvent, SupPhase,
    SupState, SupervisorError,
};
use hare::delivery::{Delivery, Props};

fn delivery(tag: u64) -> Delivery {
    Delivery {
        delivery_tag: tag,
        payload: Vec::new(),
        props: Props {
            message_id: None,
            correlation_id: None,
            app_id: None,
            reply_to: None,
            timestamp: None,
        },
    }
}

fn running(in_flight: u64) -> SupState {
    SupState { phase: SupPhase::Running, in_flight }
}

#[test]
fn consume_builder_defaults() {
    let b = BasicConsumeBuilder::new("q".to_string(), true, "tag".to_string());
    assert_eq!(b.queue_name, "q");
    assert!(b.dead_lettering);
    assert_eq!(b.consumer_tag, "tag");
    assert!(!b.opts.exclusive);
    assert!(!b.opts.no_ack);
    assert!(!b.opts.no_local);
    assert!(!b.opts.nowait);
    assert_eq!(b.timeout_ms, 300_000);
    assert!(b.in_parallel);
}

#[test]
fn consume_builder_setters() {
    let b = BasicConsumeBuilder::new("q".to_string(), false, "t".to_string())
        .exclusive(true)
        .no_local(true)
        .nowait(true)
        .timeout(1_000)
        .in_parallel(false);
    assert!(b.opts.exclusive);
    assert!(b.opts.no_local);
    assert!(b.opts.nowait);
    assert_eq!(b.timeout_ms, 1_000);
    assert!(!b.in_parallel);
    let cfg = b.lifecycle_config();
    assert_eq!(cfg.queue_name, "q");
    assert!(!cfg.dead_lettering);
    assert_eq!(cfg.timeout_ms, 1_000);
}

#[test]
fn parallel_deliveries_each_get_a_dispatch() {
    let mut st = running(0);
    let mut dispatched = Vec::new();
    for tag in 0..3 {
        let (next, action) = sup_step(true, st, SupEvent::StreamDelivery(delivery(tag)));
        st = next;
        match action {
            Some(SupAction::Dispatch(d)) => dispatched.push(d.delivery_tag),
            None => panic!("a delivery must be dispatched"),
        }
    }
    assert_eq!(dispatched, vec![0, 1, 2]);
    assert_eq!(st.in_flight, 3);
    for _ in 0..3 {
        let (next, action) = sup_step(true, st, SupEvent::TaskDone);
        assert!(action.is_none());
        st = next;
    }
    assert_eq!(st.in_flight, 0);
    assert_eq!(st.phase, SupPhase::Running);
}

#[test]
fn sequential_mode_completes_each_before_the_next() {
    let mut st = running(0);
    for tag in 0..3 {
        assert_eq!(st.in_flight, 0);
        let (next, action) = sup_step(false, st, SupEvent::StreamDelivery(delivery(tag)));
        assert!(matches!(action, Some(SupAction::Dispatch(_))));
        assert_eq!(next.in_flight, 1);
        let (next, action) = sup_step(false, next, SupEvent::TaskDone);
        assert!(action.is_none());
        st = next;
        assert!(st.in_flight <= 1);
    }
}

#[test]
fn shutdown_drains_in_flight_lifecycles() {
    let st = running(0);
    let (st, _) = sup_step(true, st, SupEvent::StreamDelivery(delivery(1)));
    let (st, _) = sup_step(true, st, SupEvent::StreamDelivery(delivery(2)));
    let (st, action) = sup_step(true, st, SupEvent::Shutdown);
    assert!(action.is_none());
    assert_eq!(st.phase, SupPhase::Draining);
    let (st, _) = sup_step(true, st, SupEvent::TaskDone);
    assert_eq!(st.phase, SupPhase::Draining);
    let (st, _) = sup_step(true, st, SupEvent::TaskDone);
    assert_eq!(st.phase, SupPhase::Stopped);
    assert_eq!(st.in_flight, 0);
}

#[test]
fn shutdown_with_nothing_in_flight_stops_at_once() {
    let (st, _) = sup_step(true, running(0), SupEvent::Shutdown);
    assert_eq!(st.phase, SupPhase::Stopped);
}

#[test]
fn stream_end_is_a_fatal_error() {
    let (st, _) = sup_step(true, running(0), SupEvent::StreamClosed);
    assert_eq!(st.phase, SupPhase::Failed(SupervisorError::StreamEnded));
}

#[test]
fn stream_error_is_fatal() {
    let (st, _) = sup_step(true, running(1), SupEvent::StreamError("conn reset".to_string()));
    assert_eq!(st.phase, SupPhase::Failed(SupervisorError::Stream("conn reset".to_string())));
}

#[test]
fn signal_listener_error_is_fatal() {
    let (st, _) = sup_step(true, running(0), SupEvent::SignalError("no signals".to_string()));
    assert_eq!(
        st.phase,
        SupPhase::Failed(SupervisorError::StopSignal("no signals".to_string()))
    );
}

#[test]
fn draining_ignores_new_deliveries() {
    let (st, _) = sup_step(true, running(1), SupEvent::Shutdown);
    assert_eq!(st.phase, SupPhase::Draining);
    let (st, action) = sup_step(true, st, SupEvent::Shutdown);
    assert!(action.is_none());
    assert_eq!(st.phase, SupPhase::Draining);
    assert_eq!(st.in_flight, 1);
}

#[test]
fn supervisor_run_dispatches_then_drains() {
    let events = vec![
        SupEvent::StreamDelivery(delivery(1)),
        SupEvent::StreamDelivery(delivery(2)),
        SupEvent::TaskDone,
        SupEvent::Shutdown,
        SupEvent::TaskDone,
    ];
    let (st, actions) = run_supervisor(true, events);
    assert_eq!(st.phase, SupPhase::Stopped);
    assert_eq!(st.in_flight, 0);
    let tags: Vec<u64> = actions
        .into_iter()
        .map(|SupAction::Dispatch(d)| d.delivery_tag)
        .collect();
    assert_eq!(tags, vec![1, 2]);
}

#[test]
fn supervisor_starts_running_and_idle() {
    let st = sup_init();
    assert_eq!(st.phase, SupPhase::Running);
    assert_eq!(st.in_flight, 0);
}
