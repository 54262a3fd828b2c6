//! The per-delivery lifecycle: one handler invocation raced against a
//! timeout, then acknowledge, negatively acknowledge, or additionally
//! forward an error record to the dead-letter exchange. The decisions are a
//! state machine; the surrounding task performs each emitted action and
//! feeds its result back as the next event.

use vstd::prelude::*;

use crate::consumer_handler_result::spec_error_message;
use crate::consumer_handler_result::ConsumerHandlerError;
use crate::delivery::Delivery;
use crate::dlx::spec_record_json_v;
use crate::dlx::ErrorData;

verus! {

/// What one registration fixes for every delivery it processes.
#[derive(Debug, Clone)]
pub struct LifecycleConfig {
    /// The queue the delivery was consumed from.
    pub queue_name: String,
    /// Whether handler failures are mirrored to the dead-letter exchange.
    pub dead_lettering: bool,
    /// The handler timeout in milliseconds.
    pub timeout_ms: u64,
}

/// A terminal state of one delivery's lifecycle.
#[derive(Debug, Clone, Copy, PartialEq, Eq, Structural)]
pub enum Outcome {
    /// The handler succeeded and the delivery was acknowledged.
    Acked,
    /// The handler succeeded but acknowledging failed; the broker will
    /// redeliver.
    AckFailed,
    /// The delivery was negatively acknowledged and an error record was
    /// forwarded to the dead-letter exchange.
    NackedAndDeadLettered,
    /// The delivery was negatively acknowledged and no error record was
    /// owed (dead-lettering disabled, or no message id to correlate by).
    NackedOnly,
    /// Negative acknowledgment itself failed.
    NackFailed,
}

/// Where one delivery stands in its lifecycle.
#[derive(Debug, Clone, PartialEq)]
pub enum Phase {
    /// The handler invocation is outstanding.
    AwaitingHandler,
    /// The handler succeeded; the acknowledgment is outstanding.
    AwaitingAck,
    /// The handler failed; the negative acknowledgment is outstanding.
    AwaitingNack(ConsumerHandlerError),
    /// The delivery was negatively acknowledged; the dead-letter publish is
    /// outstanding.
    AwaitingDeadLetter(ConsumerHandlerError),
    /// The lifecycle reached a terminal state.
    Done(Outcome),
}

/// What the driving task reports back to the machine.
#[derive(Debug, Clone, PartialEq)]
pub enum Event {
    /// The handler finished successfully within the timeout.
    HandlerOk,
    /// The handler finished with a failure within the timeout.
    HandlerFailed(ConsumerHandlerError),
    /// The timeout elapsed before the handler finished.
    HandlerTimedOut,
    /// Acknowledging succeeded.
    AckOk,
    /// Acknowledging failed.
    AckFailed(String),
    /// Negative acknowledgment succeeded.
    NackOk,
    /// Negative acknowledgment failed.
    NackFailed(String),
    /// The dead-letter publish succeeded.
    PublishOk,
    /// The dead-letter publish failed; it is never retried.
    PublishFailed(String),
}

impl Event {
    /// A value-equal copy.
    pub fn dup(&self) -> (r: Event)
        ensures
            r == *self,
    {
        match self {
            Event::HandlerOk => Event::HandlerOk,
            Event::HandlerFailed(e) => Event::HandlerFailed(e.dup()),
            Event::HandlerTimedOut => Event::HandlerTimedOut,
            Event::AckOk => Event::AckOk,
            Event::AckFailed(m) => Event::AckFailed(m.clone()),
            Event::NackOk => Event::NackOk,
            Event::NackFailed(m) => Event::NackFailed(m.clone()),
            Event::PublishOk => Event::PublishOk,
            Event::PublishFailed(m) => Event::PublishFailed(m.clone()),
        }
    }
}

/// What the driving task must do next.
#[derive(Debug, Clone)]
pub enum Action {
    /// Acknowledge the delivery with default options.
    Ack,
    /// Negatively acknowledge the delivery with default options.
    Nack,
    /// Publish this encoded error record to the dead-letter exchange under
    /// the fixed error routing key.
    PublishErrorRecord(Vec<u8>),
}

/// An action with its payload abstracted to its byte contents.
pub enum ActionV {
    /// Acknowledge.
    Ack,
    /// Negatively acknowledge.
    Nack,
    /// Publish this encoded error record.
    PublishErrorRecord(Seq<u8>),
}

/// The contents of an action.
pub open spec fn spec_action_view(a: Action) -> ActionV {
    match a {
        Action::Ack => ActionV::Ack,
        Action::Nack => ActionV::Nack,
        Action::PublishErrorRecord(p) => ActionV::PublishErrorRecord(p@),
    }
}

/// The bytes owed to the dead-letter exchange for a failed delivery: the
/// record built from the delivery's message id, the queue name, and the
/// failure.
pub open spec fn spec_dead_letter_bytes(
    cfg: LifecycleConfig,
    d: Delivery,
    err: ConsumerHandlerError,
) -> Seq<u8> {
    spec_record_json_v(
        d.props.message_id.deep_view(),
        cfg.queue_name@,
        "ConsumerHandlerError"@,
        spec_error_message(err),
        None,
    )
}

/// Whether a failed delivery is owed a dead-letter record: dead-lettering
/// must be enabled and the delivery must carry a message id to correlate by.
pub open spec fn spec_dead_letter_owed(cfg: LifecycleConfig, d: Delivery) -> bool {
    cfg.dead_lettering && d.props.message_id is Some
}

/// One transition of the lifecycle machine. An event that does not answer
/// the outstanding operation changes nothing.
pub open spec fn spec_step(cfg: LifecycleConfig, d: Delivery, phase: Phase, ev: Event) -> (
    Phase,
    Option<ActionV>,
) {
    match (phase, ev) {
        (Phase::AwaitingHandler, Event::HandlerOk) => (Phase::AwaitingAck, Some(ActionV::Ack)),
        (Phase::AwaitingHandler, Event::HandlerFailed(e)) => (
            Phase::AwaitingNack(e),
            Some(ActionV::Nack),
        ),
        (Phase::AwaitingHandler, Event::HandlerTimedOut) => (
            Phase::AwaitingNack(ConsumerHandlerError::Timeout(cfg.timeout_ms)),
            Some(ActionV::Nack),
        ),
        (Phase::AwaitingAck, Event::AckOk) => (Phase::Done(Outcome::Acked), None),
        (Phase::AwaitingAck, Event::AckFailed(_)) => (Phase::Done(Outcome::AckFailed), None),
        (Phase::AwaitingNack(e), Event::NackOk) => if spec_dead_letter_owed(cfg, d) {
            (
                Phase::AwaitingDeadLetter(e),
                Some(ActionV::PublishErrorRecord(spec_dead_letter_bytes(cfg, d, e))),
            )
        } else {
            (Phase::Done(Outcome::NackedOnly), None)
        },
        (Phase::AwaitingNack(_), Event::NackFailed(_)) => (Phase::Done(Outcome::NackFailed), None),
        (Phase::AwaitingDeadLetter(_), Event::PublishOk) => (
            Phase::Done(Outcome::NackedAndDeadLettered),
            None,
        ),
        (Phase::AwaitingDeadLetter(_), Event::PublishFailed(_)) => (
            Phase::Done(Outcome::NackedAndDeadLettered),
            None,
        ),
        (p, _) => (p, None),
    }
}

/// Whether an exec step result agrees with the spec transition.
pub open spec fn spec_step_agrees(
    cfg: LifecycleConfig,
    d: Delivery,
    phase: Phase,
    ev: Event,
    next: Phase,
    act: Option<Action>,
) -> bool {
    next == spec_step(cfg, d, phase, ev).0 && (match (act, spec_step(cfg, d, phase, ev).1) {
        (None, None) => true,
        (Some(a), Some(av)) => spec_action_view(a) == av,
        _ => false,
    })
}

/// Runs one transition of the lifecycle machine.
pub fn lifecycle_step(cfg: &LifecycleConfig, d: &Delivery, phase: Phase, ev: Event) -> (r: (
    Phase,
    Option<Action>,
))
    ensures
        spec_step_agrees(*cfg, *d, phase, ev, r.0, r.1),
{
    match (phase, ev) {
        (Phase::AwaitingHandler, Event::HandlerOk) => (Phase::AwaitingAck, Some(Action::Ack)),
        (Phase::AwaitingHandler, Event::HandlerFailed(e)) => (
            Phase::AwaitingNack(e),
            Some(Action::Nack),
        ),
        (Phase::AwaitingHandler, Event::HandlerTimedOut) => (
            Phase::AwaitingNack(ConsumerHandlerError::Timeout(cfg.timeout_ms)),
            Some(Action::Nack),
        ),
        (Phase::AwaitingAck, Event::AckOk) => (Phase::Done(Outcome::Acked), None),
        (Phase::AwaitingAck, Event::AckFailed(_)) => (Phase::Done(Outcome::AckFailed), None),
        (Phase::AwaitingNack(e), Event::NackOk) => {
            if cfg.dead_lettering && d.has_message_id() {
                let record = ErrorData::new(cfg.queue_name.clone(), d, &e);
                let payload = record.to_json();
                (Phase::AwaitingDeadLetter(e), Some(Action::PublishErrorRecord(payload)))
            } else {
                (Phase::Done(Outcome::NackedOnly), None)
            }
        },
        (Phase::AwaitingNack(e), Event::NackFailed(_)) => (
            Phase::Done(Outcome::NackFailed),
            None,
        ),
        (Phase::AwaitingDeadLetter(_), Event::PublishOk) => (
            Phase::Done(Outcome::NackedAndDeadLettered),
            None,
        ),
        (Phase::AwaitingDeadLetter(_), Event::PublishFailed(_)) => (
            Phase::Done(Outcome::NackedAndDeadLettered),
            None,
        ),
        (p, _) => (p, None),
    }
}

/// The phase and emitted actions after feeding a sequence of events to the
/// machine.
pub open spec fn spec_run(cfg: LifecycleConfig, d: Delivery, phase: Phase, evs: Seq<Event>) -> (
    Phase,
    Seq<ActionV>,
)
    decreases evs.len(),
{
    if evs.len() == 0 {
        (phase, Seq::empty())
    } else {
        let (p1, a1) = spec_step(cfg, d, phase, evs[0]);
        let (pf, rest) = spec_run(cfg, d, p1, evs.drop_first());
        (
            pf,
            match a1 {
                Some(a) => seq![a] + rest,
                None => rest,
            },
        )
    }
}

/// Appending one event extends a run by one step at its end.
proof fn lemma_run_snoc(cfg: LifecycleConfig, d: Delivery, phase: Phase, evs: Seq<Event>, ev: Event)
    ensures
        spec_run(cfg, d, phase, evs.push(ev)).0 == spec_step(
            cfg,
            d,
            spec_run(cfg, d, phase, evs).0,
            ev,
        ).0,
        spec_run(cfg, d, phase, evs.push(ev)).1 == (match spec_step(
            cfg,
            d,
            spec_run(cfg, d, phase, evs).0,
            ev,
        ).1 {
            Some(a) => spec_run(cfg, d, phase, evs).1.push(a),
            None => spec_run(cfg, d, phase, evs).1,
        }),
    decreases evs.len(),
{
    let (pf, acts) = spec_run(cfg, d, phase, evs);
    let (pn, an) = spec_step(cfg, d, pf, ev);
    if evs.len() == 0 {
        assert(evs.push(ev)[0] == ev);
        assert(evs.push(ev).drop_first() =~= Seq::<Event>::empty());
        assert(spec_run(cfg, d, pn, Seq::<Event>::empty()) == (pn, Seq::<ActionV>::empty()));
        match an {
            Some(a) => {
                assert(seq![a] + Seq::<ActionV>::empty() =~= acts.push(a));
            },
            None => {
            },
        }
    } else {
        let (p1, a1) = spec_step(cfg, d, phase, evs[0]);
        assert(evs.push(ev)[0] == evs[0]);
        assert(evs.push(ev).drop_first() =~= evs.drop_first().push(ev));
        lemma_run_snoc(cfg, d, p1, evs.drop_first(), ev);
        let (rf, racts) = spec_run(cfg, d, p1, evs.drop_first());
        match (a1, an) {
            (Some(a), Some(b)) => {
                assert(seq![a] + racts.push(b) =~= (seq![a] + racts).push(b));
            },
            (Some(a), None) => {
            },
            (None, Some(b)) => {
            },
            (None, None) => {
            },
        }
    }
}

/// Runs the lifecycle machine over a whole event sequence, starting before
/// the handler invocation, and returns the final phase with every action
/// emitted along the way, in order.
pub fn run_lifecycle(cfg: &LifecycleConfig, d: &Delivery, events: Vec<Event>) -> (r: (
    Phase,
    Vec<Action>,
))
    ensures
        ({
            let (pf, acts) = spec_run(*cfg, *d, Phase::AwaitingHandler, events@);
            r.0 == pf && r.1@.map(|i: int, a: Action| spec_action_view(a)) == acts
        }),
{
    let mut phase = Phase::AwaitingHandler;
    let mut actions: Vec<Action> = Vec::new();
    let mut i: usize = 0;
    while i < events.len()
        invariant
            i <= events@.len(),
            ({
                let (pf, acts) = spec_run(*cfg, *d, Phase::AwaitingHandler, events@.take(i as int));
                phase == pf && actions@.map(|k: int, a: Action| spec_action_view(a)) == acts
            }),
        decreases events@.len() - i,
    {
        let ev = events[i].dup();
        proof {
            assert(ev == events@[i as int]);
            lemma_run_snoc(*cfg, *d, Phase::AwaitingHandler, events@.take(i as int), events@[i as int]);
            assert(events@.take(i as int).push(events@[i as int]) =~= events@.take(i as int + 1));
        }
        let (p2, act) = lifecycle_step(cfg, d, phase, ev);
        phase = p2;
        match act {
            Some(a) => {
                let ghost prev = actions@;
                actions.push(a);
                proof {
                    assert(actions@.map(|k: int, x: Action| spec_action_view(x)) =~= prev.map(
                        |k: int, x: Action| spec_action_view(x),
                    ).push(spec_action_view(actions@[actions@.len() - 1])));
                }
            },
            None => {
            },
        }
        i = i + 1;
    }
    proof {
        assert(events@.take(events@.len() as int) =~= events@);
    }
    (phase, actions)
}

/// How many acknowledgments a run emitted.
pub open spec fn spec_count_acks(s: Seq<ActionV>) -> nat
    decreases s.len(),
{
    if s.len() == 0 {
        0
    } else {
        (if s[0] is Ack {
            1nat
        } else {
            0nat
        }) + spec_count_acks(s.drop_first())
    }
}

/// How many negative acknowledgments a run emitted.
pub open spec fn spec_count_nacks(s: Seq<ActionV>) -> nat
    decreases s.len(),
{
    if s.len() == 0 {
        0
    } else {
        (if s[0] is Nack {
            1nat
        } else {
            0nat
        }) + spec_count_nacks(s.drop_first())
    }
}

/// How many error records a run published.
pub open spec fn spec_count_publishes(s: Seq<ActionV>) -> nat
    decreases s.len(),
{
    if s.len() == 0 {
        0
    } else {
        (if s[0] is PublishErrorRecord {
            1nat
        } else {
            0nat
        }) + spec_count_publishes(s.drop_first())
    }
}

/// An empty run has every count at zero.
proof fn lemma_counts_empty()
    ensures
        spec_count_acks(Seq::<ActionV>::empty()) == 0,
        spec_count_nacks(Seq::<ActionV>::empty()) == 0,
        spec_count_publishes(Seq::<ActionV>::empty()) == 0,
{
}

/// Prepending one action to a run's output adds its kind to the counts.
proof fn lemma_counts_cons(a: ActionV, rest: Seq<ActionV>)
    ensures
        spec_count_acks(seq![a] + rest) == (if a is Ack {
            1nat
        } else {
            0nat
        }) + spec_count_acks(rest),
        spec_count_nacks(seq![a] + rest) == (if a is Nack {
            1nat
        } else {
            0nat
        }) + spec_count_nacks(rest),
        spec_count_publishes(seq![a] + rest) == (if a is PublishErrorRecord {
            1nat
        } else {
            0nat
        }) + spec_count_publishes(rest),
{
    assert((seq![a] + rest)[0] == a);
    assert((seq![a] + rest).drop_first() =~= rest);
}

/// Once the handler outcome is settled, the machine never asks for another
/// acknowledgment or negative acknowledgment; and past the nack it emits
/// nothing but possibly one dead-letter publish.
proof fn lemma_actions_after_handler(
    cfg: LifecycleConfig,
    d: Delivery,
    phase: Phase,
    evs: Seq<Event>,
)
    ensures
        (phase is AwaitingAck || phase is Done) ==> spec_run(cfg, d, phase, evs).1 =~= Seq::<
            ActionV,
        >::empty(),
        (phase is AwaitingDeadLetter) ==> spec_run(cfg, d, phase, evs).1 =~= Seq::<
            ActionV,
        >::empty(),
        (phase is AwaitingNack) ==> spec_count_acks(spec_run(cfg, d, phase, evs).1) == 0
            && spec_count_nacks(spec_run(cfg, d, phase, evs).1) == 0 && spec_count_publishes(
            spec_run(cfg, d, phase, evs).1,
        ) <= 1,
    decreases evs.len(),
{
    if evs.len() > 0 {
        let (p1, a1) = spec_step(cfg, d, phase, evs[0]);
        lemma_actions_after_handler(cfg, d, p1, evs.drop_first());
        let rest = spec_run(cfg, d, p1, evs.drop_first()).1;
        lemma_counts_empty();
        match a1 {
            Some(a) => {
                lemma_counts_cons(a, rest);
            },
            None => {
            },
        }
    } else {
        lemma_counts_empty();
    }
}

/// For every delivery whose handler succeeds within the timeout, the
/// machine asks for exactly one acknowledgment, and never for a negative
/// acknowledgment or a dead-letter publish.
pub proof fn lemma_success_is_acked_exactly_once(
    cfg: LifecycleConfig,
    d: Delivery,
    evs: Seq<Event>,
)
    requires
        evs.len() > 0,
        evs[0] == Event::HandlerOk,
    ensures
        spec_run(cfg, d, Phase::AwaitingHandler, evs).1 =~= seq![ActionV::Ack],
{
    let (p1, a1) = spec_step(cfg, d, Phase::AwaitingHandler, evs[0]);
    lemma_actions_after_handler(cfg, d, p1, evs.drop_first());
}

/// Whether an event reports a handler failure or timeout.
pub open spec fn spec_is_failure_event(ev: Event) -> bool {
    ev is HandlerFailed || ev is HandlerTimedOut
}

/// For every delivery whose handler fails or times out, the machine asks
/// for exactly one negative acknowledgment, never for an acknowledgment,
/// and for at most one dead-letter publish.
pub proof fn lemma_failure_is_nacked_exactly_once(
    cfg: LifecycleConfig,
    d: Delivery,
    evs: Seq<Event>,
)
    requires
        evs.len() > 0,
        spec_is_failure_event(evs[0]),
    ensures
        spec_count_nacks(spec_run(cfg, d, Phase::AwaitingHandler, evs).1) == 1,
        spec_count_acks(spec_run(cfg, d, Phase::AwaitingHandler, evs).1) == 0,
        spec_count_publishes(spec_run(cfg, d, Phase::AwaitingHandler, evs).1) <= 1,
{
    let (p1, a1) = spec_step(cfg, d, Phase::AwaitingHandler, evs[0]);
    lemma_actions_after_handler(cfg, d, p1, evs.drop_first());
    let rest = spec_run(cfg, d, p1, evs.drop_first()).1;
    assert(spec_run(cfg, d, Phase::AwaitingHandler, evs).1 == seq![ActionV::Nack] + rest);
    assert((seq![ActionV::Nack] + rest).drop_first() =~= rest);
}

/// The failure carried by a handler-failure event (the timeout failure for
/// a timeout event).
pub open spec fn spec_failure_of(cfg: LifecycleConfig, ev: Event) -> ConsumerHandlerError
    recommends
        spec_is_failure_event(ev),
{
    match ev {
        Event::HandlerFailed(e) => e,
        _ => ConsumerHandlerError::Timeout(cfg.timeout_ms),
    }
}

/// For every delivery whose handler fails or times out, on a queue with
/// dead-lettering enabled and a delivery that carries a message id, once
/// the negative acknowledgment succeeds the machine asks for exactly one
/// dead-letter publish, and its payload is the encoded record carrying that
/// message id, the queue name, and the failure's message.
pub proof fn lemma_failure_publishes_record(cfg: LifecycleConfig, d: Delivery, evs: Seq<Event>)
    requires
        evs.len() >= 2,
        spec_is_failure_event(evs[0]),
        evs[1] == Event::NackOk,
        spec_dead_letter_owed(cfg, d),
    ensures
        spec_run(cfg, d, Phase::AwaitingHandler, evs).1 =~= seq![
            ActionV::Nack,
            ActionV::PublishErrorRecord(spec_dead_letter_bytes(cfg, d, spec_failure_of(cfg, evs[0]))),
        ],
{
    let e = spec_failure_of(cfg, evs[0]);
    let bytes = spec_dead_letter_bytes(cfg, d, e);
    let (p1, a1) = spec_step(cfg, d, Phase::AwaitingHandler, evs[0]);
    assert(p1 == Phase::AwaitingNack(e));
    let evs1 = evs.drop_first();
    assert(evs1[0] == evs[1]);
    let (p2, a2) = spec_step(cfg, d, p1, evs1[0]);
    assert(p2 == Phase::AwaitingDeadLetter(e));
    lemma_actions_after_handler(cfg, d, p2, evs1.drop_first());
    let tail = spec_run(cfg, d, p2, evs1.drop_first()).1;
    assert(tail =~= Seq::<ActionV>::empty());
    assert(spec_run(cfg, d, p1, evs1).1 == seq![ActionV::PublishErrorRecord(bytes)] + tail);
    assert(spec_run(cfg, d, Phase::AwaitingHandler, evs).1 == seq![ActionV::Nack] + (seq![
        ActionV::PublishErrorRecord(bytes),
    ] + tail));
}

/// If dead-lettering is disabled for the queue, no run of the machine ever
/// asks for an error record to be published, whatever the handler outcome.
pub proof fn lemma_no_dead_letter_when_disabled(
    cfg: LifecycleConfig,
    d: Delivery,
    phase: Phase,
    evs: Seq<Event>,
)
    requires
        !cfg.dead_lettering,
    ensures
        spec_count_publishes(spec_run(cfg, d, phase, evs).1) == 0,
    decreases evs.len(),
{
    if evs.len() > 0 {
        let (p1, a1) = spec_step(cfg, d, phase, evs[0]);
        lemma_no_dead_letter_when_disabled(cfg, d, p1, evs.drop_first());
        let rest = spec_run(cfg, d, p1, evs.drop_first()).1;
        match a1 {
            Some(a) => {
                assert((seq![a] + rest).drop_first() =~= rest);
            },
            None => {
            },
        }
    }
}

/// A delivery without a message id is never mirrored to the dead-letter
/// exchange: there would be no way to correlate the record.
pub proof fn lemma_no_dead_letter_without_message_id(
    cfg: LifecycleConfig,
    d: Delivery,
    phase: Phase,
    evs: Seq<Event>,
)
    requires
        d.props.message_id is None,
    ensures
        spec_count_publishes(spec_run(cfg, d, phase, evs).1) == 0,
    decreases evs.len(),
{
    if evs.len() > 0 {
        let (p1, a1) = spec_step(cfg, d, phase, evs[0]);
        lemma_no_dead_letter_without_message_id(cfg, d, p1, evs.drop_first());
        let rest = spec_run(cfg, d, p1, evs.drop_first()).1;
        match a1 {
            Some(a) => {
                assert((seq![a] + rest).drop_first() =~= rest);
            },
            None => {
            },
        }
    }
}

} // verus!
