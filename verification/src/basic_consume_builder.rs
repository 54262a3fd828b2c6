//! Consumer registration and supervision. A registration fixes a queue, a
//! consumer tag, options, a timeout, and the parallelism mode; the
//! supervision loop then reads the subscription stream, dispatches delivery
//! lifecycles, listens for the shutdown signal, and drains before it stops.
//! The loop's decisions are a state machine; the surrounding task performs
//! each emitted dispatch and feeds back what happened.

use vstd::prelude::*;

use crate::builder_arguments::FieldTable;
use crate::delivery::Delivery;
use crate::lifecycle::LifecycleConfig;
use crate::DEFAULT_CONSUME_TIMEOUT_MS;

verus! {

/// Options for a subscribe call.
#[derive(Debug, Clone, Copy, PartialEq, Eq, Structural)]
pub struct ConsumeOpts {
    /// Request exclusive consumer access.
    pub exclusive: bool,
    /// Ask the broker not to expect acknowledgments.
    pub no_ack: bool,
    /// Ask the broker not to deliver this connection's own publishes.
    pub no_local: bool,
    /// Do not wait for the broker's confirmation.
    pub nowait: bool,
}

/// Builds one consumer registration.
#[derive(Debug, Clone)]
pub struct BasicConsumeBuilder {
    /// The queue to consume from.
    pub queue_name: String,
    /// Whether handler failures on this queue are mirrored to the
    /// dead-letter exchange.
    pub dead_lettering: bool,
    /// The consumer tag the registration is known by.
    pub consumer_tag: String,
    /// Subscribe options.
    pub opts: ConsumeOpts,
    /// Additional subscribe arguments.
    pub args: FieldTable,
    /// Per-delivery handler timeout in milliseconds.
    pub timeout_ms: u64,
    /// Whether deliveries are processed concurrently or one at a time.
    pub in_parallel: bool,
}

impl BasicConsumeBuilder {
    /// A registration with the defaults: all options off, a five-minute
    /// timeout, and parallel processing.
    pub fn new(queue_name: String, dead_lettering: bool, consumer_tag: String) -> (r:
        BasicConsumeBuilder)
        ensures
            r.queue_name == queue_name,
            r.dead_lettering == dead_lettering,
            r.consumer_tag == consumer_tag,
            r.opts == (ConsumeOpts { exclusive: false, no_ack: false, no_local: false, nowait: false }),
            r.args@ == Map::<Seq<char>, crate::builder_arguments::FieldValue>::empty(),
            r.timeout_ms == DEFAULT_CONSUME_TIMEOUT_MS,
            r.in_parallel == true,
    {
        BasicConsumeBuilder {
            queue_name,
            dead_lettering,
            consumer_tag,
            opts: ConsumeOpts { exclusive: false, no_ack: false, no_local: false, nowait: false },
            args: FieldTable::new(),
            timeout_ms: DEFAULT_CONSUME_TIMEOUT_MS,
            in_parallel: true,
        }
    }

    /// Sets the exclusive option; defaults to off.
    pub fn exclusive(self, exclusive: bool) -> (r: BasicConsumeBuilder)
        ensures
            r == (BasicConsumeBuilder { opts: ConsumeOpts { exclusive, ..self.opts }, ..self }),
    {
        BasicConsumeBuilder { opts: ConsumeOpts { exclusive, ..self.opts }, ..self }
    }

    /// Sets the no-local option; defaults to off.
    pub fn no_local(self, no_local: bool) -> (r: BasicConsumeBuilder)
        ensures
            r == (BasicConsumeBuilder { opts: ConsumeOpts { no_local, ..self.opts }, ..self }),
    {
        BasicConsumeBuilder { opts: ConsumeOpts { no_local, ..self.opts }, ..self }
    }

    /// Sets the nowait option; defaults to off.
    pub fn nowait(self, nowait: bool) -> (r: BasicConsumeBuilder)
        ensures
            r == (BasicConsumeBuilder { opts: ConsumeOpts { nowait, ..self.opts }, ..self }),
    {
        BasicConsumeBuilder { opts: ConsumeOpts { nowait, ..self.opts }, ..self }
    }

    /// Sets the per-delivery timeout; defaults to five minutes.
    pub fn timeout(self, timeout_ms: u64) -> (r: BasicConsumeBuilder)
        ensures
            r == (BasicConsumeBuilder { timeout_ms, ..self }),
    {
        BasicConsumeBuilder { timeout_ms, ..self }
    }

    /// Sets the parallelism mode; defaults to parallel.
    pub fn in_parallel(self, in_parallel: bool) -> (r: BasicConsumeBuilder)
        ensures
            r == (BasicConsumeBuilder { in_parallel, ..self }),
    {
        BasicConsumeBuilder { in_parallel, ..self }
    }

    /// The per-delivery lifecycle configuration this registration implies.
    pub fn lifecycle_config(&self) -> (r: LifecycleConfig)
        ensures
            r.queue_name@ == self.queue_name@,
            r.dead_lettering == self.dead_lettering,
            r.timeout_ms == self.timeout_ms,
    {
        LifecycleConfig {
            queue_name: self.queue_name.clone(),
            dead_lettering: self.dead_lettering,
            timeout_ms: self.timeout_ms,
        }
    }
}

/// The error returned when creating the consumer fails.
#[derive(Debug, Clone)]
pub struct ConsumeError(pub String);

/// Why a supervisor stopped abnormally.
#[derive(Debug, Clone, PartialEq)]
pub enum SupervisorError {
    /// Listening for the shutdown signal failed.
    StopSignal(String),
    /// The subscription stream reported a transport-level error.
    Stream(String),
    /// The subscription stream ended unexpectedly.
    StreamEnded,
}

/// Where a supervisor stands.
#[derive(Debug, Clone, PartialEq)]
pub enum SupPhase {
    /// Accepting deliveries and watching for shutdown.
    Running,
    /// Shutdown received: accepting no new deliveries, awaiting the
    /// in-flight ones.
    Draining,
    /// All in-flight deliveries completed after shutdown.
    Stopped,
    /// An unrecoverable error ended the supervisor.
    Failed(SupervisorError),
}

/// The supervisor's state: its phase and how many delivery lifecycles are
/// in flight.
#[derive(Debug, Clone, PartialEq)]
pub struct SupState {
    /// The phase.
    pub phase: SupPhase,
    /// The number of dispatched lifecycles not yet completed.
    pub in_flight: u64,
}

/// What the supervising task observed: one of its select sources resolved.
#[derive(Debug, Clone)]
pub enum SupEvent {
    /// The external shutdown signal fired.
    Shutdown,
    /// Listening for the shutdown signal failed.
    SignalError(String),
    /// The subscription stream yielded a delivery.
    StreamDelivery(Delivery),
    /// The subscription stream yielded a transport-level error.
    StreamError(String),
    /// The subscription stream ended.
    StreamClosed,
    /// A previously dispatched delivery lifecycle completed; its result is
    /// discarded, the slot is reclaimed.
    TaskDone,
}

/// What the supervising task must do next.
#[derive(Debug, Clone)]
pub enum SupAction {
    /// Start the delivery's lifecycle: as a concurrent task in parallel
    /// mode, awaited inline in sequential mode.
    Dispatch(Delivery),
}

/// The initial supervisor state: running, with nothing in flight.
pub fn sup_init() -> (r: SupState)
    ensures
        r == (SupState { phase: SupPhase::Running, in_flight: 0 }),
{
    SupState { phase: SupPhase::Running, in_flight: 0 }
}

/// Whether an event can be observed in a state: a delivery fits only while
/// running with a free slot (in sequential mode the single slot must be
/// free, which the inline await guarantees), and a completion only while
/// something is in flight.
pub open spec fn spec_event_fits(in_parallel: bool, st: SupState, ev: SupEvent) -> bool {
    match ev {
        SupEvent::StreamDelivery(_) => st.in_flight < u64::MAX && (!in_parallel ==> st.in_flight
            == 0),
        SupEvent::TaskDone => st.in_flight > 0,
        _ => true,
    }
}

/// One transition of the supervisor machine.
pub open spec fn spec_sup_step(in_parallel: bool, st: SupState, ev: SupEvent) -> (
    SupState,
    Option<SupAction>,
) {
    match (st.phase, ev) {
        (SupPhase::Running, SupEvent::Shutdown) => if st.in_flight == 0 {
            (SupState { phase: SupPhase::Stopped, in_flight: 0 }, None)
        } else {
            (SupState { phase: SupPhase::Draining, in_flight: st.in_flight }, None)
        },
        (SupPhase::Running, SupEvent::SignalError(m)) => (
            SupState { phase: SupPhase::Failed(SupervisorError::StopSignal(m)), in_flight: st.in_flight },
            None,
        ),
        (SupPhase::Running, SupEvent::StreamDelivery(d)) => (
            SupState { phase: SupPhase::Running, in_flight: (st.in_flight + 1) as u64 },
            Some(SupAction::Dispatch(d)),
        ),
        (SupPhase::Running, SupEvent::StreamError(m)) => (
            SupState { phase: SupPhase::Failed(SupervisorError::Stream(m)), in_flight: st.in_flight },
            None,
        ),
        (SupPhase::Running, SupEvent::StreamClosed) => (
            SupState { phase: SupPhase::Failed(SupervisorError::StreamEnded), in_flight: st.in_flight },
            None,
        ),
        (SupPhase::Running, SupEvent::TaskDone) => (
            SupState { phase: SupPhase::Running, in_flight: (st.in_flight - 1) as u64 },
            None,
        ),
        (SupPhase::Draining, SupEvent::TaskDone) => if st.in_flight == 1 {
            (SupState { phase: SupPhase::Stopped, in_flight: 0 }, None)
        } else {
            (SupState { phase: SupPhase::Draining, in_flight: (st.in_flight - 1) as u64 }, None)
        },
        (p, _) => (SupState { phase: p, in_flight: st.in_flight }, None),
    }
}

/// Runs one transition of the supervisor machine.
pub fn sup_step(in_parallel: bool, st: SupState, ev: SupEvent) -> (r: (SupState, Option<SupAction>))
    requires
        spec_event_fits(in_parallel, st, ev),
    ensures
        r == spec_sup_step(in_parallel, st, ev),
{
    match (st.phase, ev) {
        (SupPhase::Running, SupEvent::Shutdown) => {
            if st.in_flight == 0 {
                (SupState { phase: SupPhase::Stopped, in_flight: 0 }, None)
            } else {
                (SupState { phase: SupPhase::Draining, in_flight: st.in_flight }, None)
            }
        },
        (SupPhase::Running, SupEvent::SignalError(m)) => (
            SupState {
                phase: SupPhase::Failed(SupervisorError::StopSignal(m)),
                in_flight: st.in_flight,
            },
            None,
        ),
        (SupPhase::Running, SupEvent::StreamDelivery(d)) => (
            SupState { phase: SupPhase::Running, in_flight: st.in_flight + 1 },
            Some(SupAction::Dispatch(d)),
        ),
        (SupPhase::Running, SupEvent::StreamError(m)) => (
            SupState {
                phase: SupPhase::Failed(SupervisorError::Stream(m)),
                in_flight: st.in_flight,
            },
            None,
        ),
        (SupPhase::Running, SupEvent::StreamClosed) => (
            SupState {
                phase: SupPhase::Failed(SupervisorError::StreamEnded),
                in_flight: st.in_flight,
            },
            None,
        ),
        (SupPhase::Running, SupEvent::TaskDone) => (
            SupState { phase: SupPhase::Running, in_flight: st.in_flight - 1 },
            None,
        ),
        (SupPhase::Draining, SupEvent::TaskDone) => {
            if st.in_flight == 1 {
                (SupState { phase: SupPhase::Stopped, in_flight: 0 }, None)
            } else {
                (SupState { phase: SupPhase::Draining, in_flight: st.in_flight - 1 }, None)
            }
        },
        (p, _) => (SupState { phase: p, in_flight: st.in_flight }, None),
    }
}

/// Whether every event of a trace fits the state it is observed in.
pub open spec fn spec_trace_fits(in_parallel: bool, st: SupState, evs: Seq<SupEvent>) -> bool
    decreases evs.len(),
{
    evs.len() == 0 || (spec_event_fits(in_parallel, st, evs[0]) && spec_trace_fits(
        in_parallel,
        spec_sup_step(in_parallel, st, evs[0]).0,
        evs.drop_first(),
    ))
}

/// The state and dispatch actions after feeding a whole trace to the
/// machine.
pub open spec fn spec_sup_run(in_parallel: bool, st: SupState, evs: Seq<SupEvent>) -> (
    SupState,
    Seq<SupAction>,
)
    decreases evs.len(),
{
    if evs.len() == 0 {
        (st, Seq::empty())
    } else {
        let (s1, a1) = spec_sup_step(in_parallel, st, evs[0]);
        let (sf, rest) = spec_sup_run(in_parallel, s1, evs.drop_first());
        (
            sf,
            match a1 {
                Some(a) => seq![a] + rest,
                None => rest,
            },
        )
    }
}

/// Whether a trace consists only of deliveries and completions: the
/// supervisor neither fails nor shuts down during it.
pub open spec fn spec_processing_trace(evs: Seq<SupEvent>) -> bool {
    forall|i: int|
        0 <= i < evs.len() ==> (#[trigger] evs[i] is StreamDelivery || evs[i] is TaskDone)
}

/// The deliveries a trace carries, in arrival order.
pub open spec fn spec_deliveries_of(evs: Seq<SupEvent>) -> Seq<Delivery>
    decreases evs.len(),
{
    if evs.len() == 0 {
        Seq::empty()
    } else {
        match evs[0] {
            SupEvent::StreamDelivery(d) => seq![d] + spec_deliveries_of(evs.drop_first()),
            _ => spec_deliveries_of(evs.drop_first()),
        }
    }
}

/// How many completions a trace carries.
pub open spec fn spec_dones_of(evs: Seq<SupEvent>) -> nat
    decreases evs.len(),
{
    if evs.len() == 0 {
        0
    } else {
        (if evs[0] is TaskDone {
            1nat
        } else {
            0nat
        }) + spec_dones_of(evs.drop_first())
    }
}

/// The deliveries of a dispatch-action sequence, in dispatch order.
pub open spec fn spec_dispatched_of(acts: Seq<SupAction>) -> Seq<Delivery>
    decreases acts.len(),
{
    if acts.len() == 0 {
        Seq::empty()
    } else {
        match acts[0] {
            SupAction::Dispatch(d) => seq![d] + spec_dispatched_of(acts.drop_first()),
        }
    }
}

/// Over any fitting trace of deliveries and completions, the supervisor
/// stays running, dispatches exactly the arriving deliveries in arrival
/// order, and its in-flight count is the dispatches minus the completions:
/// every arriving delivery gets its own lifecycle, every completion
/// reclaims exactly one slot, and none is lost.
pub proof fn lemma_processing_run(in_parallel: bool, st: SupState, evs: Seq<SupEvent>)
    requires
        st.phase is Running,
        spec_processing_trace(evs),
        spec_trace_fits(in_parallel, st, evs),
    ensures
        spec_sup_run(in_parallel, st, evs).0.phase is Running,
        spec_sup_run(in_parallel, st, evs).0.in_flight == st.in_flight + spec_deliveries_of(
            evs,
        ).len() - spec_dones_of(evs),
        spec_dispatched_of(spec_sup_run(in_parallel, st, evs).1) == spec_deliveries_of(evs),
    decreases evs.len(),
{
    if evs.len() > 0 {
        assert(evs[0] is StreamDelivery || evs[0] is TaskDone);
        let (s1, a1) = spec_sup_step(in_parallel, st, evs[0]);
        assert(spec_processing_trace(evs.drop_first())) by {
            assert(forall|i: int|
                0 <= i < evs.len() - 1 ==> #[trigger] evs.drop_first()[i] == evs[i + 1]);
        }
        lemma_processing_run(in_parallel, s1, evs.drop_first());
        let (sf, rest) = spec_sup_run(in_parallel, s1, evs.drop_first());
        match a1 {
            Some(a) => {
                assert((seq![a] + rest).drop_first() =~= rest);
                assert(spec_dispatched_of(seq![a] + rest) =~= spec_dispatched_of(rest).insert(
                    0,
                    spec_sup_deliv(evs[0]),
                ));
                assert(spec_deliveries_of(evs) =~= spec_deliveries_of(evs.drop_first()).insert(
                    0,
                    spec_sup_deliv(evs[0]),
                ));
            },
            None => {
            },
        }
    }
}

/// The delivery carried by a stream event.
pub open spec fn spec_sup_deliv(ev: SupEvent) -> Delivery
    recommends
        ev is StreamDelivery,
{
    match ev {
        SupEvent::StreamDelivery(d) => d,
        _ => arbitrary(),
    }
}

/// In sequential mode, at most one delivery lifecycle is ever in flight:
/// a delivery is dispatched only once the previous delivery's lifecycle has
/// completed, so each acknowledgment finishes strictly before the next
/// handler invocation begins.
pub proof fn lemma_sequential_single_slot(st: SupState, evs: Seq<SupEvent>)
    requires
        st.phase is Running,
        st.in_flight <= 1,
        spec_processing_trace(evs),
        spec_trace_fits(false, st, evs),
    ensures
        forall|i: int|
            0 <= i <= evs.len() ==> #[trigger] spec_sup_run(
                false,
                st,
                evs.take(i),
            ).0.in_flight <= 1,
    decreases evs.len(),
{
    assert forall|i: int|
        0 <= i <= evs.len() implies #[trigger] spec_sup_run(false, st, evs.take(i)).0.in_flight
        <= 1 by {
        if i == 0 {
            assert(evs.take(0) =~= Seq::<SupEvent>::empty());
        } else {
            let (s1, a1) = spec_sup_step(false, st, evs[0]);
            assert(spec_processing_trace(evs.drop_first())) by {
                assert(forall|j: int|
                    0 <= j < evs.len() - 1 ==> #[trigger] evs.drop_first()[j] == evs[j + 1]);
            }
            assert(s1.in_flight <= 1);
            lemma_sequential_single_slot(s1, evs.drop_first());
            assert(evs.take(i)[0] == evs[0]);
            assert(evs.take(i).drop_first() =~= evs.drop_first().take(i - 1));
            assert(spec_sup_run(false, s1, evs.drop_first().take(i - 1)).0.in_flight <= 1);
        }
    }
}

/// Shutdown always drains: a draining supervisor that observes one
/// completion per in-flight lifecycle ends stopped, with none left. No
/// in-flight lifecycle is ever cancelled by shutdown.
pub proof fn lemma_draining_completes(st: SupState, evs: Seq<SupEvent>)
    requires
        st.phase is Draining,
        st.in_flight == evs.len(),
        st.in_flight > 0,
        forall|i: int| 0 <= i < evs.len() ==> #[trigger] evs[i] is TaskDone,
    ensures
        spec_sup_run(true, st, evs).0 == (SupState { phase: SupPhase::Stopped, in_flight: 0 }),
        spec_sup_run(false, st, evs).0 == (SupState { phase: SupPhase::Stopped, in_flight: 0 }),
    decreases evs.len(),
{
    let (s1, _) = spec_sup_step(true, st, evs[0]);
    assert(spec_sup_step(false, st, evs[0]).0 == s1);
    if st.in_flight == 1 {
        assert(s1 == (SupState { phase: SupPhase::Stopped, in_flight: 0 }));
        lemma_absorbed_run(s1, evs.drop_first());
    } else {
        assert(forall|i: int|
            0 <= i < evs.len() - 1 ==> #[trigger] evs.drop_first()[i] == evs[i + 1]);
        lemma_draining_completes(s1, evs.drop_first());
    }
}

/// A stopped or failed supervisor changes no more.
proof fn lemma_absorbed_run(st: SupState, evs: Seq<SupEvent>)
    requires
        st.phase is Stopped || st.phase is Failed,
    ensures
        spec_sup_run(true, st, evs).0 == st,
        spec_sup_run(false, st, evs).0 == st,
    decreases evs.len(),
{
    if evs.len() > 0 {
        assert(spec_sup_step(true, st, evs[0]).0 == st);
        assert(spec_sup_step(false, st, evs[0]).0 == st);
        lemma_absorbed_run(st, evs.drop_first());
    }
}

/// Appending one event extends a supervisor run by one step at its end.
proof fn lemma_sup_run_snoc(
    in_parallel: bool,
    st: SupState,
    evs: Seq<SupEvent>,
    ev: SupEvent,
)
    ensures
        spec_sup_run(in_parallel, st, evs.push(ev)).0 == spec_sup_step(
            in_parallel,
            spec_sup_run(in_parallel, st, evs).0,
            ev,
        ).0,
        spec_sup_run(in_parallel, st, evs.push(ev)).1 == (match spec_sup_step(
            in_parallel,
            spec_sup_run(in_parallel, st, evs).0,
            ev,
        ).1 {
            Some(a) => spec_sup_run(in_parallel, st, evs).1.push(a),
            None => spec_sup_run(in_parallel, st, evs).1,
        }),
        spec_trace_fits(in_parallel, st, evs) && spec_event_fits(
            in_parallel,
            spec_sup_run(in_parallel, st, evs).0,
            ev,
        ) ==> spec_trace_fits(in_parallel, st, evs.push(ev)),
    decreases evs.len(),
{
    let (sf, acts) = spec_sup_run(in_parallel, st, evs);
    let (sn, an) = spec_sup_step(in_parallel, sf, ev);
    if evs.len() == 0 {
        assert(evs.push(ev)[0] == ev);
        assert(evs.push(ev).drop_first() =~= Seq::<SupEvent>::empty());
        assert(spec_sup_run(in_parallel, sn, Seq::<SupEvent>::empty()) == (
            sn,
            Seq::<SupAction>::empty(),
        ));
        assert(spec_trace_fits(in_parallel, sn, Seq::<SupEvent>::empty()));
        match an {
            Some(a) => {
                assert(seq![a] + Seq::<SupAction>::empty() =~= acts.push(a));
            },
            None => {
            },
        }
    } else {
        let (s1, a1) = spec_sup_step(in_parallel, st, evs[0]);
        assert(evs.push(ev)[0] == evs[0]);
        assert(evs.push(ev).drop_first() =~= evs.drop_first().push(ev));
        lemma_sup_run_snoc(in_parallel, s1, evs.drop_first(), ev);
        let racts = spec_sup_run(in_parallel, s1, evs.drop_first()).1;
        match (a1, an) {
            (Some(a), Some(b)) => {
                assert(seq![a] + racts.push(b) =~= (seq![a] + racts).push(b));
            },
            _ => {
            },
        }
    }
}

/// Runs the supervisor machine over a whole trace, from the initial state,
/// and returns the final state with every dispatch it asked for, in order.
pub fn run_supervisor(in_parallel: bool, events: Vec<SupEvent>) -> (r: (SupState, Vec<SupAction>))
    requires
        spec_trace_fits(
            in_parallel,
            SupState { phase: SupPhase::Running, in_flight: 0 },
            events@,
        ),
    ensures
        ({
            let (sf, acts) = spec_sup_run(
                in_parallel,
                SupState { phase: SupPhase::Running, in_flight: 0 },
                events@,
            );
            r.0 == sf && r.1@ == acts
        }),
{
    let init = SupState { phase: SupPhase::Running, in_flight: 0 };
    let ghost init_g = SupState { phase: SupPhase::Running, in_flight: 0 };
    let mut st = init;
    let mut actions: Vec<SupAction> = Vec::new();
    let mut events = events;
    let ghost all = events@;
    let ghost done: Seq<SupEvent> = Seq::empty();
    proof {
        assert(done + events@ =~= all);
        assert(spec_sup_run(in_parallel, init_g, done) == (init_g, Seq::<SupAction>::empty()));
    }
    while events.len() > 0
        invariant
            done + events@ =~= all,
            spec_trace_fits(in_parallel, init_g, all),
            st == spec_sup_run(in_parallel, init_g, done).0,
            actions@ == spec_sup_run(in_parallel, init_g, done).1,
            spec_trace_fits(in_parallel, init_g, done),
            spec_trace_fits(in_parallel, st, events@),
        decreases events@.len(),
    {
        let ev = events.remove(0);
        proof {
            assert(spec_event_fits(in_parallel, st, ev));
            lemma_sup_run_snoc(in_parallel, init_g, done, ev);
        }
        let (next, action) = sup_step(in_parallel, st, ev);
        proof {
            done = done.push(ev);
            assert(done + events@ =~= all);
        }
        st = next;
        match action {
            Some(a) => {
                actions.push(a);
            },
            None => {
            },
        }
    }
    proof {
        assert(done =~= all);
    }
    (st, actions)
}

} // verus!
