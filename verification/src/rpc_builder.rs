//! The request/response protocol layered on fire-and-forget publishing: one
//! call declares a transient reply queue, publishes a correlated request,
//! races the reply stream against a timer, validates the correlation id,
//! and purges the reply queue only after a fully successful round trip.
//! The call's decisions are a state machine; the surrounding task performs
//! the operation each phase names and feeds back what happened.

use vstd::prelude::*;

use crate::delivery::Delivery;

verus! {

/// Milliseconds added to the reply queue's expiry beyond the call timeout,
/// so the queue outlives the race by a fixed margin.
pub const RESPONSE_QUEUE_EXPIRE_MARGIN_MS: u64 = 500;

/// Milliseconds in the default call timeout (ten seconds).
pub const DEFAULT_RPC_TIMEOUT_MS: u64 = 10_000;

/// Builds one remote procedure call.
#[derive(Debug, Clone)]
pub struct RpcBuilder {
    /// The queue the request is published to.
    pub request_queue_name: String,
    /// The response timeout in milliseconds.
    pub timeout_ms: u64,
}

impl RpcBuilder {
    /// A call with the default ten-second timeout.
    pub fn new(request_queue_name: String) -> (r: RpcBuilder)
        ensures
            r.request_queue_name == request_queue_name,
            r.timeout_ms == DEFAULT_RPC_TIMEOUT_MS,
    {
        RpcBuilder { request_queue_name, timeout_ms: DEFAULT_RPC_TIMEOUT_MS }
    }

    /// Sets the response timeout; defaults to ten seconds.
    pub fn timeout_duration(self, timeout_ms: u64) -> (r: RpcBuilder)
        ensures
            r == (RpcBuilder { timeout_ms, ..self }),
    {
        RpcBuilder { timeout_ms, ..self }
    }
}

/// Why a call failed: one kind per failure point in the sequence.
#[derive(Debug, Clone, PartialEq)]
pub enum CallError {
    /// The channel for consuming the response could not be created.
    Channel(String),
    /// The reply queue could not be declared.
    QueueDeclare(String),
    /// Publishing the request failed.
    PublishRequest(String),
    /// Subscribing to the reply queue failed.
    ConsumeResponse(String),
    /// Serializing the call arguments failed.
    SerializeArguments(String),
    /// No response arrived within the timeout.
    TimeoutReached,
    /// The timeout plus the expiry margin does not fit the broker's
    /// 32-bit expiry field.
    TimeoutTooBig,
    /// The reply subscription ended before a response arrived.
    ConsumerCanceled,
    /// Receiving the response delivery failed.
    Delivery(String),
    /// The response's correlation id is missing or does not match the
    /// request's message id.
    CorrelationIdMismatch(String),
    /// The response payload could not be deserialized.
    DeserializeReturn(String),
    /// Purging the reply queue after the round trip failed.
    PurgeQueue(String),
}

/// The reply queue's expiry: the call timeout plus the fixed margin, which
/// must fit the broker's 32-bit millisecond field.
pub fn rpc_expiry_ms(timeout_ms: u64) -> (r: Result<u32, CallError>)
    ensures
        timeout_ms + RESPONSE_QUEUE_EXPIRE_MARGIN_MS <= u32::MAX ==> r == Result::<
            u32,
            CallError,
        >::Ok((timeout_ms + RESPONSE_QUEUE_EXPIRE_MARGIN_MS) as u32),
        timeout_ms + RESPONSE_QUEUE_EXPIRE_MARGIN_MS > u32::MAX ==> r == Result::<
            u32,
            CallError,
        >::Err(CallError::TimeoutTooBig),
{
    if timeout_ms <= u32::MAX as u64 - RESPONSE_QUEUE_EXPIRE_MARGIN_MS {
        Ok((timeout_ms + RESPONSE_QUEUE_EXPIRE_MARGIN_MS) as u32)
    } else {
        Err(CallError::TimeoutTooBig)
    }
}

/// The fresh reply queue's name: a fixed prefix and the call's unique id.
pub fn response_queue_name(uid: &String) -> (r: String)
    ensures
        r@ == "rpc_response_queue_"@ + uid@,
{
    let mut s = String::from_str("rpc_response_queue_");
    s.append(uid.as_str());
    s
}

/// Validates a response's correlation id against the request's message id:
/// it must be present and equal.
pub fn check_correlation(message_id: &String, correlation_id: &Option<String>) -> (r: Result<
    (),
    CallError,
>)
    ensures
        match correlation_id {
            Some(c) => if c@ == message_id@ {
                r is Ok
            } else {
                r matches Err(e) && e matches CallError::CorrelationIdMismatch(m) && m@
                    == "response message correlation_id does not match"@
            },
            None => r matches Err(e) && e matches CallError::CorrelationIdMismatch(m) && m@
                == "response message is missing correlation_id"@,
        },
{
    match correlation_id {
        Some(c) => {
            if c.eq(message_id) {
                Ok(())
            } else {
                Err(
                    CallError::CorrelationIdMismatch(
                        String::from_str("response message correlation_id does not match"),
                    ),
                )
            }
        },
        None => Err(
            CallError::CorrelationIdMismatch(
                String::from_str("response message is missing correlation_id"),
            ),
        ),
    }
}

/// Where one call stands; each phase names the operation outstanding.
#[derive(Debug)]
pub enum RpcPhase {
    /// The reply queue declare is outstanding.
    Declaring,
    /// The request publish is outstanding.
    Publishing,
    /// The channel for the reply subscription is outstanding.
    OpeningChannel,
    /// The reply subscription is outstanding.
    Consuming,
    /// The reply stream is racing the timer.
    AwaitingResponse,
    /// A correlated response arrived; its typed decode is outstanding.
    AwaitingDecode(Vec<u8>),
    /// The round trip succeeded; the reply queue purge is outstanding.
    Purging(Vec<u8>),
    /// The call finished with the payload bytes or a failure.
    Finished(Result<Vec<u8>, CallError>),
}

/// A failure with its message abstracted to its contents.
pub enum CallErrorV {
    /// See [`CallError::Channel`].
    Channel(Seq<char>),
    /// See [`CallError::QueueDeclare`].
    QueueDeclare(Seq<char>),
    /// See [`CallError::PublishRequest`].
    PublishRequest(Seq<char>),
    /// See [`CallError::ConsumeResponse`].
    ConsumeResponse(Seq<char>),
    /// See [`CallError::SerializeArguments`].
    SerializeArguments(Seq<char>),
    /// See [`CallError::TimeoutReached`].
    TimeoutReached,
    /// See [`CallError::TimeoutTooBig`].
    TimeoutTooBig,
    /// See [`CallError::ConsumerCanceled`].
    ConsumerCanceled,
    /// See [`CallError::Delivery`].
    Delivery(Seq<char>),
    /// See [`CallError::CorrelationIdMismatch`].
    CorrelationIdMismatch(Seq<char>),
    /// See [`CallError::DeserializeReturn`].
    DeserializeReturn(Seq<char>),
    /// See [`CallError::PurgeQueue`].
    PurgeQueue(Seq<char>),
}

/// The contents of a failure.
pub open spec fn spec_call_error_view(e: CallError) -> CallErrorV {
    match e {
        CallError::Channel(m) => CallErrorV::Channel(m@),
        CallError::QueueDeclare(m) => CallErrorV::QueueDeclare(m@),
        CallError::PublishRequest(m) => CallErrorV::PublishRequest(m@),
        CallError::ConsumeResponse(m) => CallErrorV::ConsumeResponse(m@),
        CallError::SerializeArguments(m) => CallErrorV::SerializeArguments(m@),
        CallError::TimeoutReached => CallErrorV::TimeoutReached,
        CallError::TimeoutTooBig => CallErrorV::TimeoutTooBig,
        CallError::ConsumerCanceled => CallErrorV::ConsumerCanceled,
        CallError::Delivery(m) => CallErrorV::Delivery(m@),
        CallError::CorrelationIdMismatch(m) => CallErrorV::CorrelationIdMismatch(m@),
        CallError::DeserializeReturn(m) => CallErrorV::DeserializeReturn(m@),
        CallError::PurgeQueue(m) => CallErrorV::PurgeQueue(m@),
    }
}

/// A phase with its payloads and messages abstracted to their contents.
pub enum RpcPhaseV {
    /// See [`RpcPhase::Declaring`].
    Declaring,
    /// See [`RpcPhase::Publishing`].
    Publishing,
    /// See [`RpcPhase::OpeningChannel`].
    OpeningChannel,
    /// See [`RpcPhase::Consuming`].
    Consuming,
    /// See [`RpcPhase::AwaitingResponse`].
    AwaitingResponse,
    /// See [`RpcPhase::AwaitingDecode`].
    AwaitingDecode(Seq<u8>),
    /// See [`RpcPhase::Purging`].
    Purging(Seq<u8>),
    /// See [`RpcPhase::Finished`].
    Finished(Result<Seq<u8>, CallErrorV>),
}

/// The contents of a phase.
pub open spec fn spec_rpc_phase_view(p: RpcPhase) -> RpcPhaseV {
    match p {
        RpcPhase::Declaring => RpcPhaseV::Declaring,
        RpcPhase::Publishing => RpcPhaseV::Publishing,
        RpcPhase::OpeningChannel => RpcPhaseV::OpeningChannel,
        RpcPhase::Consuming => RpcPhaseV::Consuming,
        RpcPhase::AwaitingResponse => RpcPhaseV::AwaitingResponse,
        RpcPhase::AwaitingDecode(b) => RpcPhaseV::AwaitingDecode(b@),
        RpcPhase::Purging(b) => RpcPhaseV::Purging(b@),
        RpcPhase::Finished(r) => RpcPhaseV::Finished(
            match r {
                Ok(b) => Ok(b@),
                Err(e) => Err(spec_call_error_view(e)),
            },
        ),
    }
}

/// What the driving task reports back to the machine.
#[derive(Debug)]
pub enum RpcEvent {
    /// The reply queue was declared.
    DeclareOk,
    /// Declaring the reply queue failed.
    DeclareErr(String),
    /// The request was published.
    PublishOk,
    /// Publishing the request failed.
    PublishErr(String),
    /// The channel was created.
    ChannelOk,
    /// Creating the channel failed.
    ChannelErr(String),
    /// The reply subscription was opened.
    ConsumeOk,
    /// Opening the reply subscription failed.
    ConsumeErr(String),
    /// The reply stream yielded a delivery.
    ResponseDelivery(Delivery),
    /// The timer fired before any response.
    ResponseTimeout,
    /// The reply stream ended before any response.
    ResponseClosed,
    /// Receiving the response delivery failed.
    ResponseErr(String),
    /// The typed decode of the payload succeeded at the call site.
    DecodeOk,
    /// The typed decode of the payload failed at the call site.
    DecodeErr(String),
    /// The reply queue purge succeeded.
    PurgeOk,
    /// The reply queue purge failed.
    PurgeErr(String),
}

/// What a correlated response contributes: the payload if the correlation
/// id matches the request's message id, else the mismatch failure.
pub open spec fn spec_response_phase(message_id: Seq<char>, d: Delivery) -> RpcPhaseV {
    match d.props.correlation_id {
        Some(c) => if c@ == message_id {
            RpcPhaseV::AwaitingDecode(d.payload@)
        } else {
            RpcPhaseV::Finished(
                Err(
                    CallErrorV::CorrelationIdMismatch(
                        "response message correlation_id does not match"@,
                    ),
                ),
            )
        },
        None => RpcPhaseV::Finished(
            Err(CallErrorV::CorrelationIdMismatch("response message is missing correlation_id"@)),
        ),
    }
}

/// One transition of the call machine. An event that does not answer the
/// outstanding operation changes nothing; a finished call absorbs
/// everything.
pub open spec fn spec_rpc_step(message_id: Seq<char>, ph: RpcPhaseV, ev: RpcEvent) -> RpcPhaseV {
    match (ph, ev) {
        (RpcPhaseV::Declaring, RpcEvent::DeclareOk) => RpcPhaseV::Publishing,
        (RpcPhaseV::Declaring, RpcEvent::DeclareErr(m)) => RpcPhaseV::Finished(
            Err(CallErrorV::QueueDeclare(m@)),
        ),
        (RpcPhaseV::Publishing, RpcEvent::PublishOk) => RpcPhaseV::OpeningChannel,
        (RpcPhaseV::Publishing, RpcEvent::PublishErr(m)) => RpcPhaseV::Finished(
            Err(CallErrorV::PublishRequest(m@)),
        ),
        (RpcPhaseV::OpeningChannel, RpcEvent::ChannelOk) => RpcPhaseV::Consuming,
        (RpcPhaseV::OpeningChannel, RpcEvent::ChannelErr(m)) => RpcPhaseV::Finished(
            Err(CallErrorV::Channel(m@)),
        ),
        (RpcPhaseV::Consuming, RpcEvent::ConsumeOk) => RpcPhaseV::AwaitingResponse,
        (RpcPhaseV::Consuming, RpcEvent::ConsumeErr(m)) => RpcPhaseV::Finished(
            Err(CallErrorV::ConsumeResponse(m@)),
        ),
        (RpcPhaseV::AwaitingResponse, RpcEvent::ResponseDelivery(d)) => spec_response_phase(
            message_id,
            d,
        ),
        (RpcPhaseV::AwaitingResponse, RpcEvent::ResponseTimeout) => RpcPhaseV::Finished(
            Err(CallErrorV::TimeoutReached),
        ),
        (RpcPhaseV::AwaitingResponse, RpcEvent::ResponseClosed) => RpcPhaseV::Finished(
            Err(CallErrorV::ConsumerCanceled),
        ),
        (RpcPhaseV::AwaitingResponse, RpcEvent::ResponseErr(m)) => RpcPhaseV::Finished(
            Err(CallErrorV::Delivery(m@)),
        ),
        (RpcPhaseV::AwaitingDecode(b), RpcEvent::DecodeOk) => RpcPhaseV::Purging(b),
        (RpcPhaseV::AwaitingDecode(_), RpcEvent::DecodeErr(m)) => RpcPhaseV::Finished(
            Err(CallErrorV::DeserializeReturn(m@)),
        ),
        (RpcPhaseV::Purging(b), RpcEvent::PurgeOk) => RpcPhaseV::Finished(Ok(b)),
        (RpcPhaseV::Purging(_), RpcEvent::PurgeErr(m)) => RpcPhaseV::Finished(
            Err(CallErrorV::PurgeQueue(m@)),
        ),
        (p, _) => p,
    }
}

/// Runs one transition of the call machine.
pub fn rpc_step(message_id: &String, phase: RpcPhase, ev: RpcEvent) -> (r: RpcPhase)
    ensures
        spec_rpc_phase_view(r) == spec_rpc_step(message_id@, spec_rpc_phase_view(phase), ev),
{
    match (phase, ev) {
        (RpcPhase::Declaring, RpcEvent::DeclareOk) => RpcPhase::Publishing,
        (RpcPhase::Declaring, RpcEvent::DeclareErr(m)) => RpcPhase::Finished(
            Err(CallError::QueueDeclare(m)),
        ),
        (RpcPhase::Publishing, RpcEvent::PublishOk) => RpcPhase::OpeningChannel,
        (RpcPhase::Publishing, RpcEvent::PublishErr(m)) => RpcPhase::Finished(
            Err(CallError::PublishRequest(m)),
        ),
        (RpcPhase::OpeningChannel, RpcEvent::ChannelOk) => RpcPhase::Consuming,
        (RpcPhase::OpeningChannel, RpcEvent::ChannelErr(m)) => RpcPhase::Finished(
            Err(CallError::Channel(m)),
        ),
        (RpcPhase::Consuming, RpcEvent::ConsumeOk) => RpcPhase::AwaitingResponse,
        (RpcPhase::Consuming, RpcEvent::ConsumeErr(m)) => RpcPhase::Finished(
            Err(CallError::ConsumeResponse(m)),
        ),
        (RpcPhase::AwaitingResponse, RpcEvent::ResponseDelivery(d)) => {
            match check_correlation(message_id, &d.props.correlation_id) {
                Ok(()) => RpcPhase::AwaitingDecode(d.payload),
                Err(e) => RpcPhase::Finished(Err(e)),
            }
        },
        (RpcPhase::AwaitingResponse, RpcEvent::ResponseTimeout) => RpcPhase::Finished(
            Err(CallError::TimeoutReached),
        ),
        (RpcPhase::AwaitingResponse, RpcEvent::ResponseClosed) => RpcPhase::Finished(
            Err(CallError::ConsumerCanceled),
        ),
        (RpcPhase::AwaitingResponse, RpcEvent::ResponseErr(m)) => RpcPhase::Finished(
            Err(CallError::Delivery(m)),
        ),
        (RpcPhase::AwaitingDecode(b), RpcEvent::DecodeOk) => RpcPhase::Purging(b),
        (RpcPhase::AwaitingDecode(_), RpcEvent::DecodeErr(m)) => RpcPhase::Finished(
            Err(CallError::DeserializeReturn(m)),
        ),
        (RpcPhase::Purging(b), RpcEvent::PurgeOk) => RpcPhase::Finished(Ok(b)),
        (RpcPhase::Purging(_), RpcEvent::PurgeErr(m)) => RpcPhase::Finished(
            Err(CallError::PurgeQueue(m)),
        ),
        (p, _) => p,
    }
}

/// The phases a call visits over a trace, the initial phase excluded, and
/// the final phase last.
pub open spec fn spec_rpc_run(message_id: Seq<char>, ph: RpcPhaseV, evs: Seq<RpcEvent>) -> Seq<
    RpcPhaseV,
>
    decreases evs.len(),
{
    if evs.len() == 0 {
        Seq::empty()
    } else {
        let p1 = spec_rpc_step(message_id, ph, evs[0]);
        seq![p1] + spec_rpc_run(message_id, p1, evs.drop_first())
    }
}

/// The final phase after a trace.
pub open spec fn spec_rpc_final(message_id: Seq<char>, ph: RpcPhaseV, evs: Seq<RpcEvent>) -> RpcPhaseV {
    if evs.len() == 0 {
        ph
    } else {
        spec_rpc_run(message_id, ph, evs).last()
    }
}

/// Appending one event moves the final phase by one step.
proof fn lemma_rpc_final_snoc(message_id: Seq<char>, ph: RpcPhaseV, evs: Seq<RpcEvent>, ev: RpcEvent)
    ensures
        spec_rpc_final(message_id, ph, evs.push(ev)) == spec_rpc_step(
            message_id,
            spec_rpc_final(message_id, ph, evs),
            ev,
        ),
    decreases evs.len(),
{
    lemma_run_len(message_id, ph, evs.push(ev));
    if evs.len() == 0 {
        assert(evs.push(ev)[0] == ev);
        assert(evs.push(ev).drop_first() =~= Seq::<RpcEvent>::empty());
        let pn = spec_rpc_step(message_id, ph, ev);
        assert(spec_rpc_run(message_id, pn, Seq::<RpcEvent>::empty()) =~= Seq::<
            RpcPhaseV,
        >::empty());
        assert(spec_rpc_run(message_id, ph, evs.push(ev)) == seq![pn] + Seq::<RpcPhaseV>::empty());
        assert((seq![pn] + Seq::<RpcPhaseV>::empty()).last() == pn);
    } else {
        let p1 = spec_rpc_step(message_id, ph, evs[0]);
        assert(evs.push(ev)[0] == evs[0]);
        assert(evs.push(ev).drop_first() =~= evs.drop_first().push(ev));
        lemma_rpc_final_snoc(message_id, p1, evs.drop_first(), ev);
        lemma_run_len(message_id, p1, evs.drop_first().push(ev));
        lemma_run_len(message_id, p1, evs.drop_first());
        let tail = spec_rpc_run(message_id, p1, evs.drop_first().push(ev));
        assert(spec_rpc_run(message_id, ph, evs.push(ev)) == seq![p1] + tail);
        assert((seq![p1] + tail).last() == tail.last());
        if evs.drop_first().len() == 0 {
            assert(spec_rpc_final(message_id, ph, evs) == spec_rpc_run(message_id, ph, evs).last());
            assert(spec_rpc_run(message_id, ph, evs) == seq![p1] + spec_rpc_run(
                message_id,
                p1,
                evs.drop_first(),
            ));
            assert(spec_rpc_run(message_id, p1, evs.drop_first()) =~= Seq::<RpcPhaseV>::empty());
            assert(spec_rpc_final(message_id, ph, evs) == p1);
        } else {
            let rtail = spec_rpc_run(message_id, p1, evs.drop_first());
            assert(spec_rpc_run(message_id, ph, evs) == seq![p1] + rtail);
            assert((seq![p1] + rtail).last() == rtail.last());
            assert(spec_rpc_final(message_id, ph, evs) == spec_rpc_final(
                message_id,
                p1,
                evs.drop_first(),
            ));
        }
    }
}

/// Runs one whole call through the machine: feeds every event in order,
/// starting before the reply queue declare, and returns where the call
/// ended.
pub fn run_rpc(message_id: &String, events: Vec<RpcEvent>) -> (r: RpcPhase)
    ensures
        spec_rpc_phase_view(r) == spec_rpc_final(message_id@, RpcPhaseV::Declaring, events@),
{
    let mut phase = RpcPhase::Declaring;
    let mut events = events;
    let ghost all = events@;
    let ghost done: Seq<RpcEvent> = Seq::empty();
    proof {
        assert(done + events@ =~= all);
    }
    while events.len() > 0
        invariant
            done + events@ =~= all,
            spec_rpc_phase_view(phase) == spec_rpc_final(message_id@, RpcPhaseV::Declaring, done),
        decreases events@.len(),
    {
        let ev = events.remove(0);
        proof {
            lemma_rpc_final_snoc(message_id@, RpcPhaseV::Declaring, done, ev);
        }
        phase = rpc_step(message_id, phase, ev);
        proof {
            done = done.push(ev);
            assert(done + events@ =~= all);
        }
    }
    proof {
        assert(done =~= all);
    }
    phase
}

/// A finished call stays finished and visits no further phase.
proof fn lemma_finished_absorbs(message_id: Seq<char>, res: Result<Seq<u8>, CallErrorV>, evs: Seq<RpcEvent>)
    ensures
        forall|i: int|
            0 <= i < evs.len() ==> spec_rpc_run(message_id, RpcPhaseV::Finished(res), evs)[i]
                == RpcPhaseV::Finished(res),
        spec_rpc_run(message_id, RpcPhaseV::Finished(res), evs).len() == evs.len(),
    decreases evs.len(),
{
    if evs.len() > 0 {
        assert(spec_rpc_step(message_id, RpcPhaseV::Finished(res), evs[0]) == RpcPhaseV::Finished(
            res,
        ));
        lemma_finished_absorbs(message_id, res, evs.drop_first());
    }
}
/// The first phases a call walks through when declare, publish, channel,
/// and subscription all succeed, and the suffix relation past them.
proof fn lemma_rpc_setup(message_id: Seq<char>, evs: Seq<RpcEvent>)
    requires
        evs.len() >= 5,
        evs[0] is DeclareOk,
        evs[1] is PublishOk,
        evs[2] is ChannelOk,
        evs[3] is ConsumeOk,
    ensures
        spec_rpc_run(message_id, RpcPhaseV::Declaring, evs).len() == evs.len(),
        spec_rpc_run(message_id, RpcPhaseV::Declaring, evs)[0] == RpcPhaseV::Publishing,
        spec_rpc_run(message_id, RpcPhaseV::Declaring, evs)[1] == RpcPhaseV::OpeningChannel,
        spec_rpc_run(message_id, RpcPhaseV::Declaring, evs)[2] == RpcPhaseV::Consuming,
        spec_rpc_run(message_id, RpcPhaseV::Declaring, evs)[3] == RpcPhaseV::AwaitingResponse,
        forall|i: int|
            4 <= i < evs.len() ==> #[trigger] spec_rpc_run(message_id, RpcPhaseV::Declaring, evs)[i]
                == spec_rpc_run(message_id, RpcPhaseV::AwaitingResponse, evs.skip(4))[i - 4],
{
    let e1 = evs.drop_first();
    let e2 = e1.drop_first();
    let e3 = e2.drop_first();
    let e4 = e3.drop_first();
    assert(e1[0] == evs[1]);
    assert(e2[0] == evs[2]);
    assert(e3[0] == evs[3]);
    assert(e4 =~= evs.skip(4));
    lemma_run_len(message_id, RpcPhaseV::Declaring, evs);
    lemma_run_len(message_id, RpcPhaseV::Publishing, e1);
    lemma_run_len(message_id, RpcPhaseV::OpeningChannel, e2);
    lemma_run_len(message_id, RpcPhaseV::Consuming, e3);
    lemma_run_len(message_id, RpcPhaseV::AwaitingResponse, e4);
    let r = spec_rpc_run(message_id, RpcPhaseV::Declaring, evs);
    assert(r == seq![RpcPhaseV::Publishing] + spec_rpc_run(message_id, RpcPhaseV::Publishing, e1));
    assert(spec_rpc_run(message_id, RpcPhaseV::Publishing, e1) == seq![RpcPhaseV::OpeningChannel]
        + spec_rpc_run(message_id, RpcPhaseV::OpeningChannel, e2));
    assert(spec_rpc_run(message_id, RpcPhaseV::OpeningChannel, e2) == seq![RpcPhaseV::Consuming]
        + spec_rpc_run(message_id, RpcPhaseV::Consuming, e3));
    assert(spec_rpc_run(message_id, RpcPhaseV::Consuming, e3) == seq![RpcPhaseV::AwaitingResponse]
        + spec_rpc_run(message_id, RpcPhaseV::AwaitingResponse, e4));
    assert forall|i: int|
        4 <= i < evs.len() implies #[trigger] r[i] == spec_rpc_run(
        message_id,
        RpcPhaseV::AwaitingResponse,
        evs.skip(4),
    )[i - 4] by {
        assert(r[i] == spec_rpc_run(message_id, RpcPhaseV::Publishing, e1)[i - 1]);
        assert(spec_rpc_run(message_id, RpcPhaseV::Publishing, e1)[i - 1] == spec_rpc_run(
            message_id,
            RpcPhaseV::OpeningChannel,
            e2,
        )[i - 2]);
        assert(spec_rpc_run(message_id, RpcPhaseV::OpeningChannel, e2)[i - 2] == spec_rpc_run(
            message_id,
            RpcPhaseV::Consuming,
            e3,
        )[i - 3]);
        assert(spec_rpc_run(message_id, RpcPhaseV::Consuming, e3)[i - 3] == spec_rpc_run(
            message_id,
            RpcPhaseV::AwaitingResponse,
            e4,
        )[i - 4]);
    }
}

/// A run's length equals its trace's length.
proof fn lemma_run_len(message_id: Seq<char>, ph: RpcPhaseV, evs: Seq<RpcEvent>)
    ensures
        spec_rpc_run(message_id, ph, evs).len() == evs.len(),
    decreases evs.len(),
{
    if evs.len() > 0 {
        lemma_run_len(message_id, spec_rpc_step(message_id, ph, evs[0]), evs.drop_first());
    }
}

/// Round trip: after the reply queue is declared, the request published,
/// the channel opened and the subscription established, a response whose
/// correlation id equals the request's message id, a successful typed
/// decode, and a successful purge leave the call finished with exactly the
/// response's payload bytes.
pub proof fn lemma_round_trip(message_id: Seq<char>, d: Delivery, evs: Seq<RpcEvent>)
    requires
        evs.len() >= 7,
        evs[0] is DeclareOk,
        evs[1] is PublishOk,
        evs[2] is ChannelOk,
        evs[3] is ConsumeOk,
        evs[4] == RpcEvent::ResponseDelivery(d),
        d.props.correlation_id matches Some(c) && c@ == message_id,
        evs[5] is DecodeOk,
        evs[6] is PurgeOk,
    ensures
        spec_rpc_run(message_id, RpcPhaseV::Declaring, evs)[6] == RpcPhaseV::Finished(
            Result::<Seq<u8>, CallErrorV>::Ok(d.payload@),
        ),
{
    lemma_rpc_setup(message_id, evs);
    let s4 = evs.skip(4);
    let s5 = s4.drop_first();
    let s6 = s5.drop_first();
    assert(s4[0] == evs[4]);
    assert(s5[0] == evs[5]);
    assert(s6[0] == evs[6]);
    let p = d.payload@;
    let rr = spec_rpc_run(message_id, RpcPhaseV::AwaitingResponse, s4);
    lemma_run_len(message_id, RpcPhaseV::AwaitingResponse, s4);
    lemma_run_len(message_id, RpcPhaseV::AwaitingDecode(p), s5);
    lemma_run_len(message_id, RpcPhaseV::Purging(p), s6);
    assert(spec_rpc_step(message_id, RpcPhaseV::AwaitingResponse, s4[0])
        == RpcPhaseV::AwaitingDecode(p));
    assert(rr == seq![RpcPhaseV::AwaitingDecode(p)] + spec_rpc_run(
        message_id,
        RpcPhaseV::AwaitingDecode(p),
        s5,
    ));
    assert(spec_rpc_run(message_id, RpcPhaseV::AwaitingDecode(p), s5) == seq![
        RpcPhaseV::Purging(p),
    ] + spec_rpc_run(message_id, RpcPhaseV::Purging(p), s6));
    assert(spec_rpc_run(message_id, RpcPhaseV::Purging(p), s6)[0] == RpcPhaseV::Finished(
        Result::<Seq<u8>, CallErrorV>::Ok(p),
    ));
    assert(spec_rpc_run(message_id, RpcPhaseV::Declaring, evs)[6] == rr[2]);
}

/// Correlation mismatch: a response whose correlation id is missing or
/// differs from the request's message id leaves the call finished with a
/// correlation-mismatch failure, at once and for the rest of the call; no
/// payload is ever returned from it.
pub proof fn lemma_correlation_mismatch(message_id: Seq<char>, d: Delivery, evs: Seq<RpcEvent>)
    requires
        evs.len() >= 5,
        evs[0] is DeclareOk,
        evs[1] is PublishOk,
        evs[2] is ChannelOk,
        evs[3] is ConsumeOk,
        evs[4] == RpcEvent::ResponseDelivery(d),
        !(d.props.correlation_id matches Some(c) && c@ == message_id),
    ensures
        spec_rpc_run(message_id, RpcPhaseV::Declaring, evs)[4] matches RpcPhaseV::Finished(res)
            && res matches Err(e) && e is CorrelationIdMismatch,
        forall|i: int|
            4 <= i < evs.len() ==> #[trigger] spec_rpc_run(message_id, RpcPhaseV::Declaring, evs)[i]
                == spec_rpc_run(message_id, RpcPhaseV::Declaring, evs)[4],
{
    lemma_rpc_setup(message_id, evs);
    let s4 = evs.skip(4);
    let s5 = s4.drop_first();
    assert(s4[0] == evs[4]);
    assert(s5 =~= evs.skip(5));
    let rr = spec_rpc_run(message_id, RpcPhaseV::AwaitingResponse, s4);
    lemma_run_len(message_id, RpcPhaseV::AwaitingResponse, s4);
    let p4 = spec_rpc_step(message_id, RpcPhaseV::AwaitingResponse, s4[0]);
    assert(p4 == spec_response_phase(message_id, d));
    match p4 {
        RpcPhaseV::Finished(res) => {
            assert(res matches Err(e) && e is CorrelationIdMismatch);
            lemma_finished_absorbs(message_id, res, s5);
            assert(rr == seq![p4] + spec_rpc_run(message_id, RpcPhaseV::Finished(res), s5));
            assert forall|i: int|
                4 <= i < evs.len() implies #[trigger] spec_rpc_run(
                message_id,
                RpcPhaseV::Declaring,
                evs,
            )[i] == spec_rpc_run(message_id, RpcPhaseV::Declaring, evs)[4] by {
                if i > 4 {
                    assert(spec_rpc_run(message_id, RpcPhaseV::Declaring, evs)[i] == rr[i - 4]);
                    assert(rr[i - 4] == spec_rpc_run(message_id, RpcPhaseV::Finished(res), s5)[i
                        - 5]);
                }
            }
        },
        _ => {
            assert(false);
        },
    }
}

/// Timeout: if the timer fires before any response, the call finishes with
/// the timeout failure, and the reply queue purge is never requested — no
/// phase of the call is ever the purging phase; the queue expires on its
/// own instead.
pub proof fn lemma_timeout_never_purges(message_id: Seq<char>, evs: Seq<RpcEvent>)
    requires
        evs.len() >= 5,
        evs[0] is DeclareOk,
        evs[1] is PublishOk,
        evs[2] is ChannelOk,
        evs[3] is ConsumeOk,
        evs[4] is ResponseTimeout,
    ensures
        spec_rpc_run(message_id, RpcPhaseV::Declaring, evs)[4] == RpcPhaseV::Finished(
            Result::<Seq<u8>, CallErrorV>::Err(CallErrorV::TimeoutReached),
        ),
        forall|i: int|
            0 <= i < evs.len() ==> !(#[trigger] spec_rpc_run(message_id, RpcPhaseV::Declaring, evs)[i]
                is Purging),
{
    lemma_rpc_setup(message_id, evs);
    let s4 = evs.skip(4);
    let s5 = s4.drop_first();
    assert(s4[0] == evs[4]);
    let res = Result::<Seq<u8>, CallErrorV>::Err(CallErrorV::TimeoutReached);
    let rr = spec_rpc_run(message_id, RpcPhaseV::AwaitingResponse, s4);
    lemma_run_len(message_id, RpcPhaseV::AwaitingResponse, s4);
    lemma_finished_absorbs(message_id, res, s5);
    assert(rr == seq![RpcPhaseV::Finished(res)] + spec_rpc_run(
        message_id,
        RpcPhaseV::Finished(res),
        s5,
    ));
    let r = spec_rpc_run(message_id, RpcPhaseV::Declaring, evs);
    assert forall|i: int| 0 <= i < evs.len() implies !(#[trigger] r[i] is Purging) by {
        if i >= 4 {
            assert(r[i] == rr[i - 4]);
            if i > 4 {
                assert(rr[i - 4] == spec_rpc_run(message_id, RpcPhaseV::Finished(res), s5)[i - 5]);
            }
        }
    }
}

} // verus!
