//! The decisions taken on one processing stream.
//!
//! Envoy opens a stream and sends processing requests on it; the processor
//! answers each with one processing response, in order. A failure on the
//! inbound side is passed on to Envoy and ends the stream; so does a
//! response that can no longer be delivered. The transport performs the
//! actions this state machine chooses and reports back what happened.
use vstd::prelude::*;
use crate::messages::{ProcessingRequest, ProcessingResponse, ProcessingResponseView};
use crate::processor::{phase_of, response_for, MyExtProcessor, Phase};

verus! {

/// Where a processing stream stands.
#[derive(Debug, Clone, Copy, PartialEq, Eq, Structural)]
pub enum StreamPhase {
    /// Waiting for the next inbound message.
    AwaitingRequest,
    /// A message was handed out for delivery; `closing` when it is the
    /// stream's last (a forwarded inbound failure).
    AwaitingDelivery { closing: bool },
    /// The stream is over.
    Finished,
}

/// What the transport reports.
#[derive(Debug, PartialEq, Eq)]
pub enum StreamEvent<E> {
    /// A message, or a failure, arrived from Envoy.
    Inbound(Result<ProcessingRequest, E>),
    /// Envoy closed its side of the stream.
    InboundClosed,
    /// Whether the last message handed out was delivered.
    Delivery(bool),
}

/// What the transport is to do next.
#[derive(Debug, PartialEq, Eq)]
pub enum StreamAction<E> {
    /// Deliver this message to Envoy, then report whether it was delivered.
    Forward(Result<ProcessingResponse, E>),
    /// Wait for the next inbound message.
    Receive,
    /// End the stream.
    Stop,
}

pub enum EventView<E> {
    Inbound(Result<Option<Phase>, E>),
    InboundClosed,
    Delivery(bool),
}

pub enum ActionView<E> {
    Forward(Result<ProcessingResponseView, E>),
    Receive,
    Stop,
}

impl<E> View for StreamEvent<E> {
    type V = EventView<E>;

    open spec fn view(&self) -> EventView<E> {
        match self {
            StreamEvent::Inbound(Ok(request)) => EventView::Inbound(Ok(phase_of(request.request))),
            StreamEvent::Inbound(Err(e)) => EventView::Inbound(Err(*e)),
            StreamEvent::InboundClosed => EventView::InboundClosed,
            StreamEvent::Delivery(delivered) => EventView::Delivery(*delivered),
        }
    }
}

impl<E> View for StreamAction<E> {
    type V = ActionView<E>;

    open spec fn view(&self) -> ActionView<E> {
        match self {
            StreamAction::Forward(Ok(response)) => ActionView::Forward(Ok(response@)),
            StreamAction::Forward(Err(e)) => ActionView::Forward(Err(*e)),
            StreamAction::Receive => ActionView::Receive,
            StreamAction::Stop => ActionView::Stop,
        }
    }
}

/// One step of the stream: a request is answered by the response for its
/// phase; an inbound failure is passed on as the stream's last message; a
/// delivered response leads back to receiving; the end of the inbound side,
/// a failed delivery, the delivery of the last message, and any event the
/// current phase does not expect end the stream, which stays ended.
pub open spec fn transition<E>(phase: StreamPhase, event: EventView<E>) -> (StreamPhase, ActionView<E>) {
    match (phase, event) {
        (StreamPhase::AwaitingRequest, EventView::Inbound(Ok(p))) => (
            StreamPhase::AwaitingDelivery { closing: false },
            ActionView::Forward(Ok(response_for(p))),
        ),
        (StreamPhase::AwaitingRequest, EventView::Inbound(Err(e))) => (
            StreamPhase::AwaitingDelivery { closing: true },
            ActionView::Forward(Err(e)),
        ),
        (StreamPhase::AwaitingRequest, EventView::InboundClosed) => (StreamPhase::Finished, ActionView::Stop),
        (StreamPhase::AwaitingDelivery { closing }, EventView::Delivery(delivered)) => {
            if delivered && !closing {
                (StreamPhase::AwaitingRequest, ActionView::Receive)
            } else {
                (StreamPhase::Finished, ActionView::Stop)
            }
        },
        _ => (StreamPhase::Finished, ActionView::Stop),
    }
}

impl StreamPhase {
    /// The phase a new stream starts in.
    pub fn start() -> (phase: StreamPhase)
        ensures
            phase == StreamPhase::AwaitingRequest,
    {
        StreamPhase::AwaitingRequest
    }

    /// Whether the stream is over.
    pub fn is_finished(&self) -> (finished: bool)
        ensures
            finished == (*self == StreamPhase::Finished),
    {
        match self {
            StreamPhase::Finished => true,
            _ => false,
        }
    }

    /// Takes one step: the next phase and the action to perform.
    pub fn step<E>(self, processor: &MyExtProcessor, event: StreamEvent<E>) -> (next: (StreamPhase, StreamAction<E>))
        ensures
            (next.0, next.1@) == transition(self, event@),
    {
        match (self, event) {
            (StreamPhase::AwaitingRequest, StreamEvent::Inbound(Ok(request))) => (
                StreamPhase::AwaitingDelivery { closing: false },
                StreamAction::Forward(Ok(processor.respond(&request))),
            ),
            (StreamPhase::AwaitingRequest, StreamEvent::Inbound(Err(e))) => (
                StreamPhase::AwaitingDelivery { closing: true },
                StreamAction::Forward(Err(e)),
            ),
            (StreamPhase::AwaitingRequest, StreamEvent::InboundClosed) => (StreamPhase::Finished, StreamAction::Stop),
            (StreamPhase::AwaitingDelivery { closing }, StreamEvent::Delivery(delivered)) => {
                if delivered && !closing {
                    (StreamPhase::AwaitingRequest, StreamAction::Receive)
                } else {
                    (StreamPhase::Finished, StreamAction::Stop)
                }
            },
            _ => (StreamPhase::Finished, StreamAction::Stop),
        }
    }
}

/// The phase reached and the actions chosen when `events` are reported in
/// order, starting from `phase`.
pub open spec fn run<E>(phase: StreamPhase, events: Seq<EventView<E>>) -> (StreamPhase, Seq<ActionView<E>>)
    decreases events.len(),
{
    if events.len() == 0 {
        (phase, Seq::empty())
    } else {
        let (next, action) = transition(phase, events[0]);
        let rest = run(next, events.drop_first());
        (rest.0, seq![action] + rest.1)
    }
}

/// The events of a stream on which each request of `phases` arrives and its
/// answer is delivered.
pub open spec fn served<E>(phases: Seq<Option<Phase>>) -> Seq<EventView<E>>
    decreases phases.len(),
{
    if phases.len() == 0 {
        Seq::empty()
    } else {
        seq![EventView::Inbound(Ok(phases[0])), EventView::Delivery(true)] + served(phases.drop_first())
    }
}

/// The actions that answer each request of `phases` in turn, each answer
/// followed by a return to receiving.
pub open spec fn answered<E>(phases: Seq<Option<Phase>>) -> Seq<ActionView<E>>
    decreases phases.len(),
{
    if phases.len() == 0 {
        Seq::empty()
    } else {
        seq![ActionView::Forward(Ok(response_for(phases[0]))), ActionView::Receive] + answered(
            phases.drop_first(),
        )
    }
}

/// `n` stop actions.
pub open spec fn stops<E>(n: nat) -> Seq<ActionView<E>> {
    Seq::new(n, |i: int| ActionView::Stop)
}

/// Requests are answered one by one and in order: while every answer is
/// delivered, the stream answers each request with the response for its
/// phase and goes back to receiving, whatever follows.
pub proof fn lemma_requests_answered_in_order<E>(phases: Seq<Option<Phase>>, tail: Seq<EventView<E>>)
    ensures
        run(StreamPhase::AwaitingRequest, served(phases) + tail) == (
            run(StreamPhase::AwaitingRequest, tail).0,
            answered(phases) + run(StreamPhase::AwaitingRequest, tail).1,
        ),
    decreases phases.len(),
{
    if phases.len() == 0 {
        assert(served::<E>(phases) + tail =~= tail);
        assert(answered::<E>(phases) + run(StreamPhase::AwaitingRequest, tail).1
            =~= run(StreamPhase::AwaitingRequest, tail).1);
    } else {
        let rest = phases.drop_first();
        let events = served::<E>(phases) + tail;
        let after_first = seq![EventView::Delivery(true)] + (served::<E>(rest) + tail);
        assert(events[0] == EventView::<E>::Inbound(Ok(phases[0])));
        assert(events.drop_first() =~= after_first);
        assert(after_first[0] == EventView::<E>::Delivery(true));
        assert(after_first.drop_first() =~= served::<E>(rest) + tail);
        lemma_requests_answered_in_order(rest, tail);
        let (end, acts) = run(StreamPhase::AwaitingRequest, tail);
        assert(run(StreamPhase::AwaitingRequest, served::<E>(rest) + tail) == (end, answered::<E>(rest) + acts));
        assert(run(StreamPhase::AwaitingDelivery { closing: false }, after_first) == (
            end,
            seq![ActionView::<E>::Receive] + (answered::<E>(rest) + acts),
        ));
        assert(seq![ActionView::<E>::Forward(Ok(response_for(phases[0])))] + (seq![
            ActionView::<E>::Receive,
        ] + (answered::<E>(rest) + acts)) =~= answered::<E>(phases) + acts);
    }
}

/// An ended stream stays ended and does nothing but stop.
pub proof fn lemma_finished_is_final<E>(events: Seq<EventView<E>>)
    ensures
        run(StreamPhase::Finished, events) == (StreamPhase::Finished, stops::<E>(events.len())),
    decreases events.len(),
{
    if events.len() > 0 {
        lemma_finished_is_final(events.drop_first());
        assert(seq![ActionView::<E>::Stop] + stops::<E>((events.len() - 1) as nat) =~= stops::<E>(
            events.len(),
        ));
    } else {
        assert(stops::<E>(0) =~= Seq::empty());
    }
}

/// When Envoy closes its side, every request it sent has been answered in
/// order and the stream ends.
pub proof fn lemma_inbound_close_ends_stream<E>(phases: Seq<Option<Phase>>)
    ensures
        run(StreamPhase::AwaitingRequest, served::<E>(phases) + seq![EventView::InboundClosed]) == (
            StreamPhase::Finished,
            answered::<E>(phases) + seq![ActionView::Stop],
        ),
{
    let tail = seq![EventView::<E>::InboundClosed];
    lemma_requests_answered_in_order(phases, tail);
    lemma_finished_is_final(tail.drop_first());
    assert(tail.drop_first() =~= Seq::<EventView<E>>::empty());
    assert(stops::<E>(0) =~= Seq::empty());
    assert(seq![ActionView::<E>::Stop] + stops::<E>(0) =~= seq![ActionView::<E>::Stop]);
}

/// An inbound failure is passed on to Envoy, after the answers to the
/// requests before it, as the stream's last message: whether or not it is
/// delivered, the stream then ends.
pub proof fn lemma_inbound_failure_forwarded_then_stop<E>(
    phases: Seq<Option<Phase>>,
    failure: E,
    delivered: bool,
    tail: Seq<EventView<E>>,
)
    ensures
        run(
            StreamPhase::AwaitingRequest,
            served(phases) + (seq![EventView::Inbound(Err(failure)), EventView::Delivery(delivered)] + tail),
        ) == (
            StreamPhase::Finished,
            answered(phases) + (seq![ActionView::Forward(Err(failure)), ActionView::Stop] + stops::<E>(
                tail.len(),
            )),
        ),
{
    let last = seq![EventView::Inbound(Err(failure)), EventView::Delivery(delivered)] + tail;
    lemma_requests_answered_in_order(phases, last);
    let after_first = last.drop_first();
    assert(after_first =~= seq![EventView::Delivery(delivered)] + tail);
    assert(after_first.drop_first() =~= tail);
    lemma_finished_is_final(tail);
    assert(run(StreamPhase::AwaitingDelivery { closing: true }, after_first) == (
        StreamPhase::Finished,
        seq![ActionView::<E>::Stop] + stops::<E>(tail.len()),
    ));
    assert(seq![ActionView::Forward(Err(failure))] + (seq![ActionView::<E>::Stop] + stops::<E>(
        tail.len(),
    )) =~= seq![ActionView::Forward(Err(failure)), ActionView::Stop] + stops::<E>(tail.len()));
}

/// A response that cannot be delivered ends the stream: nothing is answered
/// after it, whatever arrives.
pub proof fn lemma_failed_delivery_ends_stream<E>(
    phases: Seq<Option<Phase>>,
    phase: Option<Phase>,
    tail: Seq<EventView<E>>,
)
    ensures
        run(
            StreamPhase::AwaitingRequest,
            served(phases) + (seq![EventView::Inbound(Ok(phase)), EventView::Delivery(false)] + tail),
        ) == (
            StreamPhase::Finished,
            answered(phases) + (seq![ActionView::Forward(Ok(response_for(phase))), ActionView::Stop]
                + stops::<E>(tail.len())),
        ),
{
    let last = seq![EventView::Inbound(Ok(phase)), EventView::Delivery(false)] + tail;
    lemma_requests_answered_in_order(phases, last);
    let after_first = last.drop_first();
    assert(after_first =~= seq![EventView::Delivery(false)] + tail);
    assert(after_first.drop_first() =~= tail);
    lemma_finished_is_final(tail);
    assert(run(StreamPhase::AwaitingDelivery { closing: false }, after_first) == (
        StreamPhase::Finished,
        seq![ActionView::<E>::Stop] + stops::<E>(tail.len()),
    ));
    assert(seq![ActionView::<E>::Forward(Ok(response_for(phase)))] + (seq![ActionView::<E>::Stop]
        + stops::<E>(tail.len())) =~= seq![
        ActionView::<E>::Forward(Ok(response_for(phase))),
        ActionView::Stop,
    ] + stops::<E>(tail.len()));
}

/// How many of `actions` are returns to receiving.
pub open spec fn count_receives<E>(actions: Seq<ActionView<E>>) -> nat
    decreases actions.len(),
{
    if actions.len() == 0 {
        0
    } else {
        (if actions[0] is Receive { 1nat } else { 0nat }) + count_receives(actions.drop_first())
    }
}

/// How many of `events` report a delivered message.
pub open spec fn count_deliveries<E>(events: Seq<EventView<E>>) -> nat
    decreases events.len(),
{
    if events.len() == 0 {
        0
    } else {
        (if events[0] == EventView::<E>::Delivery(true) { 1nat } else { 0nat }) + count_deliveries(
            events.drop_first(),
        )
    }
}

/// The stream reads no further ahead than Envoy takes its answers: whatever
/// the phase and whatever the events, the stream goes back to receiving at
/// most once per message reported delivered. Beyond the first message, a
/// stream whose answers are not taken reads nothing more.
pub proof fn lemma_receives_bounded_by_deliveries<E>(phase: StreamPhase, events: Seq<EventView<E>>)
    ensures
        count_receives(run(phase, events).1) <= count_deliveries(events),
    decreases events.len(),
{
    if events.len() > 0 {
        let (next, action) = transition(phase, events[0]);
        let rest = run(next, events.drop_first());
        lemma_receives_bounded_by_deliveries(next, events.drop_first());
        let actions = seq![action] + rest.1;
        assert(actions[0] == action);
        assert(actions.drop_first() =~= rest.1);
        assert(action is Receive ==> events[0] == EventView::<E>::Delivery(true));
    }
}

} // verus!
