//! The event bridge: drains the event source of a session and forwards
//! every event to the sink, in order, until the source closes.
//!
//! The host runs the loop: it polls the source, asks [`next_step`] what to
//! do with what it got, performs the forward, and asks [`after_forward`]
//! what to make of the sink's answer. A sink that cannot be reached costs
//! the one event it refused and a line in the log, nothing else.

use vstd::prelude::*;

verus! {

/// What the bridge does with what it polled from the event source.
#[derive(Debug)]
pub enum BridgeStep<E> {
    /// Forward this event to the sink, then poll again.
    Forward(E),
    /// The source is exhausted: the bridge ends.
    Stop,
}

/// A fault of the bridge. None of them ends it.
#[derive(Debug)]
pub enum BridgeFault<S> {
    /// The sink did not take an event; its own error is attached.
    SinkUnreachable(S),
}

/// The step that belongs to what was polled.
pub open spec fn step_for<E>(polled: Option<E>) -> BridgeStep<E> {
    match polled {
        Some(event) => BridgeStep::Forward(event),
        None => BridgeStep::Stop,
    }
}

/// The fault to report for what the sink answered, if it is one.
pub open spec fn report_for<S>(delivery: Result<(), S>) -> Option<BridgeFault<S>> {
    match delivery {
        Ok(_) => None,
        Err(cause) => Some(BridgeFault::SinkUnreachable(cause)),
    }
}

/// Decides what to do with what the event source yielded: an event is
/// forwarded, the end of the source ends the bridge.
pub fn next_step<E>(polled: Option<E>) -> (step: BridgeStep<E>)
    ensures
        step == step_for(polled),
{
    match polled {
        Some(event) => BridgeStep::Forward(event),
        None => BridgeStep::Stop,
    }
}

/// Decides what to make of the sink's answer to one forward: a failure is
/// handed back to be logged. Either way the bridge goes on polling.
pub fn after_forward<S>(delivery: Result<(), S>) -> (report: Option<BridgeFault<S>>)
    ensures
        report == report_for(delivery),
{
    match delivery {
        Ok(_) => None,
        Err(cause) => Some(BridgeFault::SinkUnreachable(cause)),
    }
}

/// What one run of the bridge did.
pub struct BridgeRun<E, S> {
    /// The events the bridge tried to forward, in the order it tried them.
    pub attempted: Seq<E>,
    /// The faults it reported, in the order they occurred.
    pub reported: Seq<BridgeFault<S>>,
    /// Whether the bridge has ended.
    pub ended: bool,
}

/// The run of the bridge when the source yields `polls`, one for each time
/// it is polled, and the sink answers the forward at position `i` with
/// `deliveries[i]`. The bridge follows [`step_for`] and [`report_for`]: it
/// forwards what it polled, reports what the sink refused, and polls again,
/// until the source yields its end.
pub open spec fn run<E, S>(polls: Seq<Option<E>>, deliveries: Seq<Result<(), S>>) -> BridgeRun<E, S>
    decreases polls.len(),
{
    if polls.len() == 0 {
        BridgeRun { attempted: Seq::empty(), reported: Seq::empty(), ended: false }
    } else {
        match step_for(polls.first()) {
            BridgeStep::Stop => BridgeRun {
                attempted: Seq::empty(),
                reported: Seq::empty(),
                ended: true,
            },
            BridgeStep::Forward(event) => {
                let rest = run(polls.drop_first(), deliveries.drop_first());
                BridgeRun {
                    attempted: seq![event] + rest.attempted,
                    reported: match report_for(deliveries.first()) {
                        Some(fault) => seq![fault] + rest.reported,
                        None => rest.reported,
                    },
                    ended: rest.ended,
                }
            },
        }
    }
}

/// What a source yields that emits `emitted` and then closes.
pub open spec fn polls_of<E>(emitted: Seq<E>) -> Seq<Option<E>> {
    Seq::new(emitted.len() + 1, |i: int| if i < emitted.len() { Some(emitted[i]) } else { None })
}

/// Whatever the sink answers, the bridge tries to forward every event the
/// source emitted before it closed, each once and in the order of emission,
/// and ends when the source closes. A failed forward stops nothing.
pub proof fn lemma_every_event_attempted_in_order<E, S>(
    emitted: Seq<E>,
    deliveries: Seq<Result<(), S>>,
)
    ensures
        run(polls_of(emitted), deliveries).attempted == emitted,
        run(polls_of(emitted), deliveries).ended,
    decreases emitted.len(),
{
    let polls = polls_of(emitted);
    if emitted.len() > 0 {
        assert(polls.first() == Some(emitted.first()));
        assert(polls.drop_first() =~= polls_of(emitted.drop_first()));
        lemma_every_event_attempted_in_order(emitted.drop_first(), deliveries.drop_first());
        assert(seq![emitted.first()] + emitted.drop_first() =~= emitted);
    } else {
        assert(polls.first() == None::<E>);
        assert(run(polls, deliveries).attempted =~= emitted);
    }
}

/// The bridge ends with its source: whatever might be polled after the end
/// of the source, the run is the same.
pub proof fn lemma_bridge_ends_with_source<E, S>(
    emitted: Seq<E>,
    later: Seq<Option<E>>,
    deliveries: Seq<Result<(), S>>,
)
    ensures
        run(polls_of(emitted) + later, deliveries) == run(polls_of(emitted), deliveries),
    decreases emitted.len(),
{
    let polls = polls_of(emitted);
    if emitted.len() > 0 {
        assert(polls.first() == Some(emitted.first()));
        assert((polls + later).first() == polls.first());
        assert(polls.drop_first() =~= polls_of(emitted.drop_first()));
        assert((polls + later).drop_first() =~= polls_of(emitted.drop_first()) + later);
        lemma_bridge_ends_with_source(emitted.drop_first(), later, deliveries.drop_first());
    } else {
        assert(polls.first() == None::<E>);
        assert((polls + later).first() == None::<E>);
    }
}

/// The bridge reports exactly the forwards the sink refused: with a sink
/// that takes every event it reports nothing.
pub proof fn lemma_reachable_sink_reports_nothing<E, S>(
    emitted: Seq<E>,
    deliveries: Seq<Result<(), S>>,
)
    requires
        deliveries.len() == emitted.len(),
        forall|i: int| 0 <= i < deliveries.len() ==> (#[trigger] deliveries[i]).is_ok(),
    ensures
        run(polls_of(emitted), deliveries).reported == Seq::<BridgeFault<S>>::empty(),
    decreases emitted.len(),
{
    let polls = polls_of(emitted);
    if emitted.len() > 0 {
        let rest = deliveries.drop_first();
        assert forall|i: int| 0 <= i < rest.len() implies (#[trigger] rest[i]).is_ok() by {
            assert(rest[i] == deliveries[i + 1]);
        }
        assert(polls.first() == Some(emitted.first()));
        assert(polls.drop_first() =~= polls_of(emitted.drop_first()));
        lemma_reachable_sink_reports_nothing(emitted.drop_first(), rest);
        assert(deliveries.first() == deliveries[0]);
    } else {
        assert(polls.first() == None::<E>);
    }
}

} // verus!
