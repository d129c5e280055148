//! An abstract account of one forwarding pipeline, and what holds of it.
//!
//! The executable parts of the library decide one step at a time: whether an
//! enqueue is taken, what a write puts on the queue, what the consumer does
//! with what it finds. This module puts those decisions together. A
//! [`Pipeline`] is the state of a queue with its producers and its consumer;
//! a [`Step`] is one thing that happens to it; [`run`] lets a schedule of
//! steps happen in order. The channel is taken to be what its documentation
//! says: it keeps what it is given in the order in which it was given, hands
//! out the oldest first, and reports itself closed to the consumer once it is
//! empty and no producer is left.
//!
//! The laws at the end of the file hold for every schedule, that is for
//! every way in which producers and consumer may take turns.

use crate::config::flag_enabled;
use crate::delivery::FailureKind;
use crate::queue::{
    action_of, deliveries, enqueue_result_spec, forwarded, ConsumerAction, Polled,
};
use crate::text::wrapped;
use vstd::prelude::*;

verus! {

/// A piece of text together with the producer that enqueued it.
pub struct Fragment {
    pub producer: nat,
    pub text: Seq<char>,
}

/// The state of a forwarding pipeline.
pub struct Pipeline {
    /// What was enqueued and not yet taken out, oldest first.
    pub pending: Seq<Fragment>,
    /// What was handed to the sink, oldest first, as it was handed over.
    pub attempted: Seq<Fragment>,
    /// The number of producer handles that are alive.
    pub producers: nat,
    /// Whether the consumer still holds the receiving half.
    pub consuming: bool,
}

/// One thing that happens to a pipeline.
pub enum Step {
    /// A producer enqueues a fragment.
    Enqueue(Fragment),
    /// A producer writes bytes, `flag` being the raw forwarding flag.
    Write { producer: nat, bytes: Seq<u8>, flag: Option<Seq<char>> },
    /// A producer handle is cloned.
    Attach,
    /// A producer handle is dropped.
    Release,
    /// The consumer takes one turn. Where the turn delivers a fragment,
    /// `failure` is what became of the delivery: `None` for a success.
    Consume { failure: Option<FailureKind> },
    /// The consumer is torn down from outside, whatever is still pending.
    Halt,
}

/// A pipeline with nothing enqueued, `producers` producer handles, and its
/// consumer in place.
pub open spec fn fresh(producers: nat) -> Pipeline {
    Pipeline { pending: Seq::empty(), attempted: Seq::empty(), producers, consuming: true }
}

/// A fragment as the sink gets it: the text decorated, the producer kept.
pub open spec fn decorate(fragment: Fragment) -> Fragment {
    Fragment { producer: fragment.producer, text: wrapped(fragment.text) }
}

/// Each fragment as the sink gets it, in the same order.
pub open spec fn decorated(fragments: Seq<Fragment>) -> Seq<Fragment> {
    Seq::new(fragments.len(), |i: int| decorate(fragments[i]))
}

/// Whether a fragment comes from the given producer.
pub open spec fn from_producer(producer: nat) -> spec_fn(Fragment) -> bool {
    |fragment: Fragment| fragment.producer == producer
}

/// The fragments of one producer, in the same order.
pub open spec fn by_producer(fragments: Seq<Fragment>, producer: nat) -> Seq<Fragment> {
    fragments.filter(from_producer(producer))
}

/// The fragment that a step offers to the channel, if any.
pub open spec fn offered(step: Step) -> Option<Fragment> {
    match step {
        Step::Enqueue(fragment) => Some(fragment),
        Step::Write { producer, bytes, flag } => match forwarded(bytes, flag) {
            Some(text) => Some(Fragment { producer, text }),
            None => None,
        },
        _ => None,
    }
}

/// Whether the channel takes what is offered to it in this state. It does
/// as long as the consumer holds the receiving half, however much is
/// pending.
pub open spec fn accepts(state: Pipeline) -> bool {
    enqueue_result_spec(!state.consuming, !state.consuming) is Ok
}

/// What the consumer finds when it looks into the channel.
pub open spec fn found(state: Pipeline) -> Polled<Seq<char>> {
    if state.pending.len() > 0 {
        Polled::Item(state.pending[0].text)
    } else if state.producers == 0 {
        Polled::Closed
    } else {
        Polled::Empty
    }
}

/// The state after one turn of the consumer.
pub open spec fn consume(state: Pipeline) -> Pipeline {
    if !state.consuming {
        state
    } else {
        match action_of(found(state)) {
            ConsumerAction::Deliver { payload, wait } => Pipeline {
                pending: state.pending.drop_first(),
                attempted: state.attempted.push(
                    Fragment { producer: state.pending[0].producer, text: payload },
                ),
                ..state
            },
            ConsumerAction::Idle => state,
            ConsumerAction::Stop => Pipeline { consuming: false, ..state },
        }
    }
}

/// The state after one step.
pub open spec fn step(state: Pipeline, step: Step) -> Pipeline {
    match step {
        Step::Enqueue(_) | Step::Write { .. } => match offered(step) {
            Some(fragment) if accepts(state) => Pipeline {
                pending: state.pending.push(fragment),
                ..state
            },
            _ => state,
        },
        Step::Attach => if state.producers > 0 {
            Pipeline { producers: state.producers + 1, ..state }
        } else {
            state
        },
        Step::Release => if state.producers > 0 {
            Pipeline { producers: (state.producers - 1) as nat, ..state }
        } else {
            state
        },
        Step::Consume { failure } => consume(state),
        Step::Halt => Pipeline { consuming: false, ..state },
    }
}

/// The state after a schedule of steps.
pub open spec fn run(state: Pipeline, steps: Seq<Step>) -> Pipeline
    decreases steps.len(),
{
    if steps.len() == 0 {
        state
    } else {
        step(run(state, steps.drop_last()), steps.last())
    }
}

/// The fragments that a schedule offers to the channel, in order.
pub open spec fn requested(steps: Seq<Step>) -> Seq<Fragment>
    decreases steps.len(),
{
    if steps.len() == 0 {
        Seq::empty()
    } else {
        match offered(steps.last()) {
            Some(fragment) => requested(steps.drop_last()).push(fragment),
            None => requested(steps.drop_last()),
        }
    }
}

/// The fragments that the channel takes in the course of a schedule, in the
/// order in which it takes them.
pub open spec fn accepted(state: Pipeline, steps: Seq<Step>) -> Seq<Fragment>
    decreases steps.len(),
{
    if steps.len() == 0 {
        Seq::empty()
    } else {
        match offered(steps.last()) {
            Some(fragment) if accepts(run(state, steps.drop_last())) => accepted(
                state,
                steps.drop_last(),
            ).push(fragment),
            _ => accepted(state, steps.drop_last()),
        }
    }
}

/// What the consumer finds in the channel in the course of a schedule, one
/// finding for each of its turns.
pub open spec fn findings_of(state: Pipeline, steps: Seq<Step>) -> Seq<Polled<Seq<char>>>
    decreases steps.len(),
{
    if steps.len() == 0 {
        Seq::empty()
    } else {
        let before = run(state, steps.drop_last());
        if steps.last() is Consume && before.consuming {
            findings_of(state, steps.drop_last()).push(found(before))
        } else {
            findings_of(state, steps.drop_last())
        }
    }
}

/// The texts of fragments, in the same order.
pub open spec fn texts(fragments: Seq<Fragment>) -> Seq<Seq<char>> {
    Seq::new(fragments.len(), |i: int| fragments[i].text)
}

/// Whether a schedule is one that a program can make without outside
/// interference: producers enqueue, write and let go only through a handle
/// that is alive, and nothing tears the consumer down.
pub open spec fn orderly(state: Pipeline, steps: Seq<Step>) -> bool
    decreases steps.len(),
{
    steps.len() == 0 || (orderly(state, steps.drop_last()) && match steps.last() {
        Step::Halt => false,
        Step::Enqueue(_) | Step::Write { .. } | Step::Release => run(
            state,
            steps.drop_last(),
        ).producers > 0,
        _ => true,
    })
}

/// Whether every step of a schedule is a turn of the consumer.
pub open spec fn only_turns(steps: Seq<Step>) -> bool {
    forall|i: int| 0 <= i < steps.len() ==> #[trigger] steps[i] is Consume
}

/// Whether two schedules are the same but for what becomes of the
/// deliveries.
pub open spec fn same_but_outcomes(left: Seq<Step>, right: Seq<Step>) -> bool {
    &&& left.len() == right.len()
    &&& forall|i: int|
        0 <= i < left.len() ==> #[trigger] left[i] == right[i] || (left[i] is Consume
            && right[i] is Consume)
}

proof fn lemma_run_concat(state: Pipeline, first: Seq<Step>, then: Seq<Step>)
    ensures
        run(state, first + then) == run(run(state, first), then),
    decreases then.len(),
{
    if then.len() == 0 {
        assert(first + then =~= first);
    } else {
        assert((first + then).drop_last() =~= first + then.drop_last());
        lemma_run_concat(state, first, then.drop_last());
    }
}

proof fn lemma_decorated_push(fragments: Seq<Fragment>, fragment: Fragment)
    ensures
        decorated(fragments.push(fragment)) == decorated(fragments).push(decorate(fragment)),
{
    assert(decorated(fragments.push(fragment)) =~= decorated(fragments).push(decorate(fragment)));
}

proof fn lemma_by_producer_decorated(fragments: Seq<Fragment>, producer: nat)
    ensures
        by_producer(decorated(fragments), producer) == decorated(by_producer(fragments, producer)),
    decreases fragments.len(),
{
    reveal(Seq::filter);
    let keep = from_producer(producer);
    if fragments.len() == 0 {
        assert(decorated(fragments) =~= Seq::<Fragment>::empty());
        assert(by_producer(fragments, producer) =~= Seq::<Fragment>::empty());
        assert(decorated(Seq::<Fragment>::empty()) =~= Seq::<Fragment>::empty());
    } else {
        let shorter = fragments.drop_last();
        lemma_by_producer_decorated(shorter, producer);
        assert(decorated(fragments).drop_last() =~= decorated(shorter));
        assert(decorated(fragments).last() == decorate(fragments.last()));
        if keep(fragments.last()) {
            lemma_decorated_push(by_producer(shorter, producer), fragments.last());
        }
    }
}

/// The flow of fragments through a pipeline: what was handed to the sink,
/// followed by what is pending, is what was there at the start followed by
/// what the channel took since.
proof fn lemma_flow(state: Pipeline, steps: Seq<Step>)
    ensures
        run(state, steps).attempted + decorated(run(state, steps).pending) == state.attempted
            + decorated(state.pending) + decorated(accepted(state, steps)),
    decreases steps.len(),
{
    let end = run(state, steps);
    let start = state.attempted + decorated(state.pending);
    if steps.len() == 0 {
        assert(decorated(accepted(state, steps)) =~= Seq::<Fragment>::empty());
        assert(end.attempted + decorated(end.pending) =~= start + decorated(
            accepted(state, steps),
        ));
    } else {
        let before = run(state, steps.drop_last());
        let taken = accepted(state, steps.drop_last());
        lemma_flow(state, steps.drop_last());
        match steps.last() {
            Step::Enqueue(_) | Step::Write { .. } => {
                if offered(steps.last()) is Some && accepts(before) {
                    let fragment = offered(steps.last())->Some_0;
                    lemma_decorated_push(before.pending, fragment);
                    lemma_decorated_push(taken, fragment);
                    let so_far = before.attempted + decorated(before.pending);
                    assert(end.pending == before.pending.push(fragment));
                    assert(accepted(state, steps) == taken.push(fragment));
                    assert(end.attempted + decorated(end.pending) =~= so_far.push(
                        decorate(fragment),
                    ));
                    assert(start + decorated(accepted(state, steps)) =~= (start + decorated(
                        taken,
                    )).push(decorate(fragment)));
                }
            },
            Step::Consume { failure } => {
                if before.consuming && before.pending.len() > 0 {
                    assert(end.attempted + decorated(end.pending) =~= before.attempted
                        + decorated(before.pending));
                }
            },
            _ => {},
        }
    }
}

/// Along an orderly schedule the consumer stays in place as long as a
/// producer is alive.
proof fn lemma_orderly_keeps_consumer(producers: nat, steps: Seq<Step>)
    requires
        orderly(fresh(producers), steps),
    ensures
        run(fresh(producers), steps).consuming || run(fresh(producers), steps).producers == 0,
    decreases steps.len(),
{
    if steps.len() > 0 {
        lemma_orderly_keeps_consumer(producers, steps.drop_last());
    }
}

/// Fragments reach the sink in the order in which the channel took them,
/// each exactly once and each alone.
///
/// For every schedule from a fresh pipeline, what was handed to the sink is
/// the beginning of what the channel took, decorated, and what is pending is
/// the rest; nothing is lost, doubled, merged or reordered. Once nothing is
/// pending, the sink was handed exactly the fragments that were taken.
pub proof fn law_delivery_in_enqueue_order(producers: nat, steps: Seq<Step>)
    ensures
        ({
            let end = run(fresh(producers), steps);
            let taken = accepted(fresh(producers), steps);
            &&& end.attempted + decorated(end.pending) == decorated(taken)
            &&& end.attempted.len() + end.pending.len() == taken.len()
            &&& end.pending.len() == 0 ==> end.attempted == decorated(taken)
        }),
{
    let end = run(fresh(producers), steps);
    let taken = accepted(fresh(producers), steps);
    lemma_flow(fresh(producers), steps);
    assert(decorated(fresh(producers).pending) =~= Seq::<Fragment>::empty());
    assert(fresh(producers).attempted + decorated(fresh(producers).pending) + decorated(taken)
        =~= decorated(taken));
    assert((end.attempted + decorated(end.pending)).len() == decorated(taken).len());
    if end.pending.len() == 0 {
        assert(end.attempted + decorated(end.pending) =~= end.attempted);
    }
}

/// The order of delivery respects each producer's own order.
///
/// For every schedule from a fresh pipeline and every producer, the
/// fragments of that producer that were handed to the sink, followed by
/// those of its fragments that are pending, are the fragments that the
/// channel took from it, in the order in which the producer enqueued them.
pub proof fn law_producer_order_is_kept(producers: nat, steps: Seq<Step>, producer: nat)
    ensures
        ({
            let end = run(fresh(producers), steps);
            let taken = accepted(fresh(producers), steps);
            by_producer(end.attempted, producer) + decorated(by_producer(end.pending, producer))
                == decorated(by_producer(taken, producer))
        }),
{
    let end = run(fresh(producers), steps);
    let taken = accepted(fresh(producers), steps);
    law_delivery_in_enqueue_order(producers, steps);
    Seq::filter_distributes_over_add(
        end.attempted,
        decorated(end.pending),
        from_producer(producer),
    );
    lemma_by_producer_decorated(end.pending, producer);
    lemma_by_producer_decorated(taken, producer);
}

/// An enqueue is never refused while the program runs undisturbed, however
/// slow the consumer is.
///
/// The channel takes a fragment whenever the consumer is in place, whatever
/// the number of fragments that are pending. Along every orderly schedule
/// from a fresh pipeline, which may hold any number of enqueues and no turn
/// of the consumer at all, the channel takes every fragment that is offered.
pub proof fn law_enqueue_is_never_refused(producers: nat, steps: Seq<Step>)
    requires
        orderly(fresh(producers), steps),
    ensures
        accepted(fresh(producers), steps) == requested(steps),
    decreases steps.len(),
{
    if steps.len() > 0 {
        law_enqueue_is_never_refused(producers, steps.drop_last());
        lemma_orderly_keeps_consumer(producers, steps.drop_last());
    }
}

/// Every fragment that a program hands over reaches the sink, in order.
///
/// Along every orderly schedule from a fresh pipeline, what was handed to
/// the sink followed by what is pending is what the producers offered, in the
/// order in which they offered it; and so it is for the fragments of each
/// single producer.
pub proof fn law_every_fragment_is_delivered(producers: nat, steps: Seq<Step>, producer: nat)
    requires
        orderly(fresh(producers), steps),
    ensures
        ({
            let end = run(fresh(producers), steps);
            &&& end.attempted + decorated(end.pending) == decorated(requested(steps))
            &&& by_producer(end.attempted, producer) + decorated(
                by_producer(end.pending, producer),
            ) == decorated(by_producer(requested(steps), producer))
            &&& end.pending.len() == 0 ==> end.attempted == decorated(requested(steps))
        }),
{
    law_enqueue_is_never_refused(producers, steps);
    law_delivery_in_enqueue_order(producers, steps);
    law_producer_order_is_kept(producers, steps, producer);
}

/// The sink is handed what the consumer asks to be delivered, and nothing
/// else.
///
/// For every schedule, the payloads that are handed to the sink in its
/// course are the deliveries that the consumer asks for on what it finds in
/// the channel, turn by turn.
pub proof fn law_sink_gets_what_the_consumer_asks(state: Pipeline, steps: Seq<Step>)
    ensures
        texts(run(state, steps).attempted) == texts(state.attempted) + deliveries(
            findings_of(state, steps),
        ),
    decreases steps.len(),
{
    let end = run(state, steps);
    if steps.len() == 0 {
        assert(texts(end.attempted) =~= texts(state.attempted) + deliveries(
            findings_of(state, steps),
        ));
    } else {
        let before = run(state, steps.drop_last());
        let earlier = findings_of(state, steps.drop_last());
        law_sink_gets_what_the_consumer_asks(state, steps.drop_last());
        if steps.last() is Consume && before.consuming {
            assert(earlier.push(found(before)).drop_last() =~= earlier);
            if before.pending.len() > 0 {
                let payload = wrapped(before.pending[0].text);
                assert(deliveries(findings_of(state, steps)) == deliveries(earlier).push(payload));
                assert(texts(end.attempted) =~= texts(before.attempted).push(payload));
                assert(texts(end.attempted) =~= texts(state.attempted) + deliveries(
                    findings_of(state, steps),
                ));
            }
        }
    }
}

/// Whether the channel takes a fragment does not depend on how much is
/// pending: the queue has no bound.
pub proof fn law_queue_is_unbounded(state: Pipeline, fragment: Fragment)
    requires
        state.consuming,
    ensures
        step(state, Step::Enqueue(fragment)).pending == state.pending.push(fragment),
        step(state, Step::Enqueue(fragment)).consuming,
{
}

/// Once no producer is left the consumer drains the queue and stops.
///
/// From a state without producers, one turn of the consumer for each
/// pending fragment and one more leave the queue empty, every fragment that
/// was pending handed to the sink in order, and the consumer stopped,
/// whatever became of the deliveries.
pub proof fn law_consumer_stops_after_last_producer(state: Pipeline, turns: Seq<Step>)
    requires
        state.producers == 0,
        state.consuming,
        only_turns(turns),
        turns.len() == state.pending.len() + 1,
    ensures
        run(state, turns) == (Pipeline {
            pending: Seq::empty(),
            attempted: state.attempted + decorated(state.pending),
            producers: 0,
            consuming: false,
        }),
{
    let drained = run(state, turns.drop_last());
    lemma_draining(state, turns.drop_last());
    assert(turns.last() is Consume);
    assert(drained.pending =~= Seq::<Fragment>::empty());
    assert(state.pending.subrange(0, state.pending.len() as int) =~= state.pending);
}

/// While fragments are pending, each turn of the consumer hands the oldest
/// of them to the sink and leaves the consumer running.
proof fn lemma_draining(state: Pipeline, turns: Seq<Step>)
    requires
        state.consuming,
        only_turns(turns),
        turns.len() <= state.pending.len(),
    ensures
        run(state, turns) == (Pipeline {
            pending: state.pending.subrange(turns.len() as int, state.pending.len() as int),
            attempted: state.attempted + decorated(state.pending.subrange(0, turns.len() as int)),
            ..state
        }),
    decreases turns.len(),
{
    let n = turns.len() as int;
    if n == 0 {
        assert(state.pending.subrange(0, state.pending.len() as int) =~= state.pending);
        assert(state.attempted + decorated(state.pending.subrange(0, 0)) =~= state.attempted);
    } else {
        lemma_draining(state, turns.drop_last());
        let before = run(state, turns.drop_last());
        assert(turns.last() is Consume);
        assert(before.pending.len() > 0);
        assert(before.pending[0] == state.pending[n - 1]);
        assert(before.pending.drop_first() =~= state.pending.subrange(
            n,
            state.pending.len() as int,
        ));
        assert(before.attempted.push(decorate(state.pending[n - 1])) =~= state.attempted
            + decorated(state.pending.subrange(0, n)));
    }
}

/// A failed delivery changes nothing in the pipeline.
///
/// Whatever becomes of a delivery, a success or a failure of any kind, the
/// turn of the consumer leaves the same state: the consumer goes on, and
/// what is pending is still attempted in order. Two schedules that differ
/// only in what became of the deliveries lead to the same state.
pub proof fn law_failures_are_contained(state: Pipeline, left: Seq<Step>, right: Seq<Step>)
    requires
        same_but_outcomes(left, right),
    ensures
        run(state, left) == run(state, right),
        accepted(state, left) == accepted(state, right),
    decreases left.len(),
{
    if left.len() > 0 {
        assert(left.last() == left[left.len() - 1]);
        assert(right.last() == right[right.len() - 1]);
        assert(same_but_outcomes(left.drop_last(), right.drop_last())) by {
            assert forall|i: int| 0 <= i < left.drop_last().len() implies #[trigger] left.drop_last()[i]
                == right.drop_last()[i] || (left.drop_last()[i] is Consume
                && right.drop_last()[i] is Consume) by {
                assert(left[i] == right[i] || (left[i] is Consume && right[i] is Consume));
            }
        }
        law_failures_are_contained(state, left.drop_last(), right.drop_last());
    }
}

/// A failure of any kind does not stop the consumer.
pub proof fn law_consumer_survives_failure(state: Pipeline, kind: FailureKind)
    requires
        state.consuming,
        state.pending.len() > 0,
    ensures
        step(state, Step::Consume { failure: Some(kind) }) == step(
            state,
            Step::Consume { failure: None },
        ),
        step(state, Step::Consume { failure: Some(kind) }).consuming,
        step(state, Step::Consume { failure: Some(kind) }).pending == state.pending.drop_first(),
{
}

/// With forwarding off a write never reaches the sink.
///
/// Whatever the bytes, a write under a flag that leaves forwarding off
/// offers nothing to the channel and leaves the pipeline as it was, so that
/// whatever happens later happens as if the write had not been made.
pub proof fn law_disabled_write_reaches_no_sink(
    state: Pipeline,
    producer: nat,
    bytes: Seq<u8>,
    flag: Option<Seq<char>>,
    later: Seq<Step>,
)
    requires
        !flag_enabled(flag),
    ensures
        offered(Step::Write { producer, bytes, flag }) is None,
        step(state, Step::Write { producer, bytes, flag }) == state,
        run(state, seq![Step::Write { producer, bytes, flag }] + later) == run(state, later),
{
    let write = Step::Write { producer, bytes, flag };
    lemma_run_concat(state, seq![write], later);
    assert(seq![write].drop_last() =~= Seq::<Step>::empty());
    assert(run(state, seq![write]) == step(run(state, Seq::<Step>::empty()), write));
}

} // verus!
