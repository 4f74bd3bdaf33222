//! Materialize and mutate Aggregates on top of event streams.
use vstd::prelude::*;

use crate::envelope::{decoded_from, decoded_view, Envelope, EnvelopeView};
use crate::error::{Error, ErrorView};
use crate::event::{reports_name, Event, Sequence};
use crate::text::str_eq;
use crate::version::DeserializeVersion;

verus! {

/// Data that can be represented/constructed from an Event stream.
///
/// An aggregate is modified by processing Commands, which emit [events](`Event`)
/// that are written to an event stream; applying those events rebuilds it.
pub trait Aggregate: Default + Sized {
    /// The type used to alter the state of an aggregate.
    type Command;
    /// The event type to emit while processing commands.
    type Event: Event;
    /// The type to return as an `Err` when processing a command fails.
    type Error;

    /// Evaluate a command, resulting in a single event or an error.
    ///
    /// No aggregate state should be changed in this method; the change is
    /// applied once the event is published to the event store.
    fn process(&self, command: Self::Command) -> Result<Self::Event, Self::Error>;

    /// Update the aggregate state using a previously published event.
    fn apply(self, event: &Self::Event) -> Self;
}

/// `b` is what `A::apply` gives for `a` and `event`.
pub open spec fn applies<A: Aggregate>(a: A, event: A::Event, b: A) -> bool {
    call_ensures(A::apply, (a, &event), b)
}

/// The mathematical value of a [`Root`].
pub struct RootModel<A> {
    pub id: u128,
    pub last_sequence: u64,
    pub aggregate: A,
}

/// A materialized aggregate at a specific point in an event stream.
///
/// This holds an [`Aggregate`] instance alongside information
/// needed to publish events for that instance, such as the aggregate ID.
pub struct Root<A> {
    id: u128,
    last_sequence: Sequence,
    aggregate: A,
}

impl<A> View for Root<A> {
    type V = RootModel<A>;

    closed spec fn view(&self) -> RootModel<A> {
        RootModel { id: self.id, last_sequence: self.last_sequence.0, aggregate: self.aggregate }
    }
}

/// `r` is what applying a decoded event to a root gives: a decoding error is
/// returned as is; a decoded event is applied with `A::apply` and the root
/// moves to the envelope's sequence.
pub open spec fn applied_decoded<A: Aggregate>(
    root: RootModel<A>,
    env: EnvelopeView,
    d: Result<A::Event, ErrorView>,
    r: Result<RootModel<A>, ErrorView>,
) -> bool {
    match d {
        Err(e) => r == Err::<RootModel<A>, ErrorView>(e),
        Ok(ev) => {
            &&& r is Ok
            &&& r->Ok_0.id == root.id
            &&& r->Ok_0.last_sequence == env.sequence
            &&& applies::<A>(root.aggregate, ev, r->Ok_0.aggregate)
        },
    }
}

/// `r` is what decoding an envelope that passed the stream checks and
/// applying its event gives.
pub open spec fn applied_checked<A: Aggregate>(
    root: RootModel<A>,
    env: EnvelopeView,
    r: Result<RootModel<A>, ErrorView>,
) -> bool where A::Event: DeserializeVersion {
    exists|d: Result<A::Event, ErrorView>|
        #[trigger] decoded_from::<A::Event>(env, d) && applied_decoded(root, env, d, r)
}

/// `r` is what applying one envelope to a root gives: the envelope must
/// belong to the root's stream (the event name that the aggregate's event
/// type reports, and the root's ID) and come after the last applied event,
/// or the result is `Invalid`; its event is then decoded, and applied with
/// `A::apply`, and the root moves to the envelope's sequence.
pub open spec fn applied_envelope<A: Aggregate>(
    root: RootModel<A>,
    env: EnvelopeView,
    r: Result<RootModel<A>, ErrorView>,
) -> bool where A::Event: DeserializeVersion {
    exists|n: &'static str|
        #[trigger] reports_name::<A::Event>(n) && if env.name != n@ || env.id != root.id {
            r == Err::<RootModel<A>, ErrorView>(ErrorView::Invalid)
        } else if root.last_sequence >= env.sequence {
            r == Err::<RootModel<A>, ErrorView>(ErrorView::Invalid)
        } else {
            applied_checked(root, env, r)
        }
}

/// `r` is what folding a replayed stream into a root gives: envelopes are
/// applied in order, and the first error (an error item of the stream, or an
/// envelope that does not apply) ends it.
pub open spec fn applied_stream<A: Aggregate>(
    root: RootModel<A>,
    items: Seq<Result<EnvelopeView, ErrorView>>,
    r: Result<RootModel<A>, ErrorView>,
) -> bool where A::Event: DeserializeVersion
    decreases items.len(),
{
    if items.len() == 0 {
        r == Ok::<RootModel<A>, ErrorView>(root)
    } else {
        match items[0] {
            Err(e) => r == Err::<RootModel<A>, ErrorView>(e),
            Ok(env) => exists|step: Result<RootModel<A>, ErrorView>|
                {
                    &&& #[trigger] applied_envelope(root, env, step)
                    &&& step is Err ==> r == step
                    &&& step is Ok ==> applied_stream(step->Ok_0, items.drop_first(), r)
                },
        }
    }
}

/// The view of one item of a replayed stream.
pub open spec fn stream_item_view<E: Envelope>(item: Result<E, Error>) -> Result<EnvelopeView, ErrorView> {
    match item {
        Ok(e) => Ok(e@),
        Err(e) => Err(e@),
    }
}

/// The view of a replayed stream.
pub open spec fn stream_view<E: Envelope>(items: Seq<Result<E, Error>>) -> Seq<
    Result<EnvelopeView, ErrorView>,
> {
    items.map_values(|i: Result<E, Error>| stream_item_view(i))
}

/// The view of a root result.
pub open spec fn root_result_view<A>(r: Result<Root<A>, Error>) -> Result<RootModel<A>, ErrorView> {
    match r {
        Ok(root) => Ok(root@),
        Err(e) => Err(e@),
    }
}

/// `out` is what applying the events one after the other to `a` gives.
pub open spec fn applied_in_order<A: Aggregate>(a: A, events: Seq<A::Event>, out: A) -> bool
    decreases events.len(),
{
    if events.len() == 0 {
        out == a
    } else {
        exists|b: A|
            #[trigger] applies::<A>(a, events[0], b) && applied_in_order(b, events.drop_first(), out)
    }
}

impl<A> Root<A> {
    /// Create a new Root from an existing aggregate.
    ///
    /// This requires the ID and sequence number to be manually specified.
    pub fn with_aggregate(aggregate: A, id: u128, last_sequence: Sequence) -> (r: Self)
        ensures
            r@ == (RootModel { id, last_sequence: last_sequence.0, aggregate }),
    {
        Root { id, last_sequence, aggregate }
    }

    /// The ID of this aggregate.
    pub fn id(this: &Self) -> (r: u128)
        ensures
            r == this@.id,
    {
        this.id
    }

    /// The sequence number of the last published event for this aggregate.
    pub fn last_sequence(this: &Self) -> (r: Sequence)
        ensures
            r.0 == this@.last_sequence,
    {
        this.last_sequence
    }

    /// The actual aggregate instance from this Root.
    ///
    /// Converting to the inner type loses the identifying information
    /// associated with this aggregate, such as the ID.
    pub fn into_inner(this: Self) -> (r: A)
        ensures
            r == this@.aggregate,
    {
        this.aggregate
    }
}

impl<A: Aggregate> Root<A> {
    /// Create a new Root with no existing event history.
    ///
    /// The aggregate instance is constructed using its [`Default`].
    pub fn new(id: u128) -> (r: Self)
        ensures
            r@.id == id,
            r@.last_sequence == 0,
            call_ensures(A::default, (), r@.aggregate),
    {
        Root { id, last_sequence: Sequence::new(), aggregate: A::default() }
    }

    /// Prepare the write of an event: the aggregate with the event applied,
    /// and the ID and last sequence that the event is published against.
    /// After publishing, the written root is this aggregate at the published
    /// sequence (`Root::with_aggregate`).
    pub fn apply_for_write(this: Self, event: &A::Event) -> (r: (A, u128, Sequence))
        ensures
            applies::<A>(this@.aggregate, *event, r.0),
            r.1 == this@.id,
            r.2.0 == this@.last_sequence,
    {
        let id = this.id;
        let last_sequence = this.last_sequence;
        let ghost before = this.aggregate;
        let aggregate = this.aggregate.apply(event);
        assert(applies::<A>(before, *event, aggregate));
        (aggregate, id, last_sequence)
    }

    /// Apply an Envelope to the aggregate Root.
    ///
    /// This validates the event's stream (name and aggregate ID) and its
    /// sequence number, so calls fail when given an event from a different
    /// stream, or one that has already been applied to this instance.
    pub fn try_apply<E: Envelope>(this: Self, envelope: E) -> (r: Result<Self, Error>) where
        A::Event: DeserializeVersion,

        ensures
            applied_envelope(this@, envelope@, root_result_view(r)),
    {
        let name = A::Event::name();
        proof {
            assert(reports_name::<A::Event>(name));
        }
        if !str_eq(envelope.name(), name) || envelope.id() != this.id {
            return Err(Error::Invalid);
        }
        let next_sequence = envelope.sequence();
        if this.last_sequence.0 >= next_sequence.0 {
            Err(Error::Invalid)
        } else {
            let decoded = envelope.deserialize::<A::Event>();
            proof {
                assert(decoded_from::<A::Event>(envelope@, decoded_view(decoded)));
            }
            match decoded {
                Ok(event) => {
                    let ghost before = this@;
                    let aggregate = this.aggregate.apply(&event);
                    let res = Root { id: this.id, last_sequence: next_sequence, aggregate };
                    proof {
                        assert(applies::<A>(before.aggregate, event, aggregate));
                        assert(res@ == RootModel {
                            id: before.id,
                            last_sequence: envelope@.sequence,
                            aggregate,
                        });
                        assert(decoded_from::<A::Event>(envelope@, Ok::<A::Event, ErrorView>(event)));
                        assert(applied_decoded(
                            before,
                            envelope@,
                            Ok::<A::Event, ErrorView>(event),
                            Ok::<RootModel<A>, ErrorView>(res@),
                        ));
                        assert(applied_checked(before, envelope@, Ok::<RootModel<A>, ErrorView>(res@)));
                        assert(applied_envelope(before, envelope@, Ok::<RootModel<A>, ErrorView>(res@)));
                    }
                    Ok(res)
                },
                Err(e) => {
                    assert(decoded_from::<A::Event>(envelope@, Err::<A::Event, ErrorView>(e@)));
                    assert(applied_decoded(
                        this@,
                        envelope@,
                        Err::<A::Event, ErrorView>(e@),
                        Err::<RootModel<A>, ErrorView>(e@),
                    ));
                    assert(applied_checked(this@, envelope@, Err::<RootModel<A>, ErrorView>(e@)));
                    assert(applied_envelope(this@, envelope@, Err::<RootModel<A>, ErrorView>(e@)));
                    Err(e)
                },
            }
        }
    }

    /// Fold a replayed stream into the Root, in order, stopping at the first
    /// error (an error item of the stream, or an envelope that does not apply).
    pub fn try_apply_all<E: Envelope>(this: Self, items: Vec<Result<E, Error>>) -> (r: Result<
        Self,
        Error,
    >) where A::Event: DeserializeVersion
        ensures
            applied_stream(this@, stream_view(items@), root_result_view(r)),
    {
        let ghost all = stream_view(items@);
        let mut pending = items;
        let mut root = this;
        let ghost mut k: int = 0;
        assert(all.skip(0) =~= all);
        while pending.len() > 0
            invariant
                0 <= k <= all.len(),
                all == stream_view(items@),
                stream_view(pending@) == all.skip(k),
                forall|x: Result<RootModel<A>, ErrorView>|
                    #[trigger] applied_stream(root@, all.skip(k), x) ==> applied_stream(
                        this@,
                        all,
                        x,
                    ),
            decreases pending@.len(),
        {
            let ghost rest = all.skip(k);
            let ghost before = root@;
            let item = pending.remove(0);
            assert(rest[0] == stream_item_view(item));
            assert(rest.drop_first() =~= all.skip(k + 1));
            assert(stream_view(pending@) =~= all.skip(k + 1));
            match item {
                Err(e) => {
                    assert(rest.len() > 0);
                    assert(rest[0] == Err::<EnvelopeView, ErrorView>(e@));
                    proof {
                        lemma_stream_stops_at_error::<A>(before, rest, e@);
                    }
                    return Err(e);
                },
                Ok(env) => {
                    let ghost ev = env@;
                    match Root::try_apply(root, env) {
                        Err(e) => {
                            assert(applied_envelope(
                                before,
                                ev,
                                Err::<RootModel<A>, ErrorView>(e@),
                            ));
                            proof {
                                lemma_stream_step::<A>(
                                    before,
                                    rest,
                                    ev,
                                    Err::<RootModel<A>, ErrorView>(e@),
                                    Err::<RootModel<A>, ErrorView>(e@),
                                );
                            }
                            return Err(e);
                        },
                        Ok(next) => {
                            proof {
                                assert(applied_envelope(
                                    before,
                                    ev,
                                    Ok::<RootModel<A>, ErrorView>(next@),
                                ));
                                assert forall|x: Result<RootModel<A>, ErrorView>|
                                    #[trigger] applied_stream(
                                        next@,
                                        all.skip(k + 1),
                                        x,
                                    ) implies applied_stream(this@, all, x) by {
                                    lemma_stream_step::<A>(
                                        before,
                                        rest,
                                        ev,
                                        Ok::<RootModel<A>, ErrorView>(next@),
                                        x,
                                    );
                                }
                            }
                            root = next;
                        },
                    }
                },
            }
            proof {
                k = k + 1;
            }
        }
        assert(all.skip(k).len() == 0);
        assert(applied_stream(root@, all.skip(k), Ok::<RootModel<A>, ErrorView>(root@)));
        Ok(root)
    }
}

proof fn lemma_stream_stops_at_error<A: Aggregate>(
    root: RootModel<A>,
    items: Seq<Result<EnvelopeView, ErrorView>>,
    e: ErrorView,
) where A::Event: DeserializeVersion
    requires
        items.len() > 0,
        items[0] == Err::<EnvelopeView, ErrorView>(e),
    ensures
        applied_stream(root, items, Err::<RootModel<A>, ErrorView>(e)),
{
}

proof fn lemma_stream_step<A: Aggregate>(
    root: RootModel<A>,
    items: Seq<Result<EnvelopeView, ErrorView>>,
    env: EnvelopeView,
    step: Result<RootModel<A>, ErrorView>,
    r: Result<RootModel<A>, ErrorView>,
) where A::Event: DeserializeVersion
    requires
        items.len() > 0,
        items[0] == Ok::<EnvelopeView, ErrorView>(env),
        applied_envelope(root, env, step),
        step is Err ==> r == step,
        step is Ok ==> applied_stream(step->Ok_0, items.drop_first(), r),
    ensures
        applied_stream(root, items, r),
{
    assert(items[0]->Ok_0 == env);
}

impl<A> core::ops::Deref for Root<A> {
    type Target = A;

    fn deref(&self) -> (r: &A)
        ensures
            *r == self@.aggregate,
    {
        &self.aggregate
    }
}

/// A replay that succeeds read only envelopes of the root's aggregate, in
/// strictly increasing sequence order after the root's last sequence; it
/// leaves the root at the last envelope's sequence, with the decoded events
/// applied in order.
pub proof fn lemma_successful_replay_is_ordered<A: Aggregate>(
    root: RootModel<A>,
    envs: Seq<EnvelopeView>,
    fin: RootModel<A>,
) where A::Event: DeserializeVersion
    requires
        applied_stream(
            root,
            envs.map_values(|e: EnvelopeView| Ok::<EnvelopeView, ErrorView>(e)),
            Ok::<RootModel<A>, ErrorView>(fin),
        ),
    ensures
        fin.id == root.id,
        fin.last_sequence == if envs.len() == 0 {
            root.last_sequence
        } else {
            envs.last().sequence
        },
        forall|i: int| 0 <= i < envs.len() ==> (#[trigger] envs[i]).id == root.id,
        forall|i: int| 0 <= i < envs.len() ==> root.last_sequence < (#[trigger] envs[i]).sequence,
        forall|i: int, j: int|
            0 <= i < j < envs.len() ==> (#[trigger] envs[i]).sequence < (#[trigger] envs[j]).sequence,
        exists|events: Seq<A::Event>|
            {
                &&& events.len() == envs.len()
                &&& forall|i: int|
                    0 <= i < envs.len() ==> decoded_from::<A::Event>(
                        #[trigger] envs[i],
                        Ok::<A::Event, ErrorView>(events[i]),
                    )
                &&& applied_in_order(root.aggregate, events, fin.aggregate)
            },
    decreases envs.len(),
{
    let items = envs.map_values(|e: EnvelopeView| Ok::<EnvelopeView, ErrorView>(e));
    if envs.len() == 0 {
        assert(applied_in_order(root.aggregate, Seq::<A::Event>::empty(), fin.aggregate));
    } else {
        let env = envs[0];
        assert(items[0] == Ok::<EnvelopeView, ErrorView>(env));
        let step = choose|step: Result<RootModel<A>, ErrorView>|
            #[trigger] applied_envelope(root, env, step) && match step {
                Err(e) => Ok::<RootModel<A>, ErrorView>(fin) == Err::<RootModel<A>, ErrorView>(e),
                Ok(next) => applied_stream(next, items.drop_first(), Ok::<RootModel<A>, ErrorView>(fin)),
            };
        let next = step->Ok_0;
        let n = choose|n: &'static str|
            #[trigger] reports_name::<A::Event>(n) && if env.name != n@ || env.id != root.id {
                step == Err::<RootModel<A>, ErrorView>(ErrorView::Invalid)
            } else if root.last_sequence >= env.sequence {
                step == Err::<RootModel<A>, ErrorView>(ErrorView::Invalid)
            } else {
                exists|d: Result<A::Event, ErrorView>|
                    #[trigger] decoded_from::<A::Event>(env, d) && match d {
                        Err(e) => step == Err::<RootModel<A>, ErrorView>(e),
                        Ok(ev) => exists|a: A|
                            #[trigger] applies::<A>(root.aggregate, ev, a) && step == Ok::<
                                RootModel<A>,
                                ErrorView,
                            >(RootModel { id: root.id, last_sequence: env.sequence, aggregate: a }),
                    }
            };
        let d = choose|d: Result<A::Event, ErrorView>|
            #[trigger] decoded_from::<A::Event>(env, d) && match d {
                Err(e) => step == Err::<RootModel<A>, ErrorView>(e),
                Ok(ev) => exists|a: A|
                    #[trigger] applies::<A>(root.aggregate, ev, a) && step == Ok::<
                        RootModel<A>,
                        ErrorView,
                    >(RootModel { id: root.id, last_sequence: env.sequence, aggregate: a }),
            };
        let ev = d->Ok_0;
        assert(next.id == root.id && next.last_sequence == env.sequence);
        assert(applies::<A>(root.aggregate, ev, next.aggregate));
        let rest = envs.drop_first();
        assert(items.drop_first() =~= rest.map_values(
            |e: EnvelopeView| Ok::<EnvelopeView, ErrorView>(e),
        ));
        lemma_successful_replay_is_ordered(next, rest, fin);
        let tail_events = choose|events: Seq<A::Event>|
            {
                &&& events.len() == rest.len()
                &&& forall|i: int|
                    0 <= i < rest.len() ==> decoded_from::<A::Event>(
                        #[trigger] rest[i],
                        Ok::<A::Event, ErrorView>(events[i]),
                    )
                &&& applied_in_order(next.aggregate, events, fin.aggregate)
            };
        let events = seq![ev] + tail_events;
        assert(events.drop_first() =~= tail_events);
        assert(events[0] == ev);
        assert(applies::<A>(root.aggregate, events[0], next.aggregate));
        assert(applied_in_order(root.aggregate, events, fin.aggregate));
        assert forall|i: int| 0 <= i < envs.len() implies decoded_from::<A::Event>(
            #[trigger] envs[i],
            Ok::<A::Event, ErrorView>(events[i]),
        ) by {
            if i > 0 {
                assert(envs[i] == rest[i - 1]);
            }
        }
        assert forall|i: int| 0 <= i < envs.len() implies (#[trigger] envs[i]).id == root.id by {
            if i > 0 {
                assert(envs[i] == rest[i - 1]);
            }
        }
        assert forall|i: int| 0 <= i < envs.len() implies root.last_sequence < (
        #[trigger] envs[i]).sequence by {
            if i > 0 {
                assert(envs[i] == rest[i - 1]);
            }
        }
        assert forall|i: int, j: int| 0 <= i < j < envs.len() implies (#[trigger] envs[i]).sequence
            < (#[trigger] envs[j]).sequence by {
            assert(envs[j] == rest[j - 1]);
            if i > 0 {
                assert(envs[i] == rest[i - 1]);
            }
        }
        if rest.len() > 0 {
            assert(rest.last() == envs.last());
        }
    }
}

/// Once an envelope has been applied to a root, applying it again is refused.
pub proof fn lemma_applied_envelope_is_refused_again<A: Aggregate>(
    root: RootModel<A>,
    env: EnvelopeView,
    next: RootModel<A>,
    again: Result<RootModel<A>, ErrorView>,
) where A::Event: DeserializeVersion
    requires
        applied_envelope(root, env, Ok::<RootModel<A>, ErrorView>(next)),
        applied_envelope(next, env, again),
    ensures
        again == Err::<RootModel<A>, ErrorView>(ErrorView::Invalid),
{
    let n = choose|n: &'static str|
        #[trigger] reports_name::<A::Event>(n) && if env.name != n@ || env.id != root.id {
            Ok::<RootModel<A>, ErrorView>(next) == Err::<RootModel<A>, ErrorView>(
                ErrorView::Invalid,
            )
        } else if root.last_sequence >= env.sequence {
            Ok::<RootModel<A>, ErrorView>(next) == Err::<RootModel<A>, ErrorView>(
                ErrorView::Invalid,
            )
        } else {
            exists|d: Result<A::Event, ErrorView>|
                #[trigger] decoded_from::<A::Event>(env, d) && match d {
                    Err(e) => Ok::<RootModel<A>, ErrorView>(next) == Err::<RootModel<A>, ErrorView>(
                        e,
                    ),
                    Ok(ev) => exists|a: A|
                        #[trigger] applies::<A>(root.aggregate, ev, a) && Ok::<
                            RootModel<A>,
                            ErrorView,
                        >(next) == Ok::<RootModel<A>, ErrorView>(
                            RootModel { id: root.id, last_sequence: env.sequence, aggregate: a },
                        ),
                }
        };
    assert(next.id == root.id && next.last_sequence == env.sequence);
}

} // verus!
