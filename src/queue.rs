//! The ordered store of tracks waiting to be played in one session.

use rand::seq::SliceRandom;
use vstd::multiset::Multiset;
use vstd::prelude::*;

verus! {

/// Relies on rand's `SliceRandom::shuffle`, which reorders the slice by swaps only:
/// whatever order comes out, the same items are there, each as often as before.
#[verifier::external_body]
fn shuffle_in_place<T>(items: &mut Vec<T>)
    ensures
        final(items)@.len() == old(items)@.len(),
        final(items)@.to_multiset() == old(items)@.to_multiset(),
{
    items.shuffle(&mut rand::rng());
}

/// One operation on a queue, as recorded in a run; a pop records what it returned.
pub enum QueueOp<D> {
    Append(Seq<D>),
    Replace(Seq<D>),
    PopNext(Option<D>),
    Shuffle,
    Clear,
}

/// Whether the queue may go from `before` to `after` by `op`: the contracts of the
/// queue's methods, one per operation.
pub open spec fn queue_step<D>(before: Seq<D>, op: QueueOp<D>, after: Seq<D>) -> bool {
    match op {
        QueueOp::Append(items) => after == before + items,
        QueueOp::Replace(items) => after == items,
        QueueOp::PopNext(r) => if before.len() == 0 {
            r is None && after == before
        } else {
            r == Some(before[0]) && after == before.drop_first()
        },
        QueueOp::Shuffle => after.len() == before.len() && after.to_multiset()
            == before.to_multiset(),
        QueueOp::Clear => after == Seq::<D>::empty(),
    }
}

/// The tracks that a one-at-a-time execution of `op` leaves, counted with multiplicity.
pub open spec fn predicted_items<D>(m: Multiset<D>, op: QueueOp<D>) -> Multiset<D> {
    match op {
        QueueOp::Append(items) => m.add(items.to_multiset()),
        QueueOp::Replace(items) => items.to_multiset(),
        QueueOp::PopNext(r) => match r {
            Some(d) => m.remove(d),
            None => m,
        },
        QueueOp::Shuffle => m,
        QueueOp::Clear => Multiset::empty(),
    }
}

/// The tracks that a one-at-a-time execution of `ops`, in order, leaves from `m`.
pub open spec fn predicted_run<D>(m: Multiset<D>, ops: Seq<QueueOp<D>>) -> Multiset<D>
    decreases ops.len(),
{
    if ops.len() == 0 {
        m
    } else {
        predicted_items(predicted_run(m, ops.drop_last()), ops.last())
    }
}

/// A single operation leaves exactly the tracks that the one-at-a-time prediction gives.
pub proof fn lemma_step_keeps_items<D>(before: Seq<D>, op: QueueOp<D>, after: Seq<D>)
    requires
        queue_step(before, op, after),
    ensures
        after.to_multiset() == predicted_items(before.to_multiset(), op),
{
    broadcast use vstd::seq_lib::group_to_multiset_ensures;
    match op {
        QueueOp::Append(items) => {
            vstd::seq_lib::lemma_multiset_commutative(before, items);
        },
        QueueOp::PopNext(r) => {
            if before.len() > 0 {
                assert(before.drop_first() == before.remove(0));
            }
        },
        QueueOp::Clear => {
            assert(after.to_multiset() =~= Multiset::empty());
        },
        _ => {},
    }
}

/// However operations on a queue are interleaved, once they take effect one after
/// another, after every prefix of the run the queue holds exactly the tracks that a
/// one-at-a-time execution of that prefix predicts: none is lost, none is duplicated.
pub proof fn lemma_no_track_lost_or_duplicated<D>(states: Seq<Seq<D>>, ops: Seq<QueueOp<D>>)
    requires
        states.len() == ops.len() + 1,
        forall|i: int| 0 <= i < ops.len() ==> queue_step(#[trigger] states[i], ops[i], states[i + 1]),
    ensures
        forall|k: int|
            0 <= k <= ops.len() ==> (#[trigger] states[k]).to_multiset() == predicted_run(
                states[0].to_multiset(),
                ops.take(k),
            ),
    decreases ops.len(),
{
    if ops.len() > 0 {
        let n = ops.len() - 1;
        let fewer_states = states.take(n + 1);
        let fewer_ops = ops.take(n);
        assert forall|i: int| 0 <= i < fewer_ops.len() implies queue_step(
            #[trigger] fewer_states[i],
            fewer_ops[i],
            fewer_states[i + 1],
        ) by {
            assert(queue_step(states[i], ops[i], states[i + 1]));
        }
        lemma_no_track_lost_or_duplicated(fewer_states, fewer_ops);
        assert forall|k: int| 0 <= k <= ops.len() implies (#[trigger] states[k]).to_multiset()
            == predicted_run(states[0].to_multiset(), ops.take(k)) by {
            if k <= n {
                assert(fewer_states[k] == states[k]);
                assert(fewer_ops.take(k) == ops.take(k));
            } else {
                assert(fewer_states[n] == states[n]);
                assert(fewer_ops.take(n) == fewer_ops);
                assert(ops.take(k).drop_last() == fewer_ops);
                assert(ops.take(k).last() == ops[n]);
                assert(queue_step(states[n], ops[n], states[n + 1]));
                lemma_step_keeps_items(states[n], ops[n], states[n + 1]);
            }
        }
    }
}

/// Installing a non-empty sequence and then popping returns its first element and
/// leaves the rest in the order given.
pub proof fn lemma_replace_then_pop<D>(
    before: Seq<D>,
    items: Seq<D>,
    middle: Seq<D>,
    popped: Option<D>,
    after: Seq<D>,
)
    requires
        queue_step(before, QueueOp::Replace(items), middle),
        queue_step(middle, QueueOp::PopNext(popped), after),
    ensures
        items.len() > 0 ==> popped == Some(items[0]) && after == items.drop_first(),
        items.len() == 0 ==> popped is None && after.len() == 0,
{
}

/// After a shuffle, a listing of the queue holds every track that was there before,
/// as often as before, and nothing else.
pub proof fn lemma_shuffle_keeps_tracks<D>(before: Seq<D>, after: Seq<D>)
    requires
        queue_step(before, QueueOp::Shuffle, after),
    ensures
        after.len() == before.len(),
        forall|d: D| #[trigger] after.to_multiset().count(d) == before.to_multiset().count(d),
        forall|d: D| #[trigger] after.contains(d) <==> before.contains(d),
{
    broadcast use vstd::seq_lib::group_to_multiset_ensures;
    assert forall|d: D| #[trigger] after.contains(d) <==> before.contains(d) by {
        assert(after.contains(d) <==> after.to_multiset().count(d) > 0);
        assert(before.contains(d) <==> before.to_multiset().count(d) > 0);
    }
}

/// Tracks waiting to be played, front first.
///
/// The view is the playback order: element 0 plays next.
pub struct QueueStore<D> {
    items: Vec<D>,
}

impl<D> View for QueueStore<D> {
    type V = Seq<D>;

    closed spec fn view(&self) -> Seq<D> {
        self.items@
    }
}

impl<D> QueueStore<D> {
    /// An empty queue.
    pub fn new() -> (r: Self)
        ensures
            r@ == Seq::<D>::empty(),
    {
        QueueStore { items: Vec::new() }
    }

    /// Drops what was queued and installs `items` in the order given.
    pub fn replace(&mut self, items: Vec<D>)
        ensures
            final(self)@ == items@,
    {
        self.items = items;
    }

    /// Queues `items` behind what is already waiting, keeping their order.
    pub fn append(&mut self, items: Vec<D>)
        ensures
            final(self)@ == old(self)@ + items@,
    {
        let mut items = items;
        self.items.append(&mut items);
    }

    /// Removes and returns the track that plays next; `None` when nothing waits.
    pub fn pop_next(&mut self) -> (r: Option<D>)
        ensures
            old(self)@.len() == 0 ==> r is None && final(self)@ == old(self)@,
            old(self)@.len() > 0 ==> r == Some(old(self)@[0]) && final(self)@ == old(self)@.drop_first(),
    {
        if self.items.len() == 0 {
            None
        } else {
            Some(self.items.remove(0))
        }
    }

    /// Puts the waiting tracks in a random order, as one step: the same tracks
    /// stay, each as often as before.
    pub fn shuffle(&mut self)
        ensures
            final(self)@.len() == old(self)@.len(),
            final(self)@.to_multiset() == old(self)@.to_multiset(),
    {
        shuffle_in_place(&mut self.items);
    }

    /// Drops every waiting track.
    pub fn clear(&mut self)
        ensures
            final(self)@ == Seq::<D>::empty(),
    {
        self.items.clear();
    }

    /// How many tracks wait.
    pub fn len(&self) -> (r: usize)
        ensures
            r == self@.len(),
    {
        self.items.len()
    }

    /// Whether nothing waits.
    pub fn is_empty(&self) -> (r: bool)
        ensures
            r == (self@.len() == 0),
    {
        self.items.len() == 0
    }

    /// The waiting tracks in playback order, without removing them.
    pub fn snapshot(&self) -> (r: &[D])
        ensures
            r@ == self@,
    {
        self.items.as_slice()
    }
}

} // verus!
