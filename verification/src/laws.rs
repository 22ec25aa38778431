use vstd::prelude::*;

use crate::adapter::PollOutcome;
use crate::adapter::StreamModel;
use crate::adapter::spec_deliver;
use crate::adapter::spec_dispose_state;
use crate::adapter::spec_dispose_unregister;
use crate::adapter::spec_poll_outcome;
use crate::adapter::spec_poll_state;
use crate::adapter::spec_source_destroyed;

verus! {

/// The state after every item of `items` has been fired into the
/// adapter, oldest first.
pub open spec fn deliver_all<T>(m: StreamModel<T>, items: Seq<T>) -> StreamModel<T>
    decreases items.len(),
{
    if items.len() == 0 {
        m
    } else {
        spec_deliver(deliver_all(m, items.drop_last()), items.last())
    }
}

/// The state after the consumer has polled `n` times.
pub open spec fn poll_n<T>(m: StreamModel<T>, n: nat) -> StreamModel<T>
    decreases n,
{
    if n == 0 {
        m
    } else {
        spec_poll_state(poll_n(m, (n - 1) as nat))
    }
}

/// Firings only append: delivering a whole sequence of items leaves the
/// buffer extended by exactly that sequence and touches nothing else.
pub proof fn lemma_deliver_all<T>(m: StreamModel<T>, items: Seq<T>)
    ensures
        deliver_all(m, items).pending == m.pending + items,
        deliver_all(m, items).token == m.token,
        deliver_all(m, items).source_alive == m.source_alive,
    decreases items.len(),
{
    if items.len() == 0 {
        assert(m.pending + items =~= m.pending);
    } else {
        lemma_deliver_all(m, items.drop_last());
        assert(m.pending + items =~= (m.pending + items.drop_last()).push(items.last()));
    }
}

/// Polls only drain from the front: while items remain buffered, `n`
/// polls remove exactly the `n` oldest and touch nothing else.
pub proof fn lemma_poll_n<T>(m: StreamModel<T>, n: nat)
    requires
        n <= m.pending.len(),
    ensures
        poll_n(m, n).pending == m.pending.skip(n as int),
        poll_n(m, n).token == m.token,
        poll_n(m, n).source_alive == m.source_alive,
    decreases n,
{
    if n == 0 {
        assert(m.pending.skip(0) =~= m.pending);
    } else {
        lemma_poll_n(m, (n - 1) as nat);
        assert(m.pending.skip(n as int) =~= m.pending.skip(n as int - 1).drop_first());
    }
}

/// Items fired before any poll come back in firing order: after `items`
/// have been fired into an adapter with an empty buffer and the
/// consumer has polled `i` times, the next poll yields the `i`-th fired
/// item — first-in, first-out, nothing reordered, nothing dropped.
pub proof fn lemma_items_polled_in_firing_order<T>(m: StreamModel<T>, items: Seq<T>, i: int)
    requires
        m.pending == Seq::<T>::empty(),
        0 <= i < items.len(),
    ensures
        spec_poll_outcome(poll_n(deliver_all(m, items), i as nat)) == PollOutcome::<T>::Item(
            items[i],
        ),
{
    lemma_deliver_all(m, items);
    assert(deliver_all(m, items).pending =~= items);
    lemma_poll_n(deliver_all(m, items), i as nat);
    assert(items.skip(i)[0] == items[i]);
}

/// Once the consumer has drained every fired item, the next poll of a
/// still-live subscription suspends rather than ending the sequence:
/// more items may yet come.
pub proof fn lemma_drained_stream_suspends<T>(m: StreamModel<T>, items: Seq<T>)
    requires
        m.pending == Seq::<T>::empty(),
        m.active(),
    ensures
        spec_poll_outcome(poll_n(deliver_all(m, items), items.len())) == PollOutcome::<
            T,
        >::Suspend,
{
    lemma_deliver_all(m, items);
    assert(deliver_all(m, items).pending =~= items);
    lemma_poll_n(deliver_all(m, items), items.len());
    assert(items.skip(items.len() as int) =~= Seq::<T>::empty());
}

/// Teardown while the source object is alive owes the toolkit exactly
/// one unregistration, with exactly the one held token; the token is
/// consumed, the callback may no longer fire, and a second teardown
/// owes nothing.
pub proof fn lemma_dispose_live_unregisters_once<T>(m: StreamModel<T>)
    requires
        m.active(),
    ensures
        spec_dispose_unregister(m) == m.token,
        spec_dispose_unregister(m) is Some,
        spec_dispose_state(m).token is None,
        !spec_dispose_state(m).active(),
        spec_dispose_unregister(spec_dispose_state(m)) is None,
        spec_dispose_state(m).pending == m.pending,
{
}

/// Teardown after the source object is already gone owes the toolkit
/// nothing and still succeeds: the token is consumed, no unregistration
/// is attempted, and the buffered items are untouched.
pub proof fn lemma_dispose_after_destroy_unregisters_nothing<T>(m: StreamModel<T>)
    requires
        !m.source_alive,
    ensures
        spec_dispose_unregister(m) is None,
        spec_dispose_state(m).token is None,
        spec_dispose_state(m).pending == m.pending,
{
}

/// Disposal is idempotent: on an adapter whose token was already
/// consumed, teardown owes no unregistration and changes nothing at
/// all.
pub proof fn lemma_dispose_idempotent<T>(m: StreamModel<T>)
    requires
        m.token is None,
    ensures
        spec_dispose_unregister(m) is None,
        spec_dispose_state(m) == m,
{
    assert(spec_dispose_state(m) =~= m);
}

/// A source object fires its items, is destroyed, and only then is the
/// adapter torn down: the consumer still observes every fired item in
/// firing order, then end-of-sequence — and at every point along the
/// way, teardown would skip unregistration, the object being gone.
pub proof fn lemma_destroyed_source_drains_then_finishes<T>(
    m: StreamModel<T>,
    items: Seq<T>,
    i: int,
)
    requires
        m.pending == Seq::<T>::empty(),
        0 <= i <= items.len(),
    ensures
        ({
            let after = poll_n(spec_source_destroyed(deliver_all(m, items)), i as nat);
            &&& (i < items.len() ==> spec_poll_outcome(after) == PollOutcome::<T>::Item(items[i]))
            &&& (i == items.len() ==> spec_poll_outcome(after) == PollOutcome::<T>::Finished)
            &&& spec_dispose_unregister(after) is None
        }),
{
    lemma_deliver_all(m, items);
    let destroyed = spec_source_destroyed(deliver_all(m, items));
    assert(destroyed.pending =~= items);
    lemma_poll_n(destroyed, i as nat);
    if i < items.len() {
        assert(items.skip(i)[0] == items[i]);
    } else {
        assert(items.skip(i) =~= Seq::<T>::empty());
    }
}

/// Two adapters constructed independently on the same event observe the
/// same firings independently: each receives every fired item, in
/// firing order — neither stream steals an item from the other.
pub proof fn lemma_independent_streams_each_receive_all<T>(
    m1: StreamModel<T>,
    m2: StreamModel<T>,
    items: Seq<T>,
    i: int,
)
    requires
        m1.pending == Seq::<T>::empty(),
        m2.pending == Seq::<T>::empty(),
        0 <= i < items.len(),
    ensures
        spec_poll_outcome(poll_n(deliver_all(m1, items), i as nat)) == PollOutcome::<T>::Item(
            items[i],
        ),
        spec_poll_outcome(poll_n(deliver_all(m2, items), i as nat)) == PollOutcome::<T>::Item(
            items[i],
        ),
{
    lemma_items_polled_in_firing_order(m1, items, i);
    lemma_items_polled_in_firing_order(m2, items, i);
}

} // verus!
