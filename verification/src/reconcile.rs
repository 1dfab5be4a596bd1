//! Which solves of a feed snapshot are new.
//!
//! A solve is new when the record of known solves does not hold its key and
//! no earlier entry of the same snapshot has that key. The new solves come
//! out in the order in which the snapshot lists them.

use crate::htb::api_types::{ActivityEvent, ActivityEventView, SolveKey};
use crate::solve_cache::{KnownSolves, SolveCache};
use vstd::prelude::*;

verus! {

/// The contents of a list of events.
pub open spec fn event_views(events: Seq<ActivityEvent>) -> Seq<ActivityEventView> {
    Seq::new(events.len(), |i: int| events[i]@)
}

/// The keys that occur in a list of events.
pub open spec fn keys_of(events: Seq<ActivityEventView>) -> Set<SolveKey> {
    Set::new(|k: SolveKey| exists|i: int| 0 <= i < events.len() && #[trigger] events[i].key() == k)
}

/// Whether the entry at position `i` is the first of its key in the snapshot
/// and not yet known.
pub open spec fn is_new_at(
    snapshot: Seq<ActivityEventView>,
    known: Set<SolveKey>,
    i: int,
) -> bool {
    &&& !known.contains(snapshot[i].key())
    &&& forall|j: int| 0 <= j < i ==> (#[trigger] snapshot[j]).key() != snapshot[i].key()
}

/// The new events of a snapshot, in the snapshot's order.
pub open spec fn new_events(
    snapshot: Seq<ActivityEventView>,
    known: Set<SolveKey>,
) -> Seq<ActivityEventView>
    decreases snapshot.len(),
{
    if snapshot.len() == 0 {
        Seq::empty()
    } else {
        let earlier = new_events(snapshot.drop_last(), known);
        if is_new_at(snapshot, known, snapshot.len() - 1) {
            earlier.push(snapshot.last())
        } else {
            earlier
        }
    }
}

/// The positions in the snapshot of its new events, in increasing order.
pub open spec fn new_positions(snapshot: Seq<ActivityEventView>, known: Set<SolveKey>) -> Seq<int>
    decreases snapshot.len(),
{
    if snapshot.len() == 0 {
        Seq::empty()
    } else {
        let earlier = new_positions(snapshot.drop_last(), known);
        if is_new_at(snapshot, known, snapshot.len() - 1) {
            earlier.push(snapshot.len() - 1)
        } else {
            earlier
        }
    }
}

/// Whether `picked` lists the entries of `full` at the positions `at`, and
/// these positions increase.
pub open spec fn picks_in_order<T>(picked: Seq<T>, full: Seq<T>, at: Seq<int>) -> bool {
    &&& at.len() == picked.len()
    &&& forall|k: int| 0 <= k < at.len() ==> 0 <= #[trigger] at[k] < full.len()
    &&& forall|k: int| 0 <= k < at.len() ==> picked[k] == full[#[trigger] at[k]]
    &&& forall|k: int, l: int| 0 <= k < l < at.len() ==> #[trigger] at[k] < #[trigger] at[l]
}

/// Whether `picked` can be had from `full` by leaving entries out.
pub open spec fn is_subsequence<T>(picked: Seq<T>, full: Seq<T>) -> bool {
    exists|at: Seq<int>| picks_in_order(picked, full, at)
}

/// Diffs a snapshot of the feed against the record of known solves.
///
/// The result holds, in the snapshot's order, each event whose key the record
/// does not hold, once: of several entries with one key the first is kept.
/// The record is only read.
pub fn reconcile<K: KnownSolves>(snapshot: &Vec<ActivityEvent>, known: &K) -> (fresh: Vec<
    ActivityEvent,
>)
    ensures
        event_views(fresh@) == new_events(event_views(snapshot@), known.known()),
        is_subsequence(event_views(fresh@), event_views(snapshot@)),
        keys_of(event_views(fresh@)) == keys_of(event_views(snapshot@)).difference(known.known()),
{
    let ghost views = event_views(snapshot@);
    let mut fresh: Vec<ActivityEvent> = Vec::new();
    let mut seen = SolveCache::new();
    let mut i: usize = 0;
    assert(views.take(0) =~= Seq::<ActivityEventView>::empty());
    assert(event_views(fresh@) =~= Seq::<ActivityEventView>::empty());
    while i < snapshot.len()
        invariant
            i <= snapshot.len(),
            views == event_views(snapshot@),
            forall|k: SolveKey| #[trigger]
                seen.known().contains(k) <==> keys_of(views.take(i as int)).contains(k),
            event_views(fresh@) == new_events(views.take(i as int), known.known()),
        decreases snapshot.len() - i,
    {
        let event = &snapshot[i];
        let ghost prefix = views.take(i as int);
        let ghost next = views.take(i + 1);
        proof {
            assert(event@ == views[i as int]);
            assert(next.drop_last() =~= prefix);
            assert(next =~= prefix.push(views[i as int]));
            lemma_keys_of_push(prefix, views[i as int]);
            lemma_last_is_new(next, known.known());
        }
        let is_known = known.contains(event.actor.id, event.event_id, event.kind.as_str());
        let first = seen.insert(event.actor.id, event.event_id, event.kind.as_str());
        assert(is_new_at(next, known.known(), i as int) == (!is_known && first));
        if !is_known && first {
            let ghost before = event_views(fresh@);
            fresh.push(event.clone());
            assert(event_views(fresh@) =~= before.push(views[i as int]));
        }
        i = i + 1;
    }
    proof {
        assert(views.take(snapshot.len() as int) =~= views);
        lemma_new_events_in_order(views, known.known());
        lemma_new_events_keys(views, known.known());
    }
    fresh
}

/// The keys of a list with one more entry are the keys of the list and the
/// key of that entry.
pub proof fn lemma_keys_of_push(events: Seq<ActivityEventView>, last: ActivityEventView)
    ensures
        keys_of(events.push(last)) == keys_of(events).insert(last.key()),
{
    let longer = events.push(last);
    assert forall|k: SolveKey| keys_of(longer).contains(k) == keys_of(events).insert(
        last.key(),
    ).contains(k) by {
        if keys_of(longer).contains(k) {
            let i = choose|i: int| 0 <= i < longer.len() && #[trigger] longer[i].key() == k;
            if i < events.len() {
                assert(events[i].key() == k);
            }
        }
        if keys_of(events).contains(k) {
            let i = choose|i: int| 0 <= i < events.len() && #[trigger] events[i].key() == k;
            assert(longer[i].key() == k);
        }
        if k == last.key() {
            assert(longer[events.len() as int].key() == k);
        }
    }
    assert(keys_of(longer) =~= keys_of(events).insert(last.key()));
}

/// Whether the last entry of a snapshot is new is decided by the record and
/// by the keys of the entries before it.
proof fn lemma_last_is_new(snapshot: Seq<ActivityEventView>, known: Set<SolveKey>)
    requires
        snapshot.len() > 0,
    ensures
        is_new_at(snapshot, known, snapshot.len() - 1) <==> !known.contains(snapshot.last().key())
            && !keys_of(snapshot.drop_last()).contains(snapshot.last().key()),
{
    let earlier = snapshot.drop_last();
    let key = snapshot.last().key();
    let at = snapshot.len() - 1;
    if keys_of(earlier).contains(key) {
        let j = choose|j: int| 0 <= j < earlier.len() && #[trigger] earlier[j].key() == key;
        assert(snapshot[j].key() == snapshot[at].key());
    } else {
        assert forall|j: int| 0 <= j < at implies (#[trigger] snapshot[j]).key() != snapshot[at].key() by {
            assert(earlier[j].key() == snapshot[j].key());
        }
    }
}

/// The new events carry exactly the keys of the snapshot that the record does
/// not hold: no unknown solve is lost, and no known solve comes back.
pub proof fn lemma_new_events_keys(snapshot: Seq<ActivityEventView>, known: Set<SolveKey>)
    ensures
        keys_of(new_events(snapshot, known)) == keys_of(snapshot).difference(known),
    decreases snapshot.len(),
{
    if snapshot.len() == 0 {
        assert(keys_of(new_events(snapshot, known)) =~= keys_of(snapshot).difference(known));
    } else {
        let earlier = snapshot.drop_last();
        let last = snapshot.last();
        lemma_new_events_keys(earlier, known);
        lemma_last_is_new(snapshot, known);
        assert(snapshot =~= earlier.push(last));
        lemma_keys_of_push(earlier, last);
        if is_new_at(snapshot, known, snapshot.len() - 1) {
            lemma_keys_of_push(new_events(earlier, known), last);
        }
        assert(keys_of(new_events(snapshot, known)) =~= keys_of(snapshot).difference(known));
    }
}

/// No two of the new events have the same key: a solve that the snapshot
/// lists several times is announced once.
pub proof fn lemma_new_events_distinct(snapshot: Seq<ActivityEventView>, known: Set<SolveKey>)
    ensures
        forall|a: int, b: int|
            0 <= a < b < new_events(snapshot, known).len() ==> (#[trigger] new_events(
                snapshot,
                known,
            )[a]).key() != (#[trigger] new_events(snapshot, known)[b]).key(),
    decreases snapshot.len(),
{
    if snapshot.len() > 0 {
        let earlier = snapshot.drop_last();
        let fresh = new_events(earlier, known);
        lemma_new_events_distinct(earlier, known);
        lemma_new_events_keys(earlier, known);
        lemma_last_is_new(snapshot, known);
        if is_new_at(snapshot, known, snapshot.len() - 1) {
            let all = new_events(snapshot, known);
            assert forall|a: int, b: int| 0 <= a < b < all.len() implies (#[trigger] all[a]).key()
                != (#[trigger] all[b]).key() by {
                if b == fresh.len() {
                    assert(fresh[a].key() == all[a].key());
                    assert(keys_of(fresh).contains(fresh[a].key()));
                } else {
                    assert(fresh[a] == all[a] && fresh[b] == all[b]);
                }
            }
        }
    }
}

/// The new events stand in the snapshot at the positions `new_positions`,
/// which increase: the result is the snapshot with entries left out, in the
/// snapshot's order.
pub proof fn lemma_new_events_in_order(snapshot: Seq<ActivityEventView>, known: Set<SolveKey>)
    ensures
        picks_in_order(new_events(snapshot, known), snapshot, new_positions(snapshot, known)),
        is_subsequence(new_events(snapshot, known), snapshot),
        forall|k: int|
            0 <= k < new_positions(snapshot, known).len() ==> is_new_at(
                snapshot,
                known,
                #[trigger] new_positions(snapshot, known)[k],
            ),
    decreases snapshot.len(),
{
    if snapshot.len() > 0 {
        let earlier = snapshot.drop_last();
        lemma_new_events_in_order(earlier, known);
        let at = new_positions(snapshot, known);
        let before = new_positions(earlier, known);
        assert forall|k: int| 0 <= k < at.len() implies is_new_at(snapshot, known, #[trigger] at[k]) by {
            if k < before.len() {
                let p = before[k];
                assert(at[k] == p);
                assert(is_new_at(earlier, known, p));
                assert(earlier[p] == snapshot[p]);
                assert forall|j: int| 0 <= j < p implies (#[trigger] snapshot[j]).key() != snapshot[p].key() by {
                    assert(earlier[j] == snapshot[j]);
                }
            }
        }
    }
    assert(picks_in_order(new_events(snapshot, known), snapshot, new_positions(snapshot, known)));
}

/// Every position of the snapshot whose entry is new is among
/// `new_positions`: no new event is left out.
pub proof fn lemma_new_positions_complete(
    snapshot: Seq<ActivityEventView>,
    known: Set<SolveKey>,
    i: int,
)
    requires
        0 <= i < snapshot.len(),
        is_new_at(snapshot, known, i),
    ensures
        new_positions(snapshot, known).contains(i),
    decreases snapshot.len(),
{
    let earlier = snapshot.drop_last();
    let before = new_positions(earlier, known);
    if i == snapshot.len() - 1 {
        assert(new_positions(snapshot, known) == before.push(i));
        assert(before.push(i)[before.len() as int] == i);
    } else {
        assert(earlier[i] == snapshot[i]);
        assert forall|j: int| 0 <= j < i implies (#[trigger] earlier[j]).key() != earlier[i].key() by {
            assert(earlier[j] == snapshot[j]);
        }
        lemma_new_positions_complete(earlier, known, i);
        let k = choose|k: int| 0 <= k < before.len() && before[k] == i;
        assert(new_positions(snapshot, known)[k] == i);
    }
}

/// A snapshot whose keys the record holds already has no new event.
pub proof fn lemma_all_known_nothing_new(snapshot: Seq<ActivityEventView>, known: Set<SolveKey>)
    requires
        keys_of(snapshot).subset_of(known),
    ensures
        new_events(snapshot, known) == Seq::<ActivityEventView>::empty(),
    decreases snapshot.len(),
{
    if snapshot.len() > 0 {
        let earlier = snapshot.drop_last();
        assert(snapshot =~= earlier.push(snapshot.last()));
        lemma_keys_of_push(earlier, snapshot.last());
        lemma_all_known_nothing_new(earlier, known);
        assert(known.contains(snapshot.last().key()));
    }
}

/// Reconciling is idempotent: once every new event of a snapshot has been
/// recorded, the same snapshot has no new event.
pub proof fn lemma_reconcile_idempotent(snapshot: Seq<ActivityEventView>, known: Set<SolveKey>)
    ensures
        new_events(snapshot, known.union(keys_of(new_events(snapshot, known)))) == Seq::<
            ActivityEventView,
        >::empty(),
{
    lemma_new_events_keys(snapshot, known);
    lemma_all_known_nothing_new(snapshot, known.union(keys_of(new_events(snapshot, known))));
}

/// The record only grows, so a solve that was recorded never comes back as
/// new, whatever was recorded after it and whatever the feed lists later.
pub proof fn lemma_recorded_never_new(
    snapshot: Seq<ActivityEventView>,
    known: Set<SolveKey>,
    key: SolveKey,
)
    requires
        known.contains(key),
    ensures
        !keys_of(new_events(snapshot, known)).contains(key),
{
    lemma_new_events_keys(snapshot, known);
}

/// A solve of the snapshot that was not recorded is among the new events.
pub proof fn lemma_unrecorded_stays_new(
    snapshot: Seq<ActivityEventView>,
    known: Set<SolveKey>,
    key: SolveKey,
)
    requires
        keys_of(snapshot).contains(key),
        !known.contains(key),
    ensures
        keys_of(new_events(snapshot, known)).contains(key),
{
    lemma_new_events_keys(snapshot, known);
}

} // verus!
