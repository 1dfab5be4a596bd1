//! The record of the solves that have already been announced.
//!
//! The record only grows. A solve enters it after its announcement has gone
//! out, so a solve that was never announced is never held to be known.

use crate::htb::api_types::SolveKey;
use dashmap::DashSet;
use vstd::prelude::*;

verus! {

/// `dashmap::DashSet`, the concurrent set that keeps the record. Nothing is
/// known of its inside but what the wrappers below say.
#[verifier::external_type_specification]
#[verifier::external_body]
#[verifier::reject_recursive_types(K)]
#[verifier::reject_recursive_types(S)]
pub struct ExDashSet<K, S>(DashSet<K, S>);

/// The keys that a set of solves holds, each with its kind as text.
pub uninterp spec fn solve_keys(set: DashSet<(i64, i64, String)>) -> Set<SolveKey>;

/// `DashSet::new`: the set it returns holds nothing.
#[verifier::external_body]
fn solve_set_new() -> (set: DashSet<(i64, i64, String)>)
    ensures
        solve_keys(set) == Set::<SolveKey>::empty(),
{
    DashSet::new()
}

/// `DashSet::contains`: whether a key equal to the given one is in the set.
/// Keys are equal when both ids are equal and the kinds are the same text.
#[verifier::external_body]
fn solve_set_contains(set: &DashSet<(i64, i64, String)>, key: &(i64, i64, String)) -> (found: bool)
    ensures
        found == solve_keys(*set).contains((key.0, key.1, key.2@)),
{
    set.contains(key)
}

/// `DashSet::insert`: afterwards the set holds the key besides what it held,
/// and the result tells whether the key was absent before.
#[verifier::external_body]
fn solve_set_insert(set: &mut DashSet<(i64, i64, String)>, key: (i64, i64, String)) -> (fresh: bool)
    ensures
        solve_keys(*final(set)) == solve_keys(*old(set)).insert((key.0, key.1, key.2@)),
        fresh == !solve_keys(*old(set)).contains((key.0, key.1, key.2@)),
{
    set.insert(key)
}

/// What the synchronisation asks of a record of known solves, whatever keeps it.
pub trait KnownSolves {
    /// The keys of the solves recorded so far.
    spec fn known(&self) -> Set<SolveKey>;

    /// Whether the solve of this actor, subject and kind has been recorded.
    fn contains(&self, actor_id: i64, event_id: i64, kind: &str) -> (found: bool)
        ensures
            found == self.known().contains((actor_id, event_id, kind@)),
    ;

    /// Records a solve. Recording a solve again changes nothing, and nothing
    /// that was recorded is ever lost.
    fn record(&mut self, actor_id: i64, event_id: i64, kind: &str)
        ensures
            final(self).known() == old(self).known().insert((actor_id, event_id, kind@)),
    ;
}

/// The record kept in memory.
pub struct SolveCache {
    solves: DashSet<(i64, i64, String)>,
}

impl SolveCache {
    /// A record that knows no solve.
    pub fn new() -> (cache: Self)
        ensures
            cache.known() == Set::<SolveKey>::empty(),
    {
        SolveCache { solves: solve_set_new() }
    }

    /// Records a solve and tells whether it was new to the record.
    pub fn insert(&mut self, actor_id: i64, event_id: i64, kind: &str) -> (fresh: bool)
        ensures
            final(self).known() == old(self).known().insert((actor_id, event_id, kind@)),
            fresh == !old(self).known().contains((actor_id, event_id, kind@)),
    {
        solve_set_insert(&mut self.solves, (actor_id, event_id, kind.to_owned()))
    }
}

impl KnownSolves for SolveCache {
    closed spec fn known(&self) -> Set<SolveKey> {
        solve_keys(self.solves)
    }

    fn contains(&self, actor_id: i64, event_id: i64, kind: &str) -> (found: bool) {
        let key = (actor_id, event_id, kind.to_owned());
        solve_set_contains(&self.solves, &key)
    }

    fn record(&mut self, actor_id: i64, event_id: i64, kind: &str) {
        let _ = self.insert(actor_id, event_id, kind);
    }
}

/// Recording is per actor: a solve recorded for one actor changes nothing
/// about what is known of another, for the same subject or any other.
pub proof fn lemma_record_is_per_actor(
    known: Set<SolveKey>,
    actor_id: i64,
    event_id: i64,
    kind: Seq<char>,
    other: SolveKey,
)
    requires
        other.0 != actor_id,
    ensures
        known.insert((actor_id, event_id, kind)).contains(other) == known.contains(other),
{
}

/// Recording a solve that is known already changes nothing.
pub proof fn lemma_record_is_idempotent(known: Set<SolveKey>, key: SolveKey)
    ensures
        known.insert(key).insert(key) == known.insert(key),
        known.contains(key) ==> known.insert(key) == known,
{
    assert(known.insert(key).insert(key) =~= known.insert(key));
    if known.contains(key) {
        assert(known.insert(key) =~= known);
    }
}

} // verus!
