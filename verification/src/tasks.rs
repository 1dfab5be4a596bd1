//! One cycle of the solve synchronisation, as a state machine.
//!
//! The caller does the outside work: it renews the token, fetches the feed
//! and delivers the notifications. After each piece of work it reports what
//! happened, and the machine says what comes next. A solve is recorded only
//! once its notification has been delivered, so a solve whose delivery failed
//! is new again in the next cycle.

use crate::catalog::{CategoryCatalog, Labels};
use crate::discord_utils::{
    event_notification, solve_notification, Notification, NotificationView, SolveToAnnounce,
};
use crate::htb::api_types::{ActivityEvent, ActivityEventView, RankStatsData, SolveKey};
use crate::reconcile::{event_views, keys_of, lemma_new_events_keys, new_events, reconcile};
use crate::solve_cache::KnownSolves;
use crate::{htb_channel_topic, topic_text, update_htb_channel_topic_with_stats};
use vstd::prelude::*;

verus! {

/// Why a cycle was given up.
#[derive(Clone, Copy, Debug, PartialEq, Eq, Structural)]
pub enum SyncError {
    /// The session token could not be renewed.
    Renewal,
    /// The platform could not be reached, or its answer could not be read.
    Transport,
    /// The caller reported something that the cycle was not waiting for.
    OutOfTurn,
}

/// Where a cycle of the solve synchronisation stands.
#[derive(Clone, Copy, Debug, PartialEq, Eq, Structural)]
pub enum SolveSyncStage {
    /// The token is being renewed.
    Renewing,
    /// The feed is being fetched.
    Fetching,
    /// A notification is being delivered.
    Announcing,
    /// Every new solve has been tried.
    Finished,
    /// The cycle was given up.
    Failed(SyncError),
}

/// What the caller reports to a cycle of the solve synchronisation.
#[derive(Debug)]
pub enum SolveSyncEvent {
    TokenRenewed,
    RenewalFailed,
    ActivityFetched(Vec<ActivityEvent>),
    FetchFailed,
    Delivered,
    DeliveryFailed,
}

/// The mathematical content of a [`SolveSyncEvent`].
pub enum SolveSyncEventView {
    TokenRenewed,
    RenewalFailed,
    ActivityFetched(Seq<ActivityEventView>),
    FetchFailed,
    Delivered,
    DeliveryFailed,
}

impl View for SolveSyncEvent {
    type V = SolveSyncEventView;

    open spec fn view(&self) -> SolveSyncEventView {
        match self {
            SolveSyncEvent::TokenRenewed => SolveSyncEventView::TokenRenewed,
            SolveSyncEvent::RenewalFailed => SolveSyncEventView::RenewalFailed,
            SolveSyncEvent::ActivityFetched(snapshot) => SolveSyncEventView::ActivityFetched(
                event_views(snapshot@),
            ),
            SolveSyncEvent::FetchFailed => SolveSyncEventView::FetchFailed,
            SolveSyncEvent::Delivered => SolveSyncEventView::Delivered,
            SolveSyncEvent::DeliveryFailed => SolveSyncEventView::DeliveryFailed,
        }
    }
}

/// What a cycle of the solve synchronisation asks of the caller.
#[derive(Debug)]
pub enum SolveSyncAction {
    RenewToken,
    FetchActivity,
    /// Deliver this notification, then report how it went.
    Announce(Notification),
    /// The cycle is over; so many solves were announced.
    Finish(usize),
    /// The cycle is over; it was given up.
    Abort(SyncError),
}

/// The mathematical content of a [`SolveSyncAction`].
pub enum SolveSyncActionView {
    RenewToken,
    FetchActivity,
    Announce(NotificationView),
    Finish(usize),
    Abort(SyncError),
}

impl View for SolveSyncAction {
    type V = SolveSyncActionView;

    open spec fn view(&self) -> SolveSyncActionView {
        match self {
            SolveSyncAction::RenewToken => SolveSyncActionView::RenewToken,
            SolveSyncAction::FetchActivity => SolveSyncActionView::FetchActivity,
            SolveSyncAction::Announce(shown) => SolveSyncActionView::Announce(shown@),
            SolveSyncAction::Finish(announced) => SolveSyncActionView::Finish(*announced),
            SolveSyncAction::Abort(why) => SolveSyncActionView::Abort(*why),
        }
    }
}

/// The mathematical content of a [`SolveSync`].
pub struct SolveSyncView {
    pub stage: SolveSyncStage,
    /// The new solves of this cycle, in the order of the feed.
    pub pending: Seq<ActivityEventView>,
    /// How many of them have been tried.
    pub next: int,
    /// How many of them have been announced.
    pub announced: int,
}

impl SolveSyncView {
    /// What holds of every cycle: the solves tried are among the pending
    /// ones, the solves announced among those tried, and while a
    /// notification is being delivered there is a solve that it is for.
    pub open spec fn wf(self) -> bool {
        &&& 0 <= self.announced <= self.next <= self.pending.len()
        &&& self.stage == SolveSyncStage::Announcing ==> self.next < self.pending.len()
    }

    /// The stage after the solve at `next` has been tried.
    pub open spec fn stage_at(self, next: int) -> SolveSyncStage {
        if next < self.pending.len() {
            SolveSyncStage::Announcing
        } else {
            SolveSyncStage::Finished
        }
    }

    /// The cycle after the caller's report, given what the record held.
    pub open spec fn after(self, event: SolveSyncEventView, known: Set<SolveKey>) -> SolveSyncView {
        match (self.stage, event) {
            (SolveSyncStage::Finished, _) => self,
            (SolveSyncStage::Failed(_), _) => self,
            (SolveSyncStage::Renewing, SolveSyncEventView::TokenRenewed) => SolveSyncView {
                stage: SolveSyncStage::Fetching,
                ..self
            },
            (SolveSyncStage::Renewing, SolveSyncEventView::RenewalFailed) => SolveSyncView {
                stage: SolveSyncStage::Failed(SyncError::Renewal),
                ..self
            },
            (SolveSyncStage::Fetching, SolveSyncEventView::ActivityFetched(snapshot)) => {
                let fresh = SolveSyncView {
                    stage: self.stage,
                    pending: new_events(snapshot, known),
                    next: 0,
                    announced: 0,
                };
                SolveSyncView { stage: fresh.stage_at(0), ..fresh }
            },
            (SolveSyncStage::Fetching, SolveSyncEventView::FetchFailed) => SolveSyncView {
                stage: SolveSyncStage::Failed(SyncError::Transport),
                ..self
            },
            (SolveSyncStage::Announcing, SolveSyncEventView::Delivered) => SolveSyncView {
                stage: self.stage_at(self.next + 1),
                next: self.next + 1,
                announced: self.announced + 1,
                ..self
            },
            (SolveSyncStage::Announcing, SolveSyncEventView::DeliveryFailed) => SolveSyncView {
                stage: self.stage_at(self.next + 1),
                next: self.next + 1,
                ..self
            },
            _ => SolveSyncView { stage: SolveSyncStage::Failed(SyncError::OutOfTurn), ..self },
        }
    }

    /// What the record holds after the caller's report: one more solve when
    /// a delivery succeeded, and otherwise what it held.
    pub open spec fn known_after(self, event: SolveSyncEventView, known: Set<SolveKey>) -> Set<
        SolveKey,
    > {
        match (self.stage, event) {
            (SolveSyncStage::Announcing, SolveSyncEventView::Delivered) => known.insert(
                self.pending[self.next].key(),
            ),
            _ => known,
        }
    }

    /// What the cycle asks of the caller now.
    pub open spec fn action(self, labels: Labels) -> SolveSyncActionView {
        match self.stage {
            SolveSyncStage::Renewing => SolveSyncActionView::RenewToken,
            SolveSyncStage::Fetching => SolveSyncActionView::FetchActivity,
            SolveSyncStage::Announcing => SolveSyncActionView::Announce(
                event_notification(self.pending[self.next], labels),
            ),
            SolveSyncStage::Finished => SolveSyncActionView::Finish(self.announced as usize),
            SolveSyncStage::Failed(why) => SolveSyncActionView::Abort(why),
        }
    }
}

/// One cycle of the solve synchronisation.
#[derive(Debug)]
pub struct SolveSync {
    stage: SolveSyncStage,
    pending: Vec<ActivityEvent>,
    next: usize,
    announced: usize,
}

impl View for SolveSync {
    type V = SolveSyncView;

    closed spec fn view(&self) -> SolveSyncView {
        SolveSyncView {
            stage: self.stage,
            pending: event_views(self.pending@),
            next: self.next as int,
            announced: self.announced as int,
        }
    }
}

impl SolveSync {
    #[verifier::type_invariant]
    spec fn well_formed(&self) -> bool {
        self@.wf()
    }

    /// A cycle at its start. It renews the token first if asked to, and
    /// goes straight to the feed otherwise.
    pub fn begin(renew_token: bool) -> (sync: SolveSync)
        ensures
            sync@.wf(),
            sync@ == (SolveSyncView {
                stage: if renew_token {
                    SolveSyncStage::Renewing
                } else {
                    SolveSyncStage::Fetching
                },
                pending: Seq::empty(),
                next: 0,
                announced: 0,
            }),
    {
        let stage = if renew_token {
            SolveSyncStage::Renewing
        } else {
            SolveSyncStage::Fetching
        };
        let sync = SolveSync { stage, pending: Vec::new(), next: 0, announced: 0 };
        assert(event_views(sync.pending@) =~= Seq::<ActivityEventView>::empty());
        sync
    }

    /// Where the cycle stands.
    pub fn stage(&self) -> (stage: SolveSyncStage)
        ensures
            stage == self@.stage,
    {
        self.stage
    }

    /// How many solves the cycle has announced so far.
    pub fn announced(&self) -> (count: usize)
        ensures
            count == self@.announced,
    {
        self.announced
    }

    /// Whether the cycle is over.
    pub fn is_over(&self) -> (over: bool)
        ensures
            over == (self@.stage == SolveSyncStage::Finished || self@.stage is Failed),
    {
        match self.stage {
            SolveSyncStage::Finished => true,
            SolveSyncStage::Failed(_) => true,
            _ => false,
        }
    }

    /// What the caller is to do now. While solves are pending it is the
    /// delivery of the next one's notification, rendered under the catalog.
    pub fn action(&self, catalog: &CategoryCatalog) -> (action: SolveSyncAction)
        ensures
            self@.wf(),
            action@ == self@.action(catalog.labels()),
    {
        proof {
            use_type_invariant(self);
        }
        match self.stage {
            SolveSyncStage::Renewing => SolveSyncAction::RenewToken,
            SolveSyncStage::Fetching => SolveSyncAction::FetchActivity,
            SolveSyncStage::Announcing => {
                let solve = SolveToAnnounce::from_event(&self.pending[self.next]);
                SolveSyncAction::Announce(solve_notification(&solve, catalog))
            },
            SolveSyncStage::Finished => SolveSyncAction::Finish(self.announced),
            SolveSyncStage::Failed(why) => SolveSyncAction::Abort(why),
        }
    }

    /// Takes the caller's report and moves the cycle on.
    ///
    /// A fetched feed is diffed against the record. A delivery that
    /// succeeded records its solve; one that failed records nothing, and
    /// the cycle goes on to the next solve either way. A failed renewal or
    /// fetch gives the cycle up, as does a report that was not awaited. A
    /// cycle that is over stays as it is.
    pub fn on_event<K: KnownSolves>(self, event: SolveSyncEvent, known: &mut K) -> (next: SolveSync)
        ensures
            next@.wf(),
            next@ == self@.after(event@, old(known).known()),
            final(known).known() == self@.known_after(event@, old(known).known()),
    {
        proof {
            use_type_invariant(&self);
            assert(self.stage == SolveSyncStage::Announcing ==> self.next < self.pending.len());
        }
        let SolveSync { stage, pending, next, announced } = self;
        match stage {
            SolveSyncStage::Finished => SolveSync { stage, pending, next, announced },
            SolveSyncStage::Failed(_) => SolveSync { stage, pending, next, announced },
            SolveSyncStage::Renewing => {
                let stage = match event {
                    SolveSyncEvent::TokenRenewed => SolveSyncStage::Fetching,
                    SolveSyncEvent::RenewalFailed => SolveSyncStage::Failed(SyncError::Renewal),
                    _ => SolveSyncStage::Failed(SyncError::OutOfTurn),
                };
                SolveSync { stage, pending, next, announced }
            },
            SolveSyncStage::Fetching => match event {
                SolveSyncEvent::ActivityFetched(snapshot) => {
                    let fresh = reconcile(&snapshot, &*known);
                    let stage = if fresh.len() > 0 {
                        SolveSyncStage::Announcing
                    } else {
                        SolveSyncStage::Finished
                    };
                    SolveSync { stage, pending: fresh, next: 0, announced: 0 }
                },
                SolveSyncEvent::FetchFailed => SolveSync {
                    stage: SolveSyncStage::Failed(SyncError::Transport),
                    pending,
                    next,
                    announced,
                },
                _ => SolveSync {
                    stage: SolveSyncStage::Failed(SyncError::OutOfTurn),
                    pending,
                    next,
                    announced,
                },
            },
            SolveSyncStage::Announcing => {
                let tried = next + 1;
                let stage = if tried < pending.len() {
                    SolveSyncStage::Announcing
                } else {
                    SolveSyncStage::Finished
                };
                match event {
                    SolveSyncEvent::Delivered => {
                        let solve = &pending[next];
                        known.record(solve.actor.id, solve.event_id, solve.kind.as_str());
                        SolveSync { stage, pending, next: tried, announced: announced + 1 }
                    },
                    SolveSyncEvent::DeliveryFailed => SolveSync {
                        stage,
                        pending,
                        next: tried,
                        announced,
                    },
                    _ => SolveSync {
                        stage: SolveSyncStage::Failed(SyncError::OutOfTurn),
                        pending,
                        next,
                        announced,
                    },
                }
            },
        }
    }
}

/// The record only grows: whatever the caller reports, every solve that was
/// known stays known.
pub proof fn lemma_record_only_grows(
    cycle: SolveSyncView,
    event: SolveSyncEventView,
    known: Set<SolveKey>,
)
    ensures
        known.subset_of(cycle.known_after(event, known)),
{
}

/// Delivery is at least once. While a notification is out for a solve:
/// if its delivery fails, the record stays as it was, so the solve, if it
/// was unknown and the feed still lists it, is new again in the next cycle;
/// if its delivery succeeds, the solve is recorded, and it is never new
/// again, whatever the feed lists later and whatever else the record has
/// taken up by then.
pub proof fn lemma_at_least_once(
    cycle: SolveSyncView,
    known: Set<SolveKey>,
    later_snapshot: Seq<ActivityEventView>,
    later_known: Set<SolveKey>,
)
    requires
        cycle.wf(),
        cycle.stage == SolveSyncStage::Announcing,
    ensures
        cycle.known_after(SolveSyncEventView::DeliveryFailed, known) == known,
        !known.contains(cycle.pending[cycle.next].key()) && keys_of(later_snapshot).contains(
            cycle.pending[cycle.next].key(),
        ) ==> keys_of(
            new_events(
                later_snapshot,
                cycle.known_after(SolveSyncEventView::DeliveryFailed, known),
            ),
        ).contains(cycle.pending[cycle.next].key()),
        cycle.known_after(SolveSyncEventView::Delivered, known).contains(
            cycle.pending[cycle.next].key(),
        ),
        cycle.known_after(SolveSyncEventView::Delivered, known).subset_of(later_known) ==> !keys_of(
            new_events(later_snapshot, later_known),
        ).contains(cycle.pending[cycle.next].key()),
{
    lemma_new_events_keys(later_snapshot, known);
    lemma_new_events_keys(later_snapshot, later_known);
}

/// Every solve that a cycle has pending after the fetch was unknown to the
/// record then, and is listed by the snapshot.
pub proof fn lemma_pending_were_unknown(
    cycle: SolveSyncView,
    snapshot: Seq<ActivityEventView>,
    known: Set<SolveKey>,
    i: int,
)
    requires
        cycle.stage == SolveSyncStage::Fetching,
        0 <= i < cycle.after(SolveSyncEventView::ActivityFetched(snapshot), known).pending.len(),
    ensures
        !known.contains(
            cycle.after(SolveSyncEventView::ActivityFetched(snapshot), known).pending[i].key(),
        ),
        keys_of(snapshot).contains(
            cycle.after(SolveSyncEventView::ActivityFetched(snapshot), known).pending[i].key(),
        ),
{
    lemma_new_events_keys(snapshot, known);
    let pending = new_events(snapshot, known);
    assert(keys_of(pending).contains(pending[i].key()));
}

/// The cycle and the record after the caller has reported on a run of
/// deliveries, one after the other: `true` for a delivery that succeeded.
pub open spec fn after_deliveries(
    cycle: SolveSyncView,
    known: Set<SolveKey>,
    outcomes: Seq<bool>,
) -> (SolveSyncView, Set<SolveKey>)
    decreases outcomes.len(),
{
    if outcomes.len() == 0 {
        (cycle, known)
    } else {
        let (before, held) = after_deliveries(cycle, known, outcomes.drop_last());
        let event = if outcomes.last() {
            SolveSyncEventView::Delivered
        } else {
            SolveSyncEventView::DeliveryFailed
        };
        (before.after(event, held), before.known_after(event, held))
    }
}

/// The keys of the solves, counted from `from` in `pending`, whose delivery
/// succeeded.
pub open spec fn delivered_keys(
    pending: Seq<ActivityEventView>,
    from: int,
    outcomes: Seq<bool>,
) -> Set<SolveKey> {
    Set::new(
        |k: SolveKey|
            exists|i: int|
                0 <= i < outcomes.len() && outcomes[i] && #[trigger] pending[from + i].key() == k,
    )
}

/// How many deliveries of a run succeeded.
pub open spec fn delivered_count(outcomes: Seq<bool>) -> int
    decreases outcomes.len(),
{
    if outcomes.len() == 0 {
        0
    } else {
        delivered_count(outcomes.drop_last()) + if outcomes.last() {
            1int
        } else {
            0int
        }
    }
}

/// A failed delivery touches nothing but its own solve. Whatever the
/// outcomes of a run of deliveries, the cycle tries every solve of the run
/// in turn; in the end the record holds, besides what it held, exactly the
/// solves whose delivery succeeded, and the cycle has counted them.
pub proof fn lemma_failures_are_isolated(
    cycle: SolveSyncView,
    known: Set<SolveKey>,
    outcomes: Seq<bool>,
)
    requires
        cycle.wf(),
        cycle.stage == SolveSyncStage::Announcing,
        outcomes.len() <= cycle.pending.len() - cycle.next,
    ensures
        after_deliveries(cycle, known, outcomes).0.wf(),
        after_deliveries(cycle, known, outcomes).0.pending == cycle.pending,
        after_deliveries(cycle, known, outcomes).0.next == cycle.next + outcomes.len(),
        after_deliveries(cycle, known, outcomes).0.stage == cycle.stage_at(
            cycle.next + outcomes.len(),
        ),
        after_deliveries(cycle, known, outcomes).0.announced == cycle.announced + delivered_count(
            outcomes,
        ),
        after_deliveries(cycle, known, outcomes).1 == known.union(
            delivered_keys(cycle.pending, cycle.next, outcomes),
        ),
    decreases outcomes.len(),
{
    if outcomes.len() == 0 {
        assert(delivered_keys(cycle.pending, cycle.next, outcomes) =~= Set::<SolveKey>::empty());
        assert(known.union(Set::<SolveKey>::empty()) =~= known);
    } else {
        let earlier = outcomes.drop_last();
        lemma_failures_are_isolated(cycle, known, earlier);
        let (before, held) = after_deliveries(cycle, known, earlier);
        let at = outcomes.len() - 1;
        let key = cycle.pending[cycle.next + at].key();
        let before_keys = delivered_keys(cycle.pending, cycle.next, earlier);
        let all_keys = delivered_keys(cycle.pending, cycle.next, outcomes);
        assert(before.stage == SolveSyncStage::Announcing);
        assert(before.pending[before.next] == cycle.pending[cycle.next + at]);
        assert forall|k: SolveKey| all_keys.contains(k) == (before_keys.contains(k) || (
            outcomes.last() && k == key)) by {
            if all_keys.contains(k) {
                let i = choose|i: int|
                    0 <= i < outcomes.len() && outcomes[i] && #[trigger] cycle.pending[cycle.next
                        + i].key() == k;
                if i < at {
                    assert(earlier[i] && cycle.pending[cycle.next + i].key() == k);
                }
            }
            if before_keys.contains(k) {
                let i = choose|i: int|
                    0 <= i < earlier.len() && earlier[i] && #[trigger] cycle.pending[cycle.next
                        + i].key() == k;
                assert(outcomes[i] && cycle.pending[cycle.next + i].key() == k);
            }
            if outcomes.last() && k == key {
                assert(outcomes[at] && cycle.pending[cycle.next + at].key() == k);
            }
        }
        if outcomes.last() {
            assert(known.union(before_keys).insert(key) =~= known.union(all_keys));
        } else {
            assert(before_keys =~= all_keys);
        }
    }
}

/// Where a cycle of the rank status stands.
#[derive(Debug)]
pub enum RankSync {
    /// The token is being renewed.
    Renewing,
    /// The team's standing is being fetched.
    Fetching,
    /// The channel's topic is being set to this text.
    Updating(String),
    /// The cycle is over; the flag tells whether the topic was set.
    Finished(bool),
    /// The cycle was given up.
    Failed(SyncError),
}

/// The mathematical content of a [`RankSync`].
pub enum RankSyncView {
    Renewing,
    Fetching,
    Updating(Seq<char>),
    Finished(bool),
    Failed(SyncError),
}

impl View for RankSync {
    type V = RankSyncView;

    open spec fn view(&self) -> RankSyncView {
        match self {
            RankSync::Renewing => RankSyncView::Renewing,
            RankSync::Fetching => RankSyncView::Fetching,
            RankSync::Updating(topic) => RankSyncView::Updating(topic@),
            RankSync::Finished(updated) => RankSyncView::Finished(*updated),
            RankSync::Failed(why) => RankSyncView::Failed(*why),
        }
    }
}

/// What the caller reports to a cycle of the rank status.
#[derive(Debug)]
pub enum RankSyncEvent {
    TokenRenewed,
    RenewalFailed,
    RankFetched(RankStatsData),
    FetchFailed,
    TopicUpdated,
    TopicUpdateFailed,
}

/// What a cycle of the rank status asks of the caller.
#[derive(Debug)]
pub enum RankSyncAction {
    RenewToken,
    FetchRank,
    /// Set the channel's topic to this text, then report how it went.
    UpdateTopic(String),
    /// The cycle is over. Where the topic could not be set, that is for
    /// the log: the cycle has not failed.
    Finish { topic_updated: bool },
    /// The cycle is over; it was given up.
    Abort(SyncError),
}

/// The mathematical content of a [`RankSyncAction`].
pub enum RankSyncActionView {
    RenewToken,
    FetchRank,
    UpdateTopic(Seq<char>),
    Finish { topic_updated: bool },
    Abort(SyncError),
}

impl View for RankSyncAction {
    type V = RankSyncActionView;

    open spec fn view(&self) -> RankSyncActionView {
        match self {
            RankSyncAction::RenewToken => RankSyncActionView::RenewToken,
            RankSyncAction::FetchRank => RankSyncActionView::FetchRank,
            RankSyncAction::UpdateTopic(topic) => RankSyncActionView::UpdateTopic(topic@),
            RankSyncAction::Finish { topic_updated } => RankSyncActionView::Finish {
                topic_updated: *topic_updated,
            },
            RankSyncAction::Abort(why) => RankSyncActionView::Abort(*why),
        }
    }
}

impl RankSyncView {
    /// The cycle after the caller's report, where a standing that was
    /// fetched is stamped with `stamp`.
    pub open spec fn after(self, event: RankSyncEvent, stamp: Seq<char>) -> RankSyncView {
        match (self, event) {
            (RankSyncView::Finished(_), _) => self,
            (RankSyncView::Failed(_), _) => self,
            (RankSyncView::Renewing, RankSyncEvent::TokenRenewed) => RankSyncView::Fetching,
            (RankSyncView::Renewing, RankSyncEvent::RenewalFailed) => RankSyncView::Failed(
                SyncError::Renewal,
            ),
            (RankSyncView::Fetching, RankSyncEvent::RankFetched(stats)) => RankSyncView::Updating(
                topic_text(stats.rank, stats.points, stamp),
            ),
            (RankSyncView::Fetching, RankSyncEvent::FetchFailed) => RankSyncView::Failed(
                SyncError::Transport,
            ),
            (RankSyncView::Updating(_), RankSyncEvent::TopicUpdated) => RankSyncView::Finished(
                true,
            ),
            (RankSyncView::Updating(_), RankSyncEvent::TopicUpdateFailed) => RankSyncView::Finished(
                false,
            ),
            _ => RankSyncView::Failed(SyncError::OutOfTurn),
        }
    }

    /// What the cycle asks of the caller now.
    pub open spec fn action(self) -> RankSyncActionView {
        match self {
            RankSyncView::Renewing => RankSyncActionView::RenewToken,
            RankSyncView::Fetching => RankSyncActionView::FetchRank,
            RankSyncView::Updating(topic) => RankSyncActionView::UpdateTopic(topic),
            RankSyncView::Finished(updated) => RankSyncActionView::Finish {
                topic_updated: updated,
            },
            RankSyncView::Failed(why) => RankSyncActionView::Abort(why),
        }
    }
}

impl RankSync {
    /// A cycle at its start. It renews the token first if asked to, and
    /// goes straight to the standing otherwise.
    pub fn begin(renew_token: bool) -> (sync: RankSync)
        ensures
            sync@ == (if renew_token {
                RankSyncView::Renewing
            } else {
                RankSyncView::Fetching
            }),
    {
        if renew_token {
            RankSync::Renewing
        } else {
            RankSync::Fetching
        }
    }

    /// What the caller is to do now.
    pub fn action(&self) -> (action: RankSyncAction)
        ensures
            action@ == self@.action(),
    {
        match self {
            RankSync::Renewing => RankSyncAction::RenewToken,
            RankSync::Fetching => RankSyncAction::FetchRank,
            RankSync::Updating(topic) => RankSyncAction::UpdateTopic(topic.clone()),
            RankSync::Finished(updated) => RankSyncAction::Finish { topic_updated: *updated },
            RankSync::Failed(why) => RankSyncAction::Abort(*why),
        }
    }

    /// Takes the caller's report and moves the cycle on, stamping a
    /// standing that was fetched with `stamp`.
    ///
    /// A failed renewal or fetch gives the cycle up, as does a report that
    /// was not awaited. A topic that could not be set ends the cycle
    /// without failing it. A cycle that is over stays as it is.
    pub fn on_event_at(self, event: RankSyncEvent, stamp: &str) -> (next: RankSync)
        ensures
            next@ == self@.after(event, stamp@),
    {
        match self {
            RankSync::Finished(updated) => RankSync::Finished(updated),
            RankSync::Failed(why) => RankSync::Failed(why),
            RankSync::Renewing => match event {
                RankSyncEvent::TokenRenewed => RankSync::Fetching,
                RankSyncEvent::RenewalFailed => RankSync::Failed(SyncError::Renewal),
                _ => RankSync::Failed(SyncError::OutOfTurn),
            },
            RankSync::Fetching => match event {
                RankSyncEvent::RankFetched(stats) => RankSync::Updating(
                    htb_channel_topic(&stats, stamp),
                ),
                RankSyncEvent::FetchFailed => RankSync::Failed(SyncError::Transport),
                _ => RankSync::Failed(SyncError::OutOfTurn),
            },
            RankSync::Updating(_) => match event {
                RankSyncEvent::TopicUpdated => RankSync::Finished(true),
                RankSyncEvent::TopicUpdateFailed => RankSync::Finished(false),
                _ => RankSync::Failed(SyncError::OutOfTurn),
            },
        }
    }

    /// Takes the caller's report and moves the cycle on, stamping a
    /// standing that was fetched with the local clock's time.
    pub fn on_event(self, event: RankSyncEvent) -> (next: RankSync)
        ensures
            exists|stamp: Seq<char>| next@ == #[trigger] self@.after(event, stamp),
    {
        match (self, event) {
            (RankSync::Fetching, RankSyncEvent::RankFetched(stats)) => {
                let topic = update_htb_channel_topic_with_stats(&stats);
                let ghost stamp = choose|stamp: Seq<char>|
                    topic@ == #[trigger] topic_text(stats.rank, stats.points, stamp);
                let next = RankSync::Updating(topic);
                assert(next@ == RankSyncView::Fetching.after(
                    RankSyncEvent::RankFetched(stats),
                    stamp,
                ));
                next
            },
            (cycle, event) => {
                let ghost before = cycle@;
                let next = cycle.on_event_at(event, "");
                assert(next@ == before.after(event, ""@));
                next
            },
        }
    }
}

} // verus!
