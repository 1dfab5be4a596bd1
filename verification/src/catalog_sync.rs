//! One cycle of the catalog synchronisation, as a state machine.
//!
//! The cycle lists the challenges and machines that the platform has, asks
//! the store for each by its id on the platform, and adds to the store what
//! the store does not know. The caller does the outside work and reports on
//! it; the cycle says what comes next. The first failure ends the cycle.

use crate::graphql::graphql_provider::ProviderError;
use crate::graphql::graphql_types::{
    challenge_views, insert_query, Challenge, ChallengeView, GetChallengeById, InsertChallenge,
    InsertChallengeView,
};
use crate::tasks::SyncError;
use vstd::prelude::*;

verus! {

/// Why a cycle of the catalog synchronisation was given up.
#[derive(Debug)]
pub enum CatalogFailure {
    /// The cycle itself failed: the token, the platform, or the caller.
    Cycle(SyncError),
    /// The store failed, and said this.
    Store(ProviderError),
}

/// The mathematical content of a [`CatalogFailure`].
pub enum CatalogFailureView {
    Cycle(SyncError),
    Store(Seq<char>),
}

impl View for CatalogFailure {
    type V = CatalogFailureView;

    open spec fn view(&self) -> CatalogFailureView {
        match self {
            CatalogFailure::Cycle(why) => CatalogFailureView::Cycle(*why),
            CatalogFailure::Store(why) => CatalogFailureView::Store(why@),
        }
    }
}

impl Clone for CatalogFailure {
    fn clone(&self) -> (copy: Self)
        ensures
            copy@ == self@,
    {
        match self {
            CatalogFailure::Cycle(why) => CatalogFailure::Cycle(*why),
            CatalogFailure::Store(why) => CatalogFailure::Store(why.clone()),
        }
    }
}

/// Where a cycle of the catalog synchronisation stands.
#[derive(Debug)]
pub enum CatalogSyncStage {
    /// The token is being renewed.
    Renewing,
    /// The platform's challenges are being listed.
    ListingChallenges,
    /// The platform's machines are being listed.
    ListingMachines,
    /// The store is being asked for the entry at hand.
    Looking,
    /// The entry at hand is being added to the store.
    Inserting,
    /// Every entry has been seen to.
    Finished,
    /// The cycle was given up.
    Failed(CatalogFailure),
}

/// The mathematical content of a [`CatalogSyncStage`].
pub enum CatalogSyncStageView {
    Renewing,
    ListingChallenges,
    ListingMachines,
    Looking,
    Inserting,
    Finished,
    Failed(CatalogFailureView),
}

impl View for CatalogSyncStage {
    type V = CatalogSyncStageView;

    open spec fn view(&self) -> CatalogSyncStageView {
        match self {
            CatalogSyncStage::Renewing => CatalogSyncStageView::Renewing,
            CatalogSyncStage::ListingChallenges => CatalogSyncStageView::ListingChallenges,
            CatalogSyncStage::ListingMachines => CatalogSyncStageView::ListingMachines,
            CatalogSyncStage::Looking => CatalogSyncStageView::Looking,
            CatalogSyncStage::Inserting => CatalogSyncStageView::Inserting,
            CatalogSyncStage::Finished => CatalogSyncStageView::Finished,
            CatalogSyncStage::Failed(why) => CatalogSyncStageView::Failed(why@),
        }
    }
}

/// What the caller reports to a cycle of the catalog synchronisation.
#[derive(Debug)]
pub enum CatalogSyncEvent {
    TokenRenewed,
    RenewalFailed,
    ChallengesListed(Vec<Challenge>),
    MachinesListed(Vec<Challenge>),
    ListFailed,
    /// The store's answer to a lookup: the rows it has under the id.
    Found(Vec<Challenge>),
    LookupFailed(ProviderError),
    Inserted,
    InsertFailed(ProviderError),
}

/// The mathematical content of a [`CatalogSyncEvent`].
pub enum CatalogSyncEventView {
    TokenRenewed,
    RenewalFailed,
    ChallengesListed(Seq<ChallengeView>),
    MachinesListed(Seq<ChallengeView>),
    ListFailed,
    Found(Seq<ChallengeView>),
    LookupFailed(Seq<char>),
    Inserted,
    InsertFailed(Seq<char>),
}

impl View for CatalogSyncEvent {
    type V = CatalogSyncEventView;

    open spec fn view(&self) -> CatalogSyncEventView {
        match self {
            CatalogSyncEvent::TokenRenewed => CatalogSyncEventView::TokenRenewed,
            CatalogSyncEvent::RenewalFailed => CatalogSyncEventView::RenewalFailed,
            CatalogSyncEvent::ChallengesListed(listed) => CatalogSyncEventView::ChallengesListed(
                challenge_views(listed@),
            ),
            CatalogSyncEvent::MachinesListed(listed) => CatalogSyncEventView::MachinesListed(
                challenge_views(listed@),
            ),
            CatalogSyncEvent::ListFailed => CatalogSyncEventView::ListFailed,
            CatalogSyncEvent::Found(rows) => CatalogSyncEventView::Found(challenge_views(rows@)),
            CatalogSyncEvent::LookupFailed(why) => CatalogSyncEventView::LookupFailed(why@),
            CatalogSyncEvent::Inserted => CatalogSyncEventView::Inserted,
            CatalogSyncEvent::InsertFailed(why) => CatalogSyncEventView::InsertFailed(why@),
        }
    }
}

/// What a cycle of the catalog synchronisation asks of the caller.
#[derive(Debug)]
pub enum CatalogSyncAction {
    RenewToken,
    ListChallenges,
    ListMachines,
    /// Ask the store for the challenge with this id on the platform.
    Lookup(GetChallengeById),
    /// Add this challenge to the store.
    Insert(InsertChallenge),
    /// The cycle is over; so many entries were added.
    Finish(usize),
    /// The cycle is over; it was given up.
    Abort(CatalogFailure),
}

/// The mathematical content of a [`CatalogSyncAction`].
pub enum CatalogSyncActionView {
    RenewToken,
    ListChallenges,
    ListMachines,
    Lookup { htb_id: i64 },
    Insert(InsertChallengeView),
    Finish(usize),
    Abort(CatalogFailureView),
}

impl View for CatalogSyncAction {
    type V = CatalogSyncActionView;

    open spec fn view(&self) -> CatalogSyncActionView {
        match self {
            CatalogSyncAction::RenewToken => CatalogSyncActionView::RenewToken,
            CatalogSyncAction::ListChallenges => CatalogSyncActionView::ListChallenges,
            CatalogSyncAction::ListMachines => CatalogSyncActionView::ListMachines,
            CatalogSyncAction::Lookup(query) => CatalogSyncActionView::Lookup {
                htb_id: query.htb_id,
            },
            CatalogSyncAction::Insert(query) => CatalogSyncActionView::Insert(query@),
            CatalogSyncAction::Finish(added) => CatalogSyncActionView::Finish(*added),
            CatalogSyncAction::Abort(why) => CatalogSyncActionView::Abort(why@),
        }
    }
}

/// The mathematical content of a [`CatalogSync`].
pub struct CatalogSyncView {
    pub stage: CatalogSyncStageView,
    /// What the platform lists: its challenges, then its machines.
    pub listed: Seq<ChallengeView>,
    /// How many entries have been seen to.
    pub at: int,
    /// How many entries have been added to the store.
    pub added: int,
}

impl CatalogSyncView {
    /// What holds of every cycle: the entries added are among those seen to,
    /// and while the store is asked or added to there is an entry at hand.
    pub open spec fn wf(self) -> bool {
        &&& 0 <= self.added <= self.at <= self.listed.len()
        &&& (self.stage is Looking || self.stage is Inserting) ==> self.at < self.listed.len()
    }

    /// A cycle at its start.
    pub open spec fn start(renew_token: bool) -> CatalogSyncView {
        CatalogSyncView {
            stage: if renew_token {
                CatalogSyncStageView::Renewing
            } else {
                CatalogSyncStageView::ListingChallenges
            },
            listed: Seq::empty(),
            at: 0,
            added: 0,
        }
    }

    /// The stage once `at` entries have been seen to.
    pub open spec fn stage_at(self, at: int) -> CatalogSyncStageView {
        if at < self.listed.len() {
            CatalogSyncStageView::Looking
        } else {
            CatalogSyncStageView::Finished
        }
    }

    /// The cycle, given up for this reason.
    pub open spec fn failed(self, why: CatalogFailureView) -> CatalogSyncView {
        CatalogSyncView { stage: CatalogSyncStageView::Failed(why), ..self }
    }

    /// The cycle with the entry at hand seen to, and counted if it was added.
    pub open spec fn moved_on(self, added: bool) -> CatalogSyncView {
        CatalogSyncView {
            stage: self.stage_at(self.at + 1),
            at: self.at + 1,
            added: if added {
                self.added + 1
            } else {
                self.added
            },
            ..self
        }
    }

    /// The cycle after the caller's report.
    ///
    /// An entry that the store has a row for is passed over; one that it has
    /// no row for is added, and counted once the store has taken it. A
    /// failure of the store is kept as the store gave it.
    pub open spec fn after(self, event: CatalogSyncEventView) -> CatalogSyncView {
        match (self.stage, event) {
            (CatalogSyncStageView::Finished, _) => self,
            (CatalogSyncStageView::Failed(_), _) => self,
            (CatalogSyncStageView::Renewing, CatalogSyncEventView::TokenRenewed) => CatalogSyncView {
                stage: CatalogSyncStageView::ListingChallenges,
                ..self
            },
            (CatalogSyncStageView::Renewing, CatalogSyncEventView::RenewalFailed) => self.failed(
                CatalogFailureView::Cycle(SyncError::Renewal),
            ),
            (
                CatalogSyncStageView::ListingChallenges,
                CatalogSyncEventView::ChallengesListed(challenges),
            ) => CatalogSyncView {
                stage: CatalogSyncStageView::ListingMachines,
                listed: challenges,
                at: 0,
                added: 0,
            },
            (CatalogSyncStageView::ListingChallenges, CatalogSyncEventView::ListFailed) => self.failed(
                CatalogFailureView::Cycle(SyncError::Transport),
            ),
            (
                CatalogSyncStageView::ListingMachines,
                CatalogSyncEventView::MachinesListed(machines),
            ) => {
                let all = CatalogSyncView { listed: self.listed + machines, at: 0, added: 0, ..self };
                CatalogSyncView { stage: all.stage_at(0), ..all }
            },
            (CatalogSyncStageView::ListingMachines, CatalogSyncEventView::ListFailed) => self.failed(
                CatalogFailureView::Cycle(SyncError::Transport),
            ),
            (CatalogSyncStageView::Looking, CatalogSyncEventView::Found(rows)) => {
                if rows.len() == 0 {
                    CatalogSyncView { stage: CatalogSyncStageView::Inserting, ..self }
                } else {
                    self.moved_on(false)
                }
            },
            (CatalogSyncStageView::Looking, CatalogSyncEventView::LookupFailed(why)) => self.failed(
                CatalogFailureView::Store(why),
            ),
            (CatalogSyncStageView::Inserting, CatalogSyncEventView::Inserted) => self.moved_on(true),
            (CatalogSyncStageView::Inserting, CatalogSyncEventView::InsertFailed(why)) => self.failed(
                CatalogFailureView::Store(why),
            ),
            _ => self.failed(CatalogFailureView::Cycle(SyncError::OutOfTurn)),
        }
    }

    /// What the cycle asks of the caller now. The store is asked by the
    /// entry's id on the platform, and is handed the entry as the platform
    /// lists it.
    pub open spec fn action(self) -> CatalogSyncActionView {
        match self.stage {
            CatalogSyncStageView::Renewing => CatalogSyncActionView::RenewToken,
            CatalogSyncStageView::ListingChallenges => CatalogSyncActionView::ListChallenges,
            CatalogSyncStageView::ListingMachines => CatalogSyncActionView::ListMachines,
            CatalogSyncStageView::Looking => CatalogSyncActionView::Lookup {
                htb_id: self.listed[self.at].htb_id,
            },
            CatalogSyncStageView::Inserting => CatalogSyncActionView::Insert(
                insert_query(self.listed[self.at]),
            ),
            CatalogSyncStageView::Finished => CatalogSyncActionView::Finish(self.added as usize),
            CatalogSyncStageView::Failed(why) => CatalogSyncActionView::Abort(why),
        }
    }
}

/// Whether the store's answer to a lookup by id says that it does not know
/// the challenge: it does not when the answer holds no row.
pub fn store_lacks(stored: &Vec<Challenge>) -> (lacking: bool)
    ensures
        lacking == (stored@.len() == 0),
{
    stored.len() == 0
}

/// One cycle of the catalog synchronisation.
#[derive(Debug)]
pub struct CatalogSync {
    stage: CatalogSyncStage,
    listed: Vec<Challenge>,
    at: usize,
    added: usize,
}

impl View for CatalogSync {
    type V = CatalogSyncView;

    closed spec fn view(&self) -> CatalogSyncView {
        CatalogSyncView {
            stage: self.stage@,
            listed: challenge_views(self.listed@),
            at: self.at as int,
            added: self.added as int,
        }
    }
}

impl CatalogSync {
    #[verifier::type_invariant]
    spec fn well_formed(&self) -> bool {
        self@.wf()
    }

    /// A cycle at its start. It renews the token first if asked to, and
    /// goes straight to the platform's lists otherwise.
    pub fn begin(renew_token: bool) -> (sync: CatalogSync)
        ensures
            sync@.wf(),
            sync@ == CatalogSyncView::start(renew_token),
    {
        let stage = if renew_token {
            CatalogSyncStage::Renewing
        } else {
            CatalogSyncStage::ListingChallenges
        };
        let sync = CatalogSync { stage, listed: Vec::new(), at: 0, added: 0 };
        assert(challenge_views(sync.listed@) =~= Seq::<ChallengeView>::empty());
        sync
    }

    /// Whether the cycle is over.
    pub fn is_over(&self) -> (over: bool)
        ensures
            over == (self@.stage is Finished || self@.stage is Failed),
    {
        match self.stage {
            CatalogSyncStage::Finished => true,
            CatalogSyncStage::Failed(_) => true,
            _ => false,
        }
    }

    /// What the caller is to do now.
    pub fn action(&self) -> (action: CatalogSyncAction)
        ensures
            self@.wf(),
            action@ == self@.action(),
    {
        proof {
            use_type_invariant(self);
        }
        match &self.stage {
            CatalogSyncStage::Renewing => CatalogSyncAction::RenewToken,
            CatalogSyncStage::ListingChallenges => CatalogSyncAction::ListChallenges,
            CatalogSyncStage::ListingMachines => CatalogSyncAction::ListMachines,
            CatalogSyncStage::Looking => CatalogSyncAction::Lookup(
                GetChallengeById::new(self.listed[self.at].htb_id),
            ),
            CatalogSyncStage::Inserting => CatalogSyncAction::Insert(
                InsertChallenge::new(&self.listed[self.at]),
            ),
            CatalogSyncStage::Finished => CatalogSyncAction::Finish(self.added),
            CatalogSyncStage::Failed(why) => CatalogSyncAction::Abort(why.clone()),
        }
    }

    /// Takes the caller's report and moves the cycle on.
    ///
    /// The lists of the platform are put together, challenges first. For
    /// each entry the store is asked; an entry without a row is added and
    /// counted. A failed renewal, list, lookup or insert gives the cycle
    /// up, as does a report that was not awaited. A cycle that is over
    /// stays as it is.
    pub fn on_event(self, event: CatalogSyncEvent) -> (next: CatalogSync)
        ensures
            next@.wf(),
            next@ == self@.after(event@),
    {
        proof {
            use_type_invariant(&self);
            assert((self.stage is Looking || self.stage is Inserting) ==> self.at
                < self.listed.len());
        }
        let CatalogSync { stage, listed, at, added } = self;
        let out_of_turn = CatalogSyncStage::Failed(CatalogFailure::Cycle(SyncError::OutOfTurn));
        match stage {
            CatalogSyncStage::Finished => CatalogSync { stage, listed, at, added },
            CatalogSyncStage::Failed(why) => CatalogSync {
                stage: CatalogSyncStage::Failed(why),
                listed,
                at,
                added,
            },
            CatalogSyncStage::Renewing => {
                let stage = match event {
                    CatalogSyncEvent::TokenRenewed => CatalogSyncStage::ListingChallenges,
                    CatalogSyncEvent::RenewalFailed => CatalogSyncStage::Failed(
                        CatalogFailure::Cycle(SyncError::Renewal),
                    ),
                    _ => out_of_turn,
                };
                CatalogSync { stage, listed, at, added }
            },
            CatalogSyncStage::ListingChallenges => match event {
                CatalogSyncEvent::ChallengesListed(challenges) => CatalogSync {
                    stage: CatalogSyncStage::ListingMachines,
                    listed: challenges,
                    at: 0,
                    added: 0,
                },
                CatalogSyncEvent::ListFailed => CatalogSync {
                    stage: CatalogSyncStage::Failed(CatalogFailure::Cycle(SyncError::Transport)),
                    listed,
                    at,
                    added,
                },
                _ => CatalogSync { stage: out_of_turn, listed, at, added },
            },
            CatalogSyncStage::ListingMachines => match event {
                CatalogSyncEvent::MachinesListed(machines) => {
                    let ghost before = challenge_views(listed@);
                    let mut listed = listed;
                    let mut machines = machines;
                    let ghost more = challenge_views(machines@);
                    listed.append(&mut machines);
                    assert(challenge_views(listed@) =~= before + more);
                    let stage = if listed.len() > 0 {
                        CatalogSyncStage::Looking
                    } else {
                        CatalogSyncStage::Finished
                    };
                    CatalogSync { stage, listed, at: 0, added: 0 }
                },
                CatalogSyncEvent::ListFailed => CatalogSync {
                    stage: CatalogSyncStage::Failed(CatalogFailure::Cycle(SyncError::Transport)),
                    listed,
                    at,
                    added,
                },
                _ => CatalogSync { stage: out_of_turn, listed, at, added },
            },
            CatalogSyncStage::Looking => match event {
                CatalogSyncEvent::Found(rows) => {
                    if store_lacks(&rows) {
                        CatalogSync { stage: CatalogSyncStage::Inserting, listed, at, added }
                    } else {
                        let seen = at + 1;
                        let stage = if seen < listed.len() {
                            CatalogSyncStage::Looking
                        } else {
                            CatalogSyncStage::Finished
                        };
                        CatalogSync { stage, listed, at: seen, added }
                    }
                },
                CatalogSyncEvent::LookupFailed(why) => CatalogSync {
                    stage: CatalogSyncStage::Failed(CatalogFailure::Store(why)),
                    listed,
                    at,
                    added,
                },
                _ => CatalogSync { stage: out_of_turn, listed, at, added },
            },
            CatalogSyncStage::Inserting => match event {
                CatalogSyncEvent::Inserted => {
                    let seen = at + 1;
                    let stage = if seen < listed.len() {
                        CatalogSyncStage::Looking
                    } else {
                        CatalogSyncStage::Finished
                    };
                    CatalogSync { stage, listed, at: seen, added: added + 1 }
                },
                CatalogSyncEvent::InsertFailed(why) => CatalogSync {
                    stage: CatalogSyncStage::Failed(CatalogFailure::Store(why)),
                    listed,
                    at,
                    added,
                },
                _ => CatalogSync { stage: out_of_turn, listed, at, added },
            },
        }
    }
}

/// The store is added to only for what it lacks: the cycle turns to
/// adding an entry exactly when the store has answered the lookup of that
/// entry with no row, and it counts an entry exactly when the store has
/// taken it.
pub proof fn lemma_adds_only_what_the_store_lacks(
    cycle: CatalogSyncView,
    event: CatalogSyncEventView,
)
    requires
        cycle.wf(),
    ensures
        cycle.after(event).wf(),
        cycle.after(event).stage is Inserting <==> cycle.stage is Looking && (
        event matches CatalogSyncEventView::Found(rows) && rows.len() == 0),
        cycle.after(event).stage is Inserting ==> cycle.after(event).at == cycle.at
            && cycle.after(event).listed == cycle.listed,
        cycle.stage is Inserting && event is Inserted ==> cycle.after(event).added == cycle.added
            + 1,
        !(cycle.stage is Inserting && event is Inserted) ==> cycle.after(event).added
            <= cycle.added,
{
}

/// The first failure ends the cycle: a failure reported while the cycle
/// runs gives it up, and a cycle that is over takes no further report.
pub proof fn lemma_first_failure_ends_the_cycle(
    cycle: CatalogSyncView,
    event: CatalogSyncEventView,
    later: CatalogSyncEventView,
)
    ensures
        cycle.stage is Looking ==> (event matches CatalogSyncEventView::LookupFailed(why)
            ==> cycle.after(event).stage == CatalogSyncStageView::Failed(
            CatalogFailureView::Store(why),
        )),
        cycle.stage is Inserting ==> (event matches CatalogSyncEventView::InsertFailed(why)
            ==> cycle.after(event).stage == CatalogSyncStageView::Failed(
            CatalogFailureView::Store(why),
        )),
        (cycle.stage is Finished || cycle.stage is Failed) ==> cycle.after(later) == cycle,
        cycle.after(event).stage is Failed ==> cycle.after(event).after(later) == cycle.after(
            event,
        ),
{
}

} // verus!
