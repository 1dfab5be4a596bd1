//! The records of the platform's API that the synchronisation works on.

use vstd::prelude::*;

verus! {

/// The identity under which a solve is remembered: the actor's id, the id of
/// the challenge or machine, and the kind of the solve.
pub type SolveKey = (i64, i64, Seq<char>);

/// The member of the team who acted.
#[derive(Debug)]
pub struct Actor {
    pub id: i64,
    pub name: String,
}

/// One solve or ownership taken from the team's activity feed.
#[derive(Debug)]
pub struct ActivityEvent {
    /// The challenge or machine acted upon; shared by all who solve it.
    pub event_id: i64,
    pub actor: Actor,
    /// The kind of the solve, as the feed spells it.
    pub kind: String,
    pub subject_name: String,
    pub subject_category_id: i64,
    pub subject_points: i64,
    pub subject_image_ref: Option<String>,
    pub occurred_at: String,
}

/// The mathematical content of an [`ActivityEvent`].
pub struct ActivityEventView {
    pub event_id: i64,
    pub actor_id: i64,
    pub actor_name: Seq<char>,
    pub kind: Seq<char>,
    pub subject_name: Seq<char>,
    pub subject_category_id: i64,
    pub subject_points: i64,
    pub subject_image_ref: Option<Seq<char>>,
    pub occurred_at: Seq<char>,
}

impl ActivityEventView {
    /// Two events are the same solve exactly when their keys are equal.
    pub open spec fn key(self) -> SolveKey {
        (self.actor_id, self.event_id, self.kind)
    }
}

/// The text held by an optional string.
pub open spec fn opt_text(s: Option<String>) -> Option<Seq<char>> {
    match s {
        Some(t) => Some(t@),
        None => None,
    }
}

impl View for ActivityEvent {
    type V = ActivityEventView;

    open spec fn view(&self) -> ActivityEventView {
        ActivityEventView {
            event_id: self.event_id,
            actor_id: self.actor.id,
            actor_name: self.actor.name@,
            kind: self.kind@,
            subject_name: self.subject_name@,
            subject_category_id: self.subject_category_id,
            subject_points: self.subject_points,
            subject_image_ref: opt_text(self.subject_image_ref),
            occurred_at: self.occurred_at@,
        }
    }
}

/// A copy of an optional string.
pub fn clone_opt_text(s: &Option<String>) -> (r: Option<String>)
    ensures
        opt_text(r) == opt_text(*s),
{
    match s {
        Some(t) => Some(t.clone()),
        None => None,
    }
}

impl Clone for ActivityEvent {
    fn clone(&self) -> (r: Self)
        ensures
            r@ == self@,
    {
        ActivityEvent {
            event_id: self.event_id,
            actor: Actor { id: self.actor.id, name: self.actor.name.clone() },
            kind: self.kind.clone(),
            subject_name: self.subject_name.clone(),
            subject_category_id: self.subject_category_id,
            subject_points: self.subject_points,
            subject_image_ref: clone_opt_text(&self.subject_image_ref),
            occurred_at: self.occurred_at.clone(),
        }
    }
}

/// The team's standing, as the ranking endpoint reports it.
#[derive(Debug)]
pub struct RankStatsData {
    pub rank: i64,
    pub points: i64,
}

/// The claims of a session token that the synchronisation reads.
#[derive(Debug)]
pub struct JWTClaims {
    /// Expiry, in whole seconds since the Unix epoch.
    pub exp: i64,
}

} // verus!
