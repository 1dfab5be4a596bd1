use hackthebot::htb::api_types::{ActivityEvent, Actor};
use hackthebot::reconcile::reconcile;
use hackthebot::solve_cache::{KnownSolves, SolveCache};

fn event(actor: i64, id: i64, kind: &str) -> ActivityEvent {
    ActivityEvent {
        event_id: id,
        actor: Actor { id: actor, name: format!("user{}", actor) },
        kind: kind.to_string(),
        subject_name: format!("subject{}", id),
        subject_category_id: 3,
        subject_points: 20,
        subject_image_ref: None,
        occurred_at: "2022-05-01T10:00:00Z".to_string(),
    }
}

fn keys(events: &[ActivityEvent]) -> Vec<(i64, i64, String)> {
    events.iter().map(|e| (e.actor.id, e.event_id, e.kind.clone())).collect()
}

#[test]
fn empty_snapshot_gives_nothing() {
    let known = SolveCache::new();
    let fresh = reconcile(&Vec::new(), &known);
    assert!(fresh.is_empty());
}

#[test]
fn duplicate_in_snapshot_is_returned_once() {
    let known = SolveCache::new();
    let snapshot = vec![event(1, 42, "user-flag"), event(1, 42, "user-flag")];
    let fresh = reconcile(&snapshot, &known);
    assert_eq!(keys(&fresh), vec![(1, 42, "user-flag".to_string())]);
}

#[test]
fn known_solve_is_dropped() {
    let mut known = SolveCache::new();
    known.record(1, 42, "user-flag");
    let snapshot = vec![event(1, 42, "user-flag"), event(1, 7, "challenge-solve")];
    let fresh = reconcile(&snapshot, &known);
    assert_eq!(keys(&fresh), vec![(1, 7, "challenge-solve".to_string())]);
    assert_eq!(fresh[0].subject_name, "subject7");
}

#[test]
fn reconcile_keeps_feed_order() {
    let mut known = SolveCache::new();
    known.record(2, 5, "root-flag");
    let snapshot = vec![
        event(3, 9, "user-flag"),
        event(2, 5, "root-flag"),
        event(1, 9, "user-flag"),
        event(3, 9, "user-flag"),
        event(3, 9, "root-flag"),
    ];
    let fresh = reconcile(&snapshot, &known);
    assert_eq!(
        keys(&fresh),
        vec![
            (3, 9, "user-flag".to_string()),
            (1, 9, "user-flag".to_string()),
            (3, 9, "root-flag".to_string()),
        ]
    );
}

#[test]
fn reconcile_is_idempotent_once_recorded() {
    let mut known = SolveCache::new();
    let snapshot = vec![event(1, 42, "user-flag"), event(2, 42, "user-flag"), event(1, 7, "root-flag")];
    let fresh = reconcile(&snapshot, &known);
    assert_eq!(fresh.len(), 3);
    for e in &fresh {
        known.record(e.actor.id, e.event_id, &e.kind);
    }
    assert!(reconcile(&snapshot, &known).is_empty());
}

#[test]
fn reconcile_does_not_touch_the_record() {
    let known = SolveCache::new();
    let snapshot = vec![event(1, 42, "user-flag")];
    let _ = reconcile(&snapshot, &known);
    assert!(!known.contains(1, 42, "user-flag"));
    assert_eq!(reconcile(&snapshot, &known).len(), 1);
}

#[test]
fn recording_is_per_actor() {
    let mut known = SolveCache::new();
    known.record(1, 42, "user-flag");
    assert!(known.contains(1, 42, "user-flag"));
    assert!(!known.contains(2, 42, "user-flag"));
    assert!(!known.contains(1, 42, "root-flag"));
    assert!(!known.contains(1, 43, "user-flag"));
}

#[test]
fn recording_twice_changes_nothing() {
    let mut known = SolveCache::new();
    assert!(known.insert(1, 42, "user-flag"));
    assert!(!known.insert(1, 42, "user-flag"));
    known.record(1, 42, "user-flag");
    assert!(known.contains(1, 42, "user-flag"));
}
