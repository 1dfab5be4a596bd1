use hackthebot::catalog::{CategoryCatalog, MACHINE_CATEGORY_ID};
use hackthebot::discord_utils::{
    capitalise_first, get_challenge_category, solve_notification, solve_title, thumbnail_url,
    SolveToAnnounce,
};
use hackthebot::htb::api_types::{ActivityEvent, Actor};
use hackthebot::Challenge;

fn solve(solve_type: &str, category: i64, avatar: Option<&str>) -> SolveToAnnounce {
    SolveToAnnounce {
        solver: "alice".to_string(),
        user_id: 11,
        solve_type: solve_type.to_string(),
        challenge: Challenge {
            name: "Lame".to_string(),
            points: 20,
            category,
            machine_avatar: avatar.map(|a| a.to_string()),
        },
    }
}

#[test]
fn capitalise_first_raises_the_first_letter() {
    assert_eq!(capitalise_first("user"), "User");
    assert_eq!(capitalise_first("root"), "Root");
    assert_eq!(capitalise_first("challenge"), "Challenge");
}

#[test]
fn capitalise_first_leaves_the_rest() {
    assert_eq!(capitalise_first("uSER flag"), "USER flag");
    assert_eq!(capitalise_first("Root"), "Root");
    assert_eq!(capitalise_first("x"), "X");
    assert_eq!(capitalise_first("1up"), "1up");
}

#[test]
fn capitalise_first_of_empty_is_empty() {
    assert_eq!(capitalise_first(""), "");
}

#[test]
fn capitalise_first_handles_wide_characters() {
    assert_eq!(capitalise_first("\u{e9}lan"), "\u{c9}lan");
    assert_eq!(capitalise_first("\u{df}eta"), "SSeta");
    assert_eq!(capitalise_first("\u{e9}"), "\u{c9}");
}

#[test]
fn title_of_a_solved_challenge() {
    assert_eq!(
        solve_title("Challenge", "alice", "Weak RSA"),
        "\u{1F3F4} Weak RSA has been solved by alice"
    );
}

#[test]
fn title_of_an_owned_machine() {
    assert_eq!(
        solve_title("Root", "alice", "Lame"),
        "\u{1F3F4} Root has been owned by alice on Lame"
    );
    assert_eq!(
        solve_title("challenge", "alice", "Lame"),
        "\u{1F3F4} challenge has been owned by alice on Lame"
    );
}

#[test]
fn thumbnail_is_found_on_the_platform() {
    assert_eq!(
        thumbnail_url(&Some("storage/avatars/lame.png".to_string())),
        Some("https://www.hackthebox.eu/storage/avatars/lame.png".to_string())
    );
    assert_eq!(thumbnail_url(&None), None);
}

#[test]
fn category_of_a_known_challenge() {
    let mut catalog = CategoryCatalog::new();
    catalog.insert(4, "Reversing");
    let s = solve("challenge", 4, None);
    assert_eq!(get_challenge_category(&s.challenge, &catalog), "Reversing");
}

#[test]
fn category_absent_from_catalog_is_unknown() {
    let catalog = CategoryCatalog::new();
    let s = solve("challenge", 4, None);
    assert_eq!(get_challenge_category(&s.challenge, &catalog), "Unknown");
    let shown = solve_notification(&s, &catalog);
    assert_eq!(shown.category, "Unknown");
    assert_eq!(shown.title, "\u{1F3F4} Lame has been solved by alice");
    assert_eq!(shown.points, 20);
}

#[test]
fn notification_for_a_machine() {
    let catalog = CategoryCatalog::new();
    let s = solve("user", MACHINE_CATEGORY_ID, Some("storage/lame.png"));
    let shown = solve_notification(&s, &catalog);
    assert_eq!(shown.title, "\u{1F3F4} User has been owned by alice on Lame");
    assert_eq!(shown.category, "Machine");
    assert_eq!(shown.points, 20);
    assert_eq!(shown.thumbnail, Some("https://www.hackthebox.eu/storage/lame.png".to_string()));
    assert!(shown.solved_by.is_none());
}

#[test]
fn notification_for_a_challenge_has_no_picture() {
    let mut catalog = CategoryCatalog::new();
    catalog.insert(2, "Crypto");
    let shown = solve_notification(&solve("challenge", 2, None), &catalog);
    assert_eq!(shown.title, "\u{1F3F4} Lame has been solved by alice");
    assert_eq!(shown.category, "Crypto");
    assert_eq!(shown.thumbnail, None);
}

#[test]
fn announcement_is_taken_from_the_event() {
    let event = ActivityEvent {
        event_id: 42,
        actor: Actor { id: 11, name: "alice".to_string() },
        kind: "root".to_string(),
        subject_name: "Lame".to_string(),
        subject_category_id: 0,
        subject_points: 30,
        subject_image_ref: Some("a.png".to_string()),
        occurred_at: "now".to_string(),
    };
    let s = SolveToAnnounce::from_event(&event);
    assert_eq!(s.solver, "alice");
    assert_eq!(s.user_id, 11);
    assert_eq!(s.solve_type, "root");
    assert_eq!(s.challenge.name, "Lame");
    assert_eq!(s.challenge.points, 30);
    assert_eq!(s.challenge.category, 0);
    assert_eq!(s.challenge.machine_avatar, Some("a.png".to_string()));
}

#[test]
fn with_capital_puts_the_capital_in_front() {
    assert_eq!(hackthebot::discord_utils::with_capital("U", "user"), "User");
    assert_eq!(hackthebot::discord_utils::with_capital("SS", "\u{df}eta"), "SSeta");
    assert_eq!(hackthebot::discord_utils::with_capital("X", ""), "X");
    assert_eq!(hackthebot::discord_utils::with_capital("", "abc"), "bc");
    assert_eq!(hackthebot::discord_utils::with_capital("A", "a"), "A");
}
