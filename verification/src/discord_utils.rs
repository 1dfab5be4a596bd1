//! What is shown for a solve: the notification's title, its category label,
//! its points and its picture.

use crate::catalog::{label_of, CategoryCatalog, Labels};
use crate::graphql::graphql_types::texts;
use crate::htb::api_types::{opt_text, ActivityEvent, ActivityEventView};
use crate::Challenge;
use vstd::prelude::*;

verus! {

/// A solve as it is announced: who solved what, and how.
#[derive(Debug)]
pub struct SolveToAnnounce {
    pub solver: String,
    pub user_id: i64,
    pub solve_type: String,
    pub challenge: Challenge,
}

/// One notification, ready to be delivered.
#[derive(Debug)]
pub struct Notification {
    pub title: String,
    pub category: String,
    pub points: i64,
    /// Where the picture shown beside the notification is found.
    pub thumbnail: Option<String>,
    /// The names of those who solved the subject, where that is shown.
    pub solved_by: Option<Vec<String>>,
}

/// The mathematical content of a [`Notification`].
pub struct NotificationView {
    pub title: Seq<char>,
    pub category: Seq<char>,
    pub points: i64,
    pub thumbnail: Option<Seq<char>>,
    pub solved_by: Option<Seq<Seq<char>>>,
}

/// The names held by an optional list of strings.
pub open spec fn opt_texts(names: Option<Vec<String>>) -> Option<Seq<Seq<char>>> {
    match names {
        Some(list) => Some(texts(list@)),
        None => None,
    }
}

impl View for Notification {
    type V = NotificationView;

    open spec fn view(&self) -> NotificationView {
        NotificationView {
            title: self.title@,
            category: self.category@,
            points: self.points,
            thumbnail: opt_text(self.thumbnail),
            solved_by: opt_texts(self.solved_by),
        }
    }
}

/// The upper-case form of a character, which may be several characters long.
pub uninterp spec fn uppercase_of(c: char) -> Seq<char>;

/// `char::to_uppercase`, its characters gathered into a string: the
/// upper-case form of the character, which depends on the character alone.
#[verifier::external_body]
fn char_to_uppercase(c: char) -> (upper: String)
    ensures
        upper@ == uppercase_of(c),
{
    c.to_uppercase().collect()
}

/// A text with `upper` in place of its first character. The empty text has
/// no first character: for it the result is `upper` alone.
pub open spec fn capital_text(upper: Seq<char>, s: Seq<char>) -> Seq<char> {
    if s.len() == 0 {
        upper
    } else {
        upper + s.subrange(1, s.len() as int)
    }
}

/// A text with its first character in upper case.
pub open spec fn capitalised(s: Seq<char>) -> Seq<char> {
    if s.len() == 0 {
        Seq::empty()
    } else {
        capital_text(uppercase_of(s[0]), s)
    }
}

/// The text with `upper` in place of its first character and the rest as it
/// is. For the empty text the result is `upper` alone.
pub fn with_capital(upper: &str, s: &str) -> (capital: String)
    ensures
        capital@ == capital_text(upper@, s@),
{
    let mut capital = upper.to_owned();
    if !s.is_empty() {
        let len = s.unicode_len();
        capital.append(s.substring_char(1, len));
    }
    capital
}

/// The text with its first character in upper case and the rest as it is.
/// The empty text stays empty.
pub fn capitalise_first(s: &str) -> (capital: String)
    ensures
        capital@ == capitalised(s@),
{
    if s.is_empty() {
        String::new()
    } else {
        let upper = char_to_uppercase(s.get_char(0));
        with_capital(upper.as_str(), s)
    }
}

/// The label under which a challenge is shown: the one that the catalog
/// files under the challenge's category, "Unknown" where it files none.
pub fn get_challenge_category(challenge: &Challenge, catalog: &CategoryCatalog) -> (label: String)
    ensures
        label@ == label_of(catalog.labels(), challenge.category),
        !catalog.labels().dom().contains(challenge.category) ==> label@ == "Unknown"@,
{
    catalog.label(challenge.category)
}

/// The title of a notification, given the solve's kind with its first
/// character in upper case.
pub open spec fn title_text(solve_type: Seq<char>, solver: Seq<char>, name: Seq<char>) -> Seq<
    char,
> {
    if solve_type == "Challenge"@ {
        "\u{1F3F4} "@ + name + " has been solved by "@ + solver
    } else {
        "\u{1F3F4} "@ + solve_type + " has been owned by "@ + solver + " on "@ + name
    }
}

/// The title of a notification. A solved challenge is named first; for any
/// other kind of solve the kind comes first and the subject last.
pub fn solve_title(solve_type: &str, solver: &str, name: &str) -> (title: String)
    ensures
        title@ == title_text(solve_type@, solver@, name@),
{
    let mut title = "\u{1F3F4} ".to_owned();
    if solve_type.to_owned() == "Challenge".to_owned() {
        title.append(name);
        title.append(" has been solved by ");
        title.append(solver);
    } else {
        title.append(solve_type);
        title.append(" has been owned by ");
        title.append(solver);
        title.append(" on ");
        title.append(name);
    }
    title
}

/// Where the picture of a machine is found, given its path on the platform.
pub open spec fn thumbnail_text(avatar: Option<Seq<char>>) -> Option<Seq<char>> {
    match avatar {
        Some(path) => Some("https://www.hackthebox.eu/"@ + path),
        None => None,
    }
}

/// The address of the picture shown beside a notification, if the subject
/// has one.
pub fn thumbnail_url(avatar: &Option<String>) -> (url: Option<String>)
    ensures
        opt_text(url) == thumbnail_text(opt_text(*avatar)),
{
    match avatar {
        Some(path) => {
            let mut url = "https://www.hackthebox.eu/".to_owned();
            url.append(path.as_str());
            Some(url)
        },
        None => None,
    }
}

/// What is shown for a solve under the given labels.
pub open spec fn notification_of(
    solver: Seq<char>,
    solve_type: Seq<char>,
    name: Seq<char>,
    category: i64,
    points: i64,
    avatar: Option<Seq<char>>,
    labels: Labels,
) -> NotificationView {
    NotificationView {
        title: title_text(capitalised(solve_type), solver, name),
        category: label_of(labels, category),
        points: points,
        thumbnail: thumbnail_text(avatar),
        solved_by: None,
    }
}

impl SolveToAnnounce {
    /// The announcement that an event of the feed calls for.
    pub fn from_event(event: &ActivityEvent) -> (solve: SolveToAnnounce)
        ensures
            solve.solver@ == event@.actor_name,
            solve.user_id == event@.actor_id,
            solve.solve_type@ == event@.kind,
            solve.challenge.name@ == event@.subject_name,
            solve.challenge.points == event@.subject_points,
            solve.challenge.category == event@.subject_category_id,
            opt_text(solve.challenge.machine_avatar) == event@.subject_image_ref,
    {
        SolveToAnnounce {
            solver: event.actor.name.clone(),
            user_id: event.actor.id,
            solve_type: event.kind.clone(),
            challenge: Challenge {
                name: event.subject_name.clone(),
                points: event.subject_points,
                category: event.subject_category_id,
                machine_avatar: crate::htb::api_types::clone_opt_text(&event.subject_image_ref),
            },
        }
    }

    /// What this solve shows under the given labels.
    pub open spec fn shown(&self, labels: Labels) -> NotificationView {
        notification_of(
            self.solver@,
            self.solve_type@,
            self.challenge.name@,
            self.challenge.category,
            self.challenge.points,
            opt_text(self.challenge.machine_avatar),
            labels,
        )
    }
}

/// What an event shows under the given labels.
pub open spec fn event_notification(event: ActivityEventView, labels: Labels) -> NotificationView {
    notification_of(
        event.actor_name,
        event.kind,
        event.subject_name,
        event.subject_category_id,
        event.subject_points,
        event.subject_image_ref,
        labels,
    )
}

/// Renders the notification for a solve. A category that the catalog does
/// not know is shown as "Unknown"; rendering never fails.
pub fn solve_notification(solve: &SolveToAnnounce, catalog: &CategoryCatalog) -> (shown:
    Notification)
    ensures
        shown@ == solve.shown(catalog.labels()),
        !catalog.labels().dom().contains(solve.challenge.category) ==> shown.category@
            == "Unknown"@,
{
    let solve_type = capitalise_first(solve.solve_type.as_str());
    Notification {
        title: solve_title(
            solve_type.as_str(),
            solve.solver.as_str(),
            solve.challenge.name.as_str(),
        ),
        category: get_challenge_category(&solve.challenge, catalog),
        points: solve.challenge.points,
        thumbnail: thumbnail_url(&solve.challenge.machine_avatar),
        solved_by: None,
    }
}

} // verus!
