//! The catalog of category labels, read when a notification is rendered.
//!
//! It maps a category's id to the label shown for it. Machines have no
//! category of their own in the feed: they go under a reserved id, which the
//! catalog always resolves to "Machine". Labels are added or refreshed, never
//! taken away, and an id without a label is shown as "Unknown".

use crate::htb::api_types::opt_text;
use dashmap::DashMap;
use vstd::prelude::*;

verus! {

/// The id under which machines are filed.
pub const MACHINE_CATEGORY_ID: i64 = 0;

/// The id under which a subject is filed whose category is not known. The
/// catalog takes no label for it, so such a subject is shown as "Unknown".
pub const UNCATEGORISED_CATEGORY_ID: i64 = -1;

/// `dashmap::DashMap`, the concurrent map that keeps the labels. Nothing is
/// known of its inside but what the wrappers below say.
#[verifier::external_type_specification]
#[verifier::external_body]
#[verifier::reject_recursive_types(K)]
#[verifier::reject_recursive_types(V)]
#[verifier::reject_recursive_types(S)]
pub struct ExDashMap<K, V, S>(DashMap<K, V, S>);

/// Labels by category id, as text.
pub type Labels = Map<i64, Seq<char>>;

/// The label that a map of categories holds for each id, as text.
pub uninterp spec fn category_labels(map: DashMap<i64, String>) -> Map<i64, Seq<char>>;

/// `DashMap::new`: the map it returns holds nothing.
#[verifier::external_body]
fn label_map_new() -> (fresh: DashMap<i64, String>)
    ensures
        category_labels(fresh) == Labels::empty(),
{
    DashMap::new()
}

/// `DashMap::insert`: afterwards the map holds the label under the id, and
/// what it held under other ids is unchanged. The result is the label that
/// the id had before, if it had one.
#[verifier::external_body]
fn label_map_insert(map: &mut DashMap<i64, String>, id: i64, label: String) -> (previous: Option<
    String,
>)
    ensures
        category_labels(*final(map)) == category_labels(*old(map)).insert(id, label@),
        opt_text(previous) == (if category_labels(*old(map)).dom().contains(id) {
            Some(category_labels(*old(map))[id])
        } else {
            None
        }),
{
    map.insert(id, label)
}

/// `DashMap::get`, with the entry found copied out: the label held under the
/// id, or nothing where the map has no such id.
#[verifier::external_body]
fn label_map_get(map: &DashMap<i64, String>, id: i64) -> (label: Option<String>)
    ensures
        opt_text(label) == (if category_labels(*map).dom().contains(id) {
            Some(category_labels(*map)[id])
        } else {
            None
        }),
{
    map.get(&id).as_deref().cloned()
}

/// The label shown for a category id under the given labels.
pub open spec fn label_of(labels: Labels, category_id: i64) -> Seq<char> {
    if labels.dom().contains(category_id) {
        labels[category_id]
    } else {
        "Unknown"@
    }
}

/// The catalog of category labels.
pub struct CategoryCatalog {
    labels: DashMap<i64, String>,
}

impl CategoryCatalog {
    /// The label of each id that the catalog knows.
    pub closed spec fn labels(&self) -> Labels {
        category_labels(self.labels)
    }

    /// The reserved id stands for machines, and the id of subjects without
    /// a known category has no label. Every catalog made by [`new`] is so,
    /// and stays so.
    ///
    /// [`new`]: CategoryCatalog::new
    pub open spec fn wf(&self) -> bool {
        &&& self.labels().dom().contains(MACHINE_CATEGORY_ID)
        &&& self.labels()[MACHINE_CATEGORY_ID] == "Machine"@
        &&& !self.labels().dom().contains(UNCATEGORISED_CATEGORY_ID)
    }

    /// A catalog that knows the reserved id and nothing else.
    pub fn new() -> (catalog: Self)
        ensures
            catalog.wf(),
            catalog.labels() == Labels::empty().insert(
                MACHINE_CATEGORY_ID,
                "Machine"@,
            ),
    {
        let mut labels = label_map_new();
        let _ = label_map_insert(&mut labels, MACHINE_CATEGORY_ID, "Machine".to_owned());
        CategoryCatalog { labels }
    }

    /// Files a label under a category id, in place of the label that the id
    /// had. The two reserved ids take no label: for them nothing changes
    /// and the result is `false`.
    pub fn insert(&mut self, category_id: i64, label: &str) -> (stored: bool)
        ensures
            stored == (category_id != MACHINE_CATEGORY_ID && category_id
                != UNCATEGORISED_CATEGORY_ID),
            old(self).wf() ==> final(self).wf(),
            final(self).labels() == (if stored {
                old(self).labels().insert(category_id, label@)
            } else {
                old(self).labels()
            }),
    {
        if category_id == MACHINE_CATEGORY_ID || category_id == UNCATEGORISED_CATEGORY_ID {
            false
        } else {
            let _ = label_map_insert(&mut self.labels, category_id, label.to_owned());
            true
        }
    }

    /// The label filed under a category id, if there is one.
    pub fn lookup(&self, category_id: i64) -> (label: Option<String>)
        ensures
            opt_text(label) == (if self.labels().dom().contains(category_id) {
                Some(self.labels()[category_id])
            } else {
                None
            }),
    {
        label_map_get(&self.labels, category_id)
    }

    /// The label shown for a category id: the one filed under it, or
    /// "Unknown" where the catalog has none. Never fails.
    pub fn label(&self, category_id: i64) -> (label: String)
        ensures
            label@ == label_of(self.labels(), category_id),
            self.wf() && category_id == MACHINE_CATEGORY_ID ==> label@ == "Machine"@,
            self.wf() && category_id == UNCATEGORISED_CATEGORY_ID ==> label@ == "Unknown"@,
            !self.labels().dom().contains(category_id) ==> label@ == "Unknown"@,
    {
        match label_map_get(&self.labels, category_id) {
            Some(label) => label,
            None => "Unknown".to_owned(),
        }
    }

    /// Whether the catalog has a label for a category id.
    pub fn contains(&self, category_id: i64) -> (found: bool)
        ensures
            found == self.labels().dom().contains(category_id),
    {
        label_map_get(&self.labels, category_id).is_some()
    }
}

/// A text with its letters in lower case.
pub uninterp spec fn lowercase_of(s: Seq<char>) -> Seq<char>;

/// `str::to_lowercase`: the text in lower case, which depends on the text
/// alone.
#[verifier::external_body]
fn str_to_lowercase(s: &str) -> (lower: String)
    ensures
        lower@ == lowercase_of(s@),
{
    s.to_lowercase()
}

/// Whether `needle` stands somewhere in `hay`, character for character.
pub open spec fn holds_text(hay: Seq<char>, needle: Seq<char>) -> bool {
    exists|at: int|
        0 <= at && at + needle.len() <= hay.len() && #[trigger] hay.subrange(
            at,
            at + needle.len(),
        ) == needle
}

/// `str::contains` with a text as the pattern: whether the pattern stands
/// somewhere in the text.
#[verifier::external_body]
fn str_contains(hay: &str, needle: &str) -> (found: bool)
    ensures
        found == holds_text(hay@, needle@),
{
    hay.contains(needle)
}

/// Whether a type of subject, given in lower case, is that of a machine.
pub fn names_machine(lowered: &str) -> (machine: bool)
    ensures
        machine == holds_text(lowered@, "machine"@),
{
    str_contains(lowered, "machine")
}

/// Whether the feed's type of a subject is that of a machine: whether it
/// holds the word, in whatever case.
pub fn is_machine(object_type: &str) -> (machine: bool)
    ensures
        machine == holds_text(lowercase_of(object_type@), "machine"@),
{
    let lowered = str_to_lowercase(object_type);
    names_machine(lowered.as_str())
}

/// The category id that a subject of the feed is filed under: the reserved
/// id for a machine, whatever category comes with it, and the subject's own
/// category otherwise.
pub fn subject_category_id(object_type: &str, category_id: i64) -> (filed: i64)
    ensures
        filed == (if holds_text(lowercase_of(object_type@), "machine"@) {
            MACHINE_CATEGORY_ID
        } else {
            category_id
        }),
{
    if is_machine(object_type) {
        MACHINE_CATEGORY_ID
    } else {
        category_id
    }
}

} // verus!
