//! Classification: what the two rule lists make of a look at the foreground
//! window. Ignore rules come first; among the group rules the first match
//! names the activity.

use crate::observation;
use crate::observation::Activity;
use crate::rule::any_match;
use crate::rule::find_first_match;
use crate::rule::first_match;
use crate::rule::is_first_match;
use crate::rule::lemma_first_match;
use crate::rule::Item;
use vstd::prelude::*;
use vstd::string::StringExecFns;

verus! {

/// The mathematical content of a `Classification`.
pub enum Outcome {
    /// An ignore rule matched: the look counts for nothing.
    Suppressed,
    /// The activity that the look is attributed to.
    Effective(Activity),
}

/// What the rules make of one look.
#[derive(Debug)]
pub enum Classification {
    Suppressed,
    Effective(observation::Result),
}

impl View for Classification {
    type V = Outcome;

    open spec fn view(&self) -> Outcome {
        match self {
            Classification::Suppressed => Outcome::Suppressed,
            Classification::Effective(seen) => Outcome::Effective(seen@),
        }
    }
}

/// The outcome for what was seen: suppressed where any ignore rule matches,
/// whatever the group rules say; else filed under the name of the first
/// group rule that matches; else as it was seen.
pub open spec fn classified(
    ignorelist: Seq<Item>,
    grouplist: Seq<Item>,
    seen: Activity,
) -> Outcome {
    if any_match(ignorelist, seen) {
        Outcome::Suppressed
    } else {
        match first_match(grouplist, seen) {
            Some(at) => Outcome::Effective(seen.grouped(grouplist[at]@.name)),
            None => Outcome::Effective(seen),
        }
    }
}

/// Classifies what was seen against the two rule lists.
pub fn classify(seen: observation::Result, ignorelist: &Vec<Item>, grouplist: &Vec<Item>) -> (c:
    Classification)
    ensures
        c@ == classified(ignorelist@, grouplist@, seen@),
{
    if find_first_match(ignorelist, &seen).is_some() {
        return Classification::Suppressed;
    }
    match find_first_match(grouplist, &seen) {
        Some(at) => {
            let name = String::from_str(grouplist[at].name());
            Classification::Effective(seen.grouped(name))
        },
        None => Classification::Effective(seen),
    }
}

/// The note that tells a reader which list decided: the list's tag and the
/// title that was seen. No note where no rule matched.
pub open spec fn note_text(ignorelist: Seq<Item>, grouplist: Seq<Item>, seen: Activity) -> Option<
    Seq<char>,
> {
    if any_match(ignorelist, seen) {
        Some("#X IGNORELIST "@ + seen.title)
    } else if any_match(grouplist, seen) {
        Some("#X GROUPLIST "@ + seen.title)
    } else {
        None
    }
}

/// Writes the note on how `classify` decides for what was seen.
pub fn match_note(
    seen: &observation::Result,
    ignorelist: &Vec<Item>,
    grouplist: &Vec<Item>,
) -> (note: Option<String>)
    ensures
        match note {
            Some(text) => note_text(ignorelist@, grouplist@, seen@) == Some(text@),
            None => note_text(ignorelist@, grouplist@, seen@) is None,
        },
{
    if find_first_match(ignorelist, seen).is_some() {
        Some(String::from_str("#X IGNORELIST ").concat(seen.title()))
    } else if find_first_match(grouplist, seen).is_some() {
        Some(String::from_str("#X GROUPLIST ").concat(seen.title()))
    } else {
        None
    }
}

/// Whatever matches an ignore rule is suppressed, also where a group rule
/// matches it too.
pub proof fn lemma_ignore_wins(
    ignorelist: Seq<Item>,
    grouplist: Seq<Item>,
    seen: Activity,
    at: int,
)
    requires
        0 <= at < ignorelist.len(),
        ignorelist[at].accepts(seen),
    ensures
        classified(ignorelist, grouplist, seen) == Outcome::Suppressed,
{
}

/// What no ignore rule matches stays effective, and keeps its process, its path
/// and its moment whatever the group rules make of it.
pub proof fn lemma_effective_keeps_process(
    ignorelist: Seq<Item>,
    grouplist: Seq<Item>,
    seen: Activity,
)
    requires
        !any_match(ignorelist, seen),
    ensures
        classified(ignorelist, grouplist, seen) matches Outcome::Effective(activity)
            && activity.pid == seen.pid && activity.path == seen.path && activity.timestamp
            == seen.timestamp,
{
}

/// What the same group rule matches first is filed under the same name,
/// whatever its title was, and loses its class.
pub proof fn lemma_same_group_same_name(
    ignorelist: Seq<Item>,
    grouplist: Seq<Item>,
    one: Activity,
    other: Activity,
    at: int,
)
    requires
        !any_match(ignorelist, one),
        !any_match(ignorelist, other),
        is_first_match(grouplist, one, at),
        is_first_match(grouplist, other, at),
    ensures
        classified(ignorelist, grouplist, one) == Outcome::Effective(
            one.grouped(grouplist[at]@.name),
        ),
        classified(ignorelist, grouplist, other) == Outcome::Effective(
            other.grouped(grouplist[at]@.name),
        ),
        one.grouped(grouplist[at]@.name).title == other.grouped(grouplist[at]@.name).title,
{
    lemma_first_match(grouplist, one, at);
    lemma_first_match(grouplist, other, at);
}

/// What no rule of either list matches is effective as it was seen.
pub proof fn lemma_unmatched_is_unchanged(
    ignorelist: Seq<Item>,
    grouplist: Seq<Item>,
    seen: Activity,
)
    requires
        !any_match(ignorelist, seen),
        !any_match(grouplist, seen),
    ensures
        classified(ignorelist, grouplist, seen) == Outcome::Effective(seen),
{
}

} // verus!
