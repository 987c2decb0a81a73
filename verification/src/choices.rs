//! The player selector: what it offers, and what a selection means.
//!
//! The selector lists `Auto` first and the identities of the players after it. The list is
//! filled anew from a fresh enumeration every few seconds.

use vstd::prelude::*;
use crate::preference::{PlayerPreference, PreferenceView};
use crate::text::list_chars;

verus! {

/// Seconds between two refreshes of the list of players.
pub const CHOICES_REFRESH_SECS: u32 = 5;

/// The entries of the selector for the given identities.
pub open spec fn choices_for(identities: Seq<Seq<char>>) -> Seq<Seq<char>> {
    seq!["Auto"@] + identities
}

/// The preference that selecting position `selected` stands for: `Auto` for the first entry,
/// the named player for any other, and nothing where no entry is at that position.
pub open spec fn preference_at(choices: Seq<Seq<char>>, selected: int) -> Option<PreferenceView> {
    if selected == 0 {
        Some(PreferenceView::Auto)
    } else if 0 < selected < choices.len() {
        Some(PreferenceView::Named(choices[selected]))
    } else {
        None
    }
}

/// The entries of the selector: `Auto`, then the identities in the order given.
pub fn player_choices(identities: &Vec<String>) -> (choices: Vec<String>)
    ensures
        list_chars(choices@) == choices_for(list_chars(identities@)),
{
    let mut choices: Vec<String> = Vec::new();
    choices.push("Auto".to_owned());
    let mut at: usize = 0;
    while at < identities.len()
        invariant
            at <= identities@.len(),
            choices@.len() == at + 1,
            choices@[0]@ == "Auto"@,
            forall|k: int| 1 <= k <= at ==> (#[trigger] choices@[k])@ == identities@[k - 1]@,
        decreases identities@.len() - at,
    {
        choices.push(identities[at].clone());
        at += 1;
    }
    assert(list_chars(choices@) =~= choices_for(list_chars(identities@)));
    choices
}

/// The preference to set when the entry at `selected` is picked, if there is such an entry.
pub fn preference_for_choice(choices: &Vec<String>, selected: u32) -> (preference: Option<
    PlayerPreference,
>)
    ensures
        match preference {
            Some(p) => Some(p@),
            None => None,
        } == preference_at(list_chars(choices@), selected as int),
{
    if selected == 0 {
        Some(PlayerPreference::Auto)
    } else if (selected as usize) < choices.len() {
        Some(PlayerPreference::Named(choices[selected as usize].clone()))
    } else {
        None
    }
}

/// The position to select again after the list was filled anew: the one selected before, as
/// long as the list still reaches that far.
pub fn restored_selection(previous: u32, count: u32) -> (position: Option<u32>)
    ensures
        position == if previous < count {
            Some(previous)
        } else {
            None
        },
{
    if previous < count {
        Some(previous)
    } else {
        None
    }
}

/// The first entry always stands for `Auto`, and the entry after it for the first identity,
/// and so on.
pub proof fn choices_start_with_auto(identities: Seq<Seq<char>>, position: int)
    requires
        0 <= position < identities.len(),
    ensures
        choices_for(identities).len() == identities.len() + 1,
        preference_at(choices_for(identities), 0) == Some(PreferenceView::Auto),
        preference_at(choices_for(identities), position + 1) == Some(
            PreferenceView::Named(identities[position]),
        ),
{
}

} // verus!
