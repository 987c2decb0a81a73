//! Which player to follow, and how a session is resolved under that preference.
//!
//! Resolution is stateless: every call starts from the preference alone, because sessions come
//! and go between calls. The lookups themselves belong to the session provider. This module
//! decides which lookup to make first, and what to do once its answer is known:
//!
//! 1. [`PlayerPreference::first_query`] names the first lookup;
//! 2. the caller performs it and tells [`SessionQuery::after`] whether a session was found;
//! 3. the answer is to bind that session, to make one more lookup, or to give up.
//!
//! [`protocol_outcome`] is what this exchange ends with, and the laws at the end of the file say
//! what that is.

use vstd::prelude::*;

verus! {

/// The user's choice of player: whichever is active, or one named player.
#[derive(Debug, PartialEq, Eq)]
pub enum PlayerPreference {
    Auto,
    Named(String),
}

/// The mathematical value of a [`PlayerPreference`].
pub enum PreferenceView {
    Auto,
    Named(Seq<char>),
}

impl View for PlayerPreference {
    type V = PreferenceView;

    open spec fn view(&self) -> PreferenceView {
        match self {
            PlayerPreference::Auto => PreferenceView::Auto,
            PlayerPreference::Named(name) => PreferenceView::Named(name@),
        }
    }
}

/// One lookup that the session provider can make.
#[derive(Debug, PartialEq, Eq)]
pub enum SessionQuery {
    Active,
    Named(String),
}

/// The mathematical value of a [`SessionQuery`].
pub enum QueryView {
    Active,
    Named(Seq<char>),
}

impl View for SessionQuery {
    type V = QueryView;

    open spec fn view(&self) -> QueryView {
        match self {
            SessionQuery::Active => QueryView::Active,
            SessionQuery::Named(name) => QueryView::Named(name@),
        }
    }
}

/// What to do once a lookup has been answered.
#[derive(Debug, PartialEq, Eq)]
pub enum ResolveStep {
    /// Use the session that the lookup found.
    Bind,
    /// Make this lookup next.
    Ask(SessionQuery),
    /// No session exists: resolve to nothing.
    Unresolved,
}

/// The mathematical value of a [`ResolveStep`].
pub enum StepView {
    Bind,
    Ask(QueryView),
    Unresolved,
}

impl View for ResolveStep {
    type V = StepView;

    open spec fn view(&self) -> StepView {
        match self {
            ResolveStep::Bind => StepView::Bind,
            ResolveStep::Ask(query) => StepView::Ask(query@),
            ResolveStep::Unresolved => StepView::Unresolved,
        }
    }
}

/// The preference that a selection stands for: no name means `Auto`.
pub open spec fn preference_of(name: Option<Seq<char>>) -> PreferenceView {
    match name {
        Some(n) => PreferenceView::Named(n),
        None => PreferenceView::Auto,
    }
}

/// The first lookup under a preference: the named player if one is preferred, else the active one.
pub open spec fn first_query(preference: PreferenceView) -> QueryView {
    match preference {
        PreferenceView::Auto => QueryView::Active,
        PreferenceView::Named(name) => QueryView::Named(name),
    }
}

/// The step that follows a lookup: a found session is bound; a named player that is missing
/// gives way to the active one; without an active one there is nothing to bind.
pub open spec fn step_after(query: QueryView, found: bool) -> StepView {
    if found {
        StepView::Bind
    } else {
        match query {
            QueryView::Named(_) => StepView::Ask(QueryView::Active),
            QueryView::Active => StepView::Unresolved,
        }
    }
}

/// What a provider answers to a lookup, where `by_name` gives the session under each identity
/// and `active` is the active session.
pub open spec fn answer<S>(
    query: QueryView,
    by_name: spec_fn(Seq<char>) -> Option<S>,
    active: Option<S>,
) -> Option<S> {
    match query {
        QueryView::Active => active,
        QueryView::Named(name) => by_name(name),
    }
}

/// The session that the exchange of lookups and steps ends with.
pub open spec fn protocol_outcome<S>(
    preference: PreferenceView,
    by_name: spec_fn(Seq<char>) -> Option<S>,
    active: Option<S>,
) -> Option<S> {
    let first = first_query(preference);
    let found = answer(first, by_name, active);
    match step_after(first, found is Some) {
        StepView::Bind => found,
        StepView::Ask(second) => {
            let again = answer(second, by_name, active);
            match step_after(second, again is Some) {
                StepView::Bind => again,
                _ => None,
            }
        },
        StepView::Unresolved => None,
    }
}

/// The session that a preference resolves to, said directly.
pub open spec fn resolution<S>(
    preference: PreferenceView,
    by_name: spec_fn(Seq<char>) -> Option<S>,
    active: Option<S>,
) -> Option<S> {
    match preference {
        PreferenceView::Auto => active,
        PreferenceView::Named(name) => match by_name(name) {
            Some(session) => Some(session),
            None => active,
        },
    }
}

impl PlayerPreference {
    /// The preference that a selection stands for: no name means `Auto`.
    pub fn from_selection(name: Option<String>) -> (preference: PlayerPreference)
        ensures
            preference@ == preference_of(crate::text::opt_chars(name)),
    {
        match name {
            Some(n) => PlayerPreference::Named(n),
            None => PlayerPreference::Auto,
        }
    }

    /// The lookup with which a resolution under this preference starts.
    pub fn first_query(&self) -> (query: SessionQuery)
        ensures
            query@ == first_query(self@),
    {
        match self {
            PlayerPreference::Auto => SessionQuery::Active,
            PlayerPreference::Named(name) => SessionQuery::Named(name.clone()),
        }
    }
}

impl Clone for PlayerPreference {
    fn clone(&self) -> (copy: PlayerPreference)
        ensures
            copy@ == self@,
    {
        match self {
            PlayerPreference::Auto => PlayerPreference::Auto,
            PlayerPreference::Named(name) => PlayerPreference::Named(name.clone()),
        }
    }
}

impl Default for PlayerPreference {
    fn default() -> (preference: PlayerPreference)
        ensures
            preference@ == PreferenceView::Auto,
    {
        PlayerPreference::Auto
    }
}

impl SessionQuery {
    /// What to do now that this lookup has been answered; `found` says whether it gave a
    /// session.
    pub fn after(&self, found: bool) -> (step: ResolveStep)
        ensures
            step@ == step_after(self@, found),
    {
        if found {
            ResolveStep::Bind
        } else {
            match self {
                SessionQuery::Named(_) => ResolveStep::Ask(SessionQuery::Active),
                SessionQuery::Active => ResolveStep::Unresolved,
            }
        }
    }
}

/// The exchange of lookups and steps ends with the session that the preference resolves to.
pub proof fn protocol_resolves<S>(
    preference: PreferenceView,
    by_name: spec_fn(Seq<char>) -> Option<S>,
    active: Option<S>,
)
    ensures
        protocol_outcome(preference, by_name, active) == resolution(preference, by_name, active),
{
}

/// Under `Auto` a resolution gives exactly what a lookup of the active session gives.
pub proof fn auto_resolves_to_active<S>(
    by_name: spec_fn(Seq<char>) -> Option<S>,
    active: Option<S>,
)
    ensures
        first_query(PreferenceView::Auto) == QueryView::Active,
        protocol_outcome(PreferenceView::Auto, by_name, active) == active,
{
}

/// A named player that is absent gives way to the active session within the same resolution,
/// and an absent active session resolves to nothing rather than to an error.
pub proof fn absent_name_falls_back<S>(
    name: Seq<char>,
    by_name: spec_fn(Seq<char>) -> Option<S>,
    active: Option<S>,
)
    requires
        by_name(name) is None,
    ensures
        step_after(first_query(PreferenceView::Named(name)), false) == StepView::Ask(
            QueryView::Active,
        ),
        protocol_outcome(PreferenceView::Named(name), by_name, active) == active,
{
}

/// A named player that is present is the one bound, whatever is active.
pub proof fn present_name_is_bound<S>(
    name: Seq<char>,
    by_name: spec_fn(Seq<char>) -> Option<S>,
    active: Option<S>,
)
    requires
        by_name(name) is Some,
    ensures
        protocol_outcome(PreferenceView::Named(name), by_name, active) == by_name(name),
{
}

/// A resolution comes out empty exactly when the active session is absent and the named one,
/// if any was preferred, is absent too.
pub proof fn unresolved_only_without_sessions<S>(
    preference: PreferenceView,
    by_name: spec_fn(Seq<char>) -> Option<S>,
    active: Option<S>,
)
    ensures
        protocol_outcome(preference, by_name, active) is None <==> (active is None && (
        preference matches PreferenceView::Named(name) ==> by_name(name) is None)),
{
}

} // verus!
