//! The reconciliation engine: what changed between the last observed state and a new snapshot,
//! and what has to happen because of it.
//!
//! The engine remembers the title, artist and playback state that it saw last, the art
//! reference with the outcome of fetching it, and whether the first load is done. It is fed
//! three kinds of events, in the order in which they happen:
//!
//! * a snapshot ([`ReconciliationEngine::reconcile`]), answered by an [`Update`] that says what
//!   to show, what to do about the art, and which entry went into the history;
//! * the report of a fetch that an update or a retry asked for
//!   ([`ReconciliationEngine::art_fetched`]);
//! * a retry tick ([`ReconciliationEngine::retry_tick`]), answered by the source to fetch again
//!   where a retry is due.
//!
//! Every decision about a snapshot is taken from the state as it stood before that snapshot.
//! The engine itself never blocks and never fails. Times are in milliseconds.

use vstd::prelude::*;
use crate::art::{ArtOutcome, ArtSource, SourceView, art_source, is_retry_due, outcome_after_report,
    retry_due, source_of, RETRY_INTERVAL_MS};
use crate::history::{EntryView, History, HistoryEntry, recorded};
use crate::progress::{Progress, progress_ratio, ratio_of};
use crate::snapshot::{MediaInfo, MediaInfoView};
use crate::status::PlayerStatus;
use crate::text::{copy_opt_text, opt_chars, same_opt_text};

verus! {

/// Milliseconds between two passes over the buffered snapshots.
pub const RECONCILE_INTERVAL_MS: u64 = 500;

/// What the engine remembers of the session.
#[derive(Debug, PartialEq, Eq)]
pub struct ObservedState {
    pub title: String,
    pub artist: String,
    pub status: PlayerStatus,
    pub art_reference: Option<String>,
    pub art_outcome: ArtOutcome,
    pub initial_load_done: bool,
}

/// The mathematical value of an [`ObservedState`].
pub struct ObservedView {
    pub title: Seq<char>,
    pub artist: Seq<char>,
    pub status: PlayerStatus,
    pub art_reference: Option<Seq<char>>,
    pub art_outcome: ArtOutcome,
    pub initial_load_done: bool,
}

impl View for ObservedState {
    type V = ObservedView;

    open spec fn view(&self) -> ObservedView {
        ObservedView {
            title: self.title@,
            artist: self.artist@,
            status: self.status,
            art_reference: opt_chars(self.art_reference),
            art_outcome: self.art_outcome,
            initial_load_done: self.initial_load_done,
        }
    }
}

/// How much a snapshot changes.
#[derive(Clone, Copy, Debug, PartialEq, Eq, Structural)]
pub enum UpdateClass {
    /// Nothing but the fields that are redrawn anyway.
    NoOp,
    /// The playback state changed: the history grows, the art stays.
    Incremental,
    /// The art is dealt with anew, whether or not anything differs.
    Forced,
}

/// What to do about the displayed cover art.
#[derive(Debug, PartialEq, Eq)]
pub enum ArtAction {
    /// Leave it as it is.
    Keep,
    /// There is no art: clear what is shown and hide its container.
    Clear,
    /// Fetch from this source, show the image or clear what is shown, and report how it went.
    Fetch(ArtSource),
}

/// The mathematical value of an [`ArtAction`].
pub enum ArtActionView {
    Keep,
    Clear,
    Fetch(SourceView),
}

impl View for ArtAction {
    type V = ArtActionView;

    open spec fn view(&self) -> ArtActionView {
        match self {
            ArtAction::Keep => ArtActionView::Keep,
            ArtAction::Clear => ArtActionView::Clear,
            ArtAction::Fetch(source) => ArtActionView::Fetch(source@),
        }
    }
}

/// The side effects that one snapshot asks for.
#[derive(Debug, PartialEq, Eq)]
pub struct Update {
    pub class: UpdateClass,
    /// The texts to show.
    pub title: String,
    pub artist: String,
    pub album: String,
    /// Artist and album are shown only where they are not empty.
    pub artist_visible: bool,
    pub album_visible: bool,
    /// Whether the play button offers to start playback, and is highlighted for it.
    pub paused: bool,
    pub progress: Progress,
    pub art: ArtAction,
    /// The entry that was appended to the history, if one was.
    pub history_entry: Option<HistoryEntry>,
}

/// The mathematical value of an [`Update`].
pub struct UpdateView {
    pub class: UpdateClass,
    pub title: Seq<char>,
    pub artist: Seq<char>,
    pub album: Seq<char>,
    pub artist_visible: bool,
    pub album_visible: bool,
    pub paused: bool,
    pub progress: Progress,
    pub art: ArtActionView,
    pub history_entry: Option<EntryView>,
}

impl View for Update {
    type V = UpdateView;

    open spec fn view(&self) -> UpdateView {
        UpdateView {
            class: self.class,
            title: self.title@,
            artist: self.artist@,
            album: self.album@,
            artist_visible: self.artist_visible,
            album_visible: self.album_visible,
            paused: self.paused,
            progress: self.progress,
            art: self.art@,
            history_entry: match self.history_entry {
                Some(entry) => Some(entry@),
                None => None,
            },
        }
    }
}

impl ObservedView {
    pub open spec fn title_changed(self, snapshot: MediaInfoView) -> bool {
        snapshot.title != self.title
    }

    pub open spec fn artist_changed(self, snapshot: MediaInfoView) -> bool {
        snapshot.artist != self.artist
    }

    pub open spec fn status_changed(self, snapshot: MediaInfoView) -> bool {
        snapshot.status != self.status
    }

    /// Whether the art reference itself differs from the recorded one, whatever became of
    /// fetching that.
    pub open spec fn url_changed(self, snapshot: MediaInfoView) -> bool {
        snapshot.art_url != self.art_reference
    }

    /// Whether the art is dealt with anew: on the first load, and whenever the reference, the
    /// title or the artist differs. Players reuse one reference for several tracks, so the
    /// reference alone does not tell.
    pub open spec fn force_art_update(self, snapshot: MediaInfoView) -> bool {
        ||| !self.initial_load_done
        ||| self.url_changed(snapshot)
        ||| self.title_changed(snapshot)
        ||| self.artist_changed(snapshot)
    }

    /// Whether the snapshot goes into the history.
    pub open spec fn history_due(self, snapshot: MediaInfoView) -> bool {
        ||| self.status_changed(snapshot)
        ||| self.title_changed(snapshot)
        ||| self.artist_changed(snapshot)
    }

    /// Whether the snapshot has the title, artist, art reference and playback state that were
    /// observed last.
    pub open spec fn same_identity(self, snapshot: MediaInfoView) -> bool {
        &&& !self.title_changed(snapshot)
        &&& !self.artist_changed(snapshot)
        &&& !self.url_changed(snapshot)
        &&& !self.status_changed(snapshot)
    }

    /// What is remembered once the snapshot has been dealt with. A forced update starts over
    /// with the snapshot's reference, not attempted yet.
    pub open spec fn after_snapshot(self, snapshot: MediaInfoView) -> ObservedView {
        ObservedView {
            title: snapshot.title,
            artist: snapshot.artist,
            status: snapshot.status,
            art_reference: snapshot.art_url,
            art_outcome: if self.force_art_update(snapshot) {
                ArtOutcome::NotAttempted
            } else {
                self.art_outcome
            },
            initial_load_done: true,
        }
    }

    /// What is remembered once a fetch has been reported.
    pub open spec fn after_report(self, loaded: bool, now: u64) -> ObservedView {
        ObservedView {
            art_outcome: outcome_after_report(self.art_reference, self.art_outcome, loaded, now),
            ..self
        }
    }

    /// The source that a retry tick asks to fetch again, if a retry is due.
    pub open spec fn retry_request(self, now: u64) -> Option<SourceView> {
        if retry_due(self.art_reference, self.art_outcome, now) {
            Some(source_of(self.art_reference->0))
        } else {
            None
        }
    }

    /// What is remembered once a retry tick has passed. A retry that is asked for counts as
    /// the last attempt from then on, until its own report comes in.
    pub open spec fn after_retry_tick(self, now: u64) -> ObservedView {
        if retry_due(self.art_reference, self.art_outcome, now) {
            ObservedView { art_outcome: ArtOutcome::FailedAt(now), ..self }
        } else {
            self
        }
    }
}

/// What was remembered before any snapshot: what the display shows while idle, no art, and
/// the first load still to come.
pub open spec fn initial_observed() -> ObservedView {
    ObservedView {
        title: "No media playing"@,
        artist: Seq::empty(),
        status: PlayerStatus::Stopped,
        art_reference: None,
        art_outcome: ArtOutcome::NotAttempted,
        initial_load_done: false,
    }
}

/// What a snapshot asks to do about the art.
pub open spec fn art_action(observed: ObservedView, snapshot: MediaInfoView) -> ArtActionView {
    if !observed.force_art_update(snapshot) {
        ArtActionView::Keep
    } else {
        match snapshot.art_url {
            Some(reference) => ArtActionView::Fetch(source_of(reference)),
            None => ArtActionView::Clear,
        }
    }
}

/// How much a snapshot changes.
pub open spec fn update_class(observed: ObservedView, snapshot: MediaInfoView) -> UpdateClass {
    if observed.force_art_update(snapshot) {
        UpdateClass::Forced
    } else if observed.history_due(snapshot) {
        UpdateClass::Incremental
    } else {
        UpdateClass::NoOp
    }
}

/// The history entry for a snapshot seen at `now`.
pub open spec fn entry_for(snapshot: MediaInfoView, now: u64) -> EntryView {
    EntryView {
        status: snapshot.status,
        title: snapshot.title,
        artist: snapshot.artist,
        observed_at: now,
    }
}

/// The side effects that a snapshot seen at `now` asks for.
pub open spec fn update_for(observed: ObservedView, snapshot: MediaInfoView, now: u64)
    -> UpdateView {
    UpdateView {
        class: update_class(observed, snapshot),
        title: snapshot.title,
        artist: snapshot.artist,
        album: snapshot.album,
        artist_visible: snapshot.artist.len() > 0,
        album_visible: snapshot.album.len() > 0,
        paused: snapshot.status.halted(),
        progress: ratio_of(snapshot.position, snapshot.length),
        art: art_action(observed, snapshot),
        history_entry: if observed.history_due(snapshot) {
            Some(entry_for(snapshot, now))
        } else {
            None
        },
    }
}

/// One thing that happens to the engine.
pub enum Event {
    /// A snapshot arrives at the given time.
    Snapshot(MediaInfoView, u64),
    /// A fetch is reported at the given time as loaded or failed.
    ArtFetched(bool, u64),
    /// The retry timer ticks at the given time.
    RetryTick(u64),
}

/// The mathematical value of a [`ReconciliationEngine`].
pub struct EngineView {
    pub observed: ObservedView,
    /// Newest first.
    pub history: Seq<EntryView>,
}

impl EngineView {
    pub open spec fn after_snapshot(self, snapshot: MediaInfoView, now: u64) -> EngineView {
        EngineView {
            observed: self.observed.after_snapshot(snapshot),
            history: if self.observed.history_due(snapshot) {
                recorded(self.history, entry_for(snapshot, now))
            } else {
                self.history
            },
        }
    }

    pub open spec fn after_report(self, loaded: bool, now: u64) -> EngineView {
        EngineView { observed: self.observed.after_report(loaded, now), ..self }
    }

    pub open spec fn after_retry_tick(self, now: u64) -> EngineView {
        EngineView { observed: self.observed.after_retry_tick(now), ..self }
    }

    pub open spec fn after_event(self, event: Event) -> EngineView {
        match event {
            Event::Snapshot(snapshot, now) => self.after_snapshot(snapshot, now),
            Event::ArtFetched(loaded, now) => self.after_report(loaded, now),
            Event::RetryTick(now) => self.after_retry_tick(now),
        }
    }

    /// Whether the event appends to the history.
    pub open spec fn appends_on(self, event: Event) -> bool {
        event matches Event::Snapshot(snapshot, _) && self.observed.history_due(snapshot)
    }

    /// Whether the event is a snapshot that asks for a fetch of the art.
    pub open spec fn fetches_on(self, event: Event) -> bool {
        event matches Event::Snapshot(snapshot, _) && art_action(self.observed, snapshot)
            is Fetch
    }
}

/// The engine after a run of events, first to last.
pub open spec fn after_events(engine: EngineView, events: Seq<Event>) -> EngineView
    decreases events.len(),
{
    if events.len() == 0 {
        engine
    } else {
        after_events(engine.after_event(events[0]), events.drop_first())
    }
}

/// How many history entries a run of events appends.
pub open spec fn history_appends(engine: EngineView, events: Seq<Event>) -> nat
    decreases events.len(),
{
    if events.len() == 0 {
        0
    } else {
        let here: nat = if engine.appends_on(events[0]) {
            1
        } else {
            0
        };
        here + history_appends(engine.after_event(events[0]), events.drop_first())
    }
}

/// How many fetches of the art the snapshots in a run of events ask for.
pub open spec fn snapshot_fetches(engine: EngineView, events: Seq<Event>) -> nat
    decreases events.len(),
{
    if events.len() == 0 {
        0
    } else {
        let here: nat = if engine.fetches_on(events[0]) {
            1
        } else {
            0
        };
        here + snapshot_fetches(engine.after_event(events[0]), events.drop_first())
    }
}

/// Whether an event, if it is a snapshot, has the identity that was observed last.
pub open spec fn keeps_identity(observed: ObservedView, event: Event) -> bool {
    event matches Event::Snapshot(snapshot, _) ==> observed.same_identity(snapshot)
}

/// The memory of the session together with the history of what was played.
pub struct ReconciliationEngine {
    observed: ObservedState,
    history: History,
}

impl View for ReconciliationEngine {
    type V = EngineView;

    closed spec fn view(&self) -> EngineView {
        EngineView { observed: self.observed@, history: self.history@ }
    }
}

impl ReconciliationEngine {
    /// An engine that has seen nothing yet.
    pub fn new() -> (engine: ReconciliationEngine)
        ensures
            engine@ == (EngineView { observed: initial_observed(), history: Seq::empty() }),
    {
        ReconciliationEngine {
            observed: ObservedState {
                title: "No media playing".to_owned(),
                artist: String::new(),
                status: PlayerStatus::Stopped,
                art_reference: None,
                art_outcome: ArtOutcome::NotAttempted,
                initial_load_done: false,
            },
            history: History::new(),
        }
    }

    /// What the engine remembers of the session.
    pub fn observed(&self) -> (observed: &ObservedState)
        ensures
            observed@ == self@.observed,
    {
        &self.observed
    }

    /// The history of what was played, newest first.
    pub fn history(&self) -> (history: &History)
        ensures
            history@ == self@.history,
    {
        &self.history
    }

    /// Takes in one snapshot, seen at `now`: says what it changes and remembers it.
    pub fn reconcile(&mut self, info: &MediaInfo, now: u64) -> (update: Update)
        ensures
            update@ == update_for(old(self)@.observed, info@, now),
            final(self)@ == old(self)@.after_snapshot(info@, now),
    {
        let title_changed = !(info.title == self.observed.title);
        let artist_changed = !(info.artist == self.observed.artist);
        let status_changed = info.status != self.observed.status;
        let url_changed = !same_opt_text(&info.art_url, &self.observed.art_reference);
        let force = !self.observed.initial_load_done || url_changed || title_changed
            || artist_changed;
        let history_due = status_changed || title_changed || artist_changed;

        let art = if force {
            match &info.art_url {
                Some(reference) => ArtAction::Fetch(art_source(reference.as_str())),
                None => ArtAction::Clear,
            }
        } else {
            ArtAction::Keep
        };
        let class = if force {
            UpdateClass::Forced
        } else if history_due {
            UpdateClass::Incremental
        } else {
            UpdateClass::NoOp
        };
        let history_entry = if history_due {
            let entry = HistoryEntry {
                status: info.status,
                title: info.title.clone(),
                artist: info.artist.clone(),
                observed_at: now,
            };
            self.history.record(entry.clone());
            Some(entry)
        } else {
            None
        };

        self.observed.title = info.title.clone();
        self.observed.artist = info.artist.clone();
        self.observed.status = info.status;
        self.observed.art_reference = copy_opt_text(&info.art_url);
        if force {
            self.observed.art_outcome = ArtOutcome::NotAttempted;
        }
        self.observed.initial_load_done = true;

        Update {
            class,
            title: info.title.clone(),
            artist: info.artist.clone(),
            album: info.album.clone(),
            artist_visible: !info.artist.as_str().is_empty(),
            album_visible: !info.album.as_str().is_empty(),
            paused: info.status.is_halted(),
            progress: progress_ratio(info.position, info.length),
            art,
            history_entry,
        }
    }

    /// Records how the fetch went that the last update or retry asked for.
    pub fn art_fetched(&mut self, loaded: bool, now: u64)
        ensures
            final(self)@ == old(self)@.after_report(loaded, now),
    {
        if self.observed.art_reference.is_some() && self.observed.art_outcome
            != ArtOutcome::Loaded {
            self.observed.art_outcome = if loaded {
                ArtOutcome::Loaded
            } else {
                ArtOutcome::FailedAt(now)
            };
        }
    }

    /// One tick of the retry timer at `now`: the source to fetch again where a retry is due.
    pub fn retry_tick(&mut self, now: u64) -> (again: Option<ArtSource>)
        ensures
            match again {
                Some(source) => Some(source@),
                None => None,
            } == old(self)@.observed.retry_request(now),
            final(self)@ == old(self)@.after_retry_tick(now),
    {
        if is_retry_due(&self.observed.art_reference, self.observed.art_outcome, now) {
            self.observed.art_outcome = ArtOutcome::FailedAt(now);
            match &self.observed.art_reference {
                Some(reference) => Some(art_source(reference.as_str())),
                None => None,
            }
        } else {
            None
        }
    }
}

/// On the first load the art is dealt with anew, whether or not the reference, the title or
/// the artist differ from what is remembered. With that the first load is done.
pub proof fn first_snapshot_forces_art(observed: ObservedView, snapshot: MediaInfoView)
    requires
        !observed.initial_load_done,
    ensures
        observed.force_art_update(snapshot),
        update_class(observed, snapshot) == UpdateClass::Forced,
        art_action(observed, snapshot) !is Keep,
        observed.after_snapshot(snapshot).initial_load_done,
{
}

/// As long as the snapshots keep the title, artist, art reference and playback state that
/// were observed last, the history stays as it is, and at most one snapshot asks for the art:
/// the first one, if the first load was still to come. Once the first load is done, none does.
/// Reports and retry ticks in between change nothing about that.
pub proof fn unchanged_snapshots_are_quiet(engine: EngineView, events: Seq<Event>)
    requires
        forall|i: int|
            0 <= i < events.len() ==> keeps_identity(engine.observed, #[trigger] events[i]),
    ensures
        history_appends(engine, events) == 0,
        after_events(engine, events).history == engine.history,
        snapshot_fetches(engine, events) <= 1,
        engine.observed.initial_load_done ==> snapshot_fetches(engine, events) == 0,
    decreases events.len(),
{
    if events.len() > 0 {
        let next = engine.after_event(events[0]);
        let rest = events.drop_first();
        assert(keeps_identity(engine.observed, events[0]));
        assert forall|i: int| 0 <= i < rest.len() implies keeps_identity(
            next.observed,
            #[trigger] rest[i],
        ) by {
            assert(rest[i] == events[i + 1]);
            assert(keeps_identity(engine.observed, events[i + 1]));
        }
        unchanged_snapshots_are_quiet(next, rest);
    }
}

/// A snapshot that repeats its predecessor changes nothing: no history entry, nothing done
/// about the art, and the same memory afterwards.
pub proof fn repeated_snapshot_is_a_no_op(
    engine: EngineView,
    snapshot: MediaInfoView,
    first: u64,
    second: u64,
)
    ensures
        ({
            let seen = engine.after_snapshot(snapshot, first);
            &&& update_class(seen.observed, snapshot) == UpdateClass::NoOp
            &&& update_for(seen.observed, snapshot, second).history_entry is None
            &&& update_for(seen.observed, snapshot, second).art == ArtActionView::Keep
            &&& seen.after_snapshot(snapshot, second) == seen
        }),
{
}

/// A snapshot goes into the history exactly when the playback state, the title or the artist
/// differs, and then as the newest entry; the history never outgrows its capacity.
pub proof fn history_follows_changes(engine: EngineView, snapshot: MediaInfoView, now: u64)
    requires
        engine.history.len() <= crate::history::HISTORY_CAPACITY,
    ensures
        engine.after_snapshot(snapshot, now).history.len() <= crate::history::HISTORY_CAPACITY,
        engine.observed.history_due(snapshot) ==> engine.after_snapshot(snapshot, now).history[0]
            == entry_for(snapshot, now),
        !engine.observed.history_due(snapshot) ==> engine.after_snapshot(snapshot, now).history
            == engine.history,
        update_for(engine.observed, snapshot, now).history_entry is Some
            <==> engine.observed.history_due(snapshot),
{
}

/// A reference that goes away is cleared from the display without a fetch, and that alone
/// puts nothing into the history.
pub proof fn vanished_art_is_cleared(observed: ObservedView, snapshot: MediaInfoView)
    requires
        observed.art_reference is Some,
        snapshot.art_url is None,
    ensures
        art_action(observed, snapshot) == ArtActionView::Clear,
        observed.after_snapshot(snapshot).art_reference is None,
        !observed.status_changed(snapshot) && !observed.title_changed(snapshot)
            && !observed.artist_changed(snapshot) ==> !observed.history_due(snapshot),
{
}

/// A fetch that is reported as failed at some time is asked for again by the first retry tick
/// that comes a whole retry interval later, and by none before.
pub proof fn failed_fetch_is_retried_after_the_interval(
    observed: ObservedView,
    failed: u64,
    now: u64,
)
    requires
        observed.art_reference is Some,
        observed.art_outcome != ArtOutcome::Loaded,
    ensures
        observed.after_report(false, failed).art_outcome == ArtOutcome::FailedAt(failed),
        observed.after_report(false, failed).retry_request(now) is Some <==> now >= failed
            + RETRY_INTERVAL_MS,
        observed.after_report(false, failed).retry_request(now) is Some
            ==> observed.after_report(false, failed).retry_request(now) == Some(
            source_of(observed.art_reference->0),
        ),
{
}

/// Once a retry has been asked for, no further one is asked for until a whole retry interval
/// has passed, reported or not.
pub proof fn retries_keep_their_distance(observed: ObservedView, asked: u64, now: u64)
    requires
        observed.retry_request(asked) is Some,
        now < asked + RETRY_INTERVAL_MS,
    ensures
        observed.after_retry_tick(asked).retry_request(now) is None,
        forall|loaded: bool, reported: u64|
            asked <= reported ==> observed.after_retry_tick(asked).after_report(
                loaded,
                reported,
            ).retry_request(now) is None,
{
}

/// The art that was loaded is left alone: neither a report nor a retry tick moves it, until
/// a snapshot forces the art anew.
pub proof fn loaded_art_is_settled(observed: ObservedView, loaded: bool, now: u64)
    requires
        observed.art_outcome == ArtOutcome::Loaded,
    ensures
        observed.after_report(loaded, now) == observed,
        observed.after_retry_tick(now) == observed,
        observed.retry_request(now) is None,
{
}

} // verus!
