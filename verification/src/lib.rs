//! Synchronisation core of a desktop remote control for media players.
//!
//! The remote follows whichever player is active, or one that the user has pinned, shows what
//! it plays, and sends it play, pause, skip and seek commands. This crate holds the rules of
//! that: everything that decides, nothing that talks to a player, a network or a screen.
//!
//! * [`preference`] resolves the preference to a session, lookup by lookup.
//! * [`command`] queues the user's commands for the dispatcher.
//! * [`snapshot`] turns what a session answers into a snapshot, and [`feed`] carries the
//!   snapshots to their reader.
//! * [`reconcile`] compares each snapshot with what was seen before and says what to redraw,
//!   what to fetch and what to record; [`history`] keeps the record, [`art`] plans the fetches
//!   and their retries, [`progress`] measures the position within the track.
//! * [`choices`], [`controls`] and [`status`] say what the selector, the keys and the play
//!   button stand for.
//!
//! The callers own the clocks. Every time that a function takes is a count of milliseconds
//! from a starting point that the caller keeps to; positions, lengths and seek offsets are
//! microseconds.

pub mod art;
pub mod choices;
pub mod command;
pub mod controls;
pub mod feed;
pub mod history;
pub mod preference;
pub mod progress;
pub mod reconcile;
pub mod snapshot;
pub mod status;
pub mod text;
