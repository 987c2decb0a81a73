//! Control commands, and the client that queues them for the dispatcher.
//!
//! [`MprisClient`] is the one piece of state that the user interface and the dispatcher share:
//! the preference that steers resolution, and the commands that wait to be applied. Commands
//! leave in the order in which they arrived, one per dispatcher tick, and each leaves once. What
//! the caller gets back from a submission is only whether the command was queued; its effect
//! shows in a later snapshot.

use std::collections::VecDeque;
use vstd::prelude::*;
use crate::preference::{PlayerPreference, PreferenceView, preference_of, protocol_outcome};
use crate::text::opt_chars;

verus! {

/// Milliseconds that the dispatcher sleeps between two ticks.
pub const DISPATCH_INTERVAL_MS: u64 = 100;

/// Microseconds that one seek step moves the playback position by.
pub const SEEK_STEP_MICROS: i64 = 5_000_000;

/// One control action on a session. A seek carries a signed offset in microseconds.
#[derive(Clone, Copy, Debug, PartialEq, Eq, Structural)]
pub enum Command {
    PlayPause,
    Next,
    Previous,
    Seek(i64),
}

/// Why a command could not be queued.
#[derive(Clone, Copy, Debug, PartialEq, Eq, Structural)]
pub enum CommandError {
    /// The dispatcher that consumes the queue is gone.
    ConsumerGone,
}

impl CommandError {
    /// A sentence that says what went wrong.
    pub fn message(&self) -> (text: String)
        ensures
            text@ == "the command dispatcher is gone"@,
    {
        match self {
            CommandError::ConsumerGone => "the command dispatcher is gone".to_owned(),
        }
    }
}

/// The preference and the queue of pending commands.
pub struct MprisClient {
    pending: VecDeque<Command>,
    preference: PlayerPreference,
    consumer_alive: bool,
}

/// The mathematical value of an [`MprisClient`]: the pending commands, oldest first, the
/// preference, and whether the dispatcher still consumes.
pub struct ClientView {
    pub pending: Seq<Command>,
    pub preference: PreferenceView,
    pub consumer_alive: bool,
}

impl View for MprisClient {
    type V = ClientView;

    closed spec fn view(&self) -> ClientView {
        ClientView {
            pending: self.pending@,
            preference: self.preference@,
            consumer_alive: self.consumer_alive,
        }
    }
}

/// The client once the named player is preferred, or the active one where no name is given.
/// Nothing else about it changes.
pub open spec fn with_preferred_player(client: ClientView, name: Option<Seq<char>>) -> ClientView {
    ClientView { preference: preference_of(name), ..client }
}

/// The client after a command was submitted: queued last while the dispatcher lives,
/// unchanged once it is gone.
pub open spec fn after_submit(client: ClientView, command: Command) -> ClientView {
    if client.consumer_alive {
        ClientView { pending: client.pending.push(command), ..client }
    } else {
        client
    }
}

/// What a submission reports: success exactly while the dispatcher lives.
pub open spec fn submit_result(client: ClientView) -> Result<(), CommandError> {
    if client.consumer_alive {
        Ok(())
    } else {
        Err(CommandError::ConsumerGone)
    }
}

/// The client after one dispatcher tick: the oldest pending command, if any, has left.
pub open spec fn after_tick(client: ClientView) -> ClientView {
    if client.pending.len() > 0 {
        ClientView { pending: client.pending.drop_first(), ..client }
    } else {
        client
    }
}

/// The command that one dispatcher tick applies: the oldest pending one, provided a session
/// is resolved. Without a session the command is dropped.
pub open spec fn applied_by_tick(client: ClientView, session_resolved: bool) -> Option<Command> {
    if client.pending.len() > 0 && session_resolved {
        Some(client.pending[0])
    } else {
        None
    }
}

/// The client after `count` dispatcher ticks.
pub open spec fn after_ticks(client: ClientView, count: nat) -> ClientView
    decreases count,
{
    if count == 0 {
        client
    } else {
        after_ticks(after_tick(client), (count - 1) as nat)
    }
}

impl MprisClient {
    /// A client with nothing pending, no preferred player, and a live dispatcher.
    pub fn new() -> (client: MprisClient)
        ensures
            client@ == (ClientView {
                pending: Seq::empty(),
                preference: PreferenceView::Auto,
                consumer_alive: true,
            }),
    {
        MprisClient {
            pending: VecDeque::new(),
            preference: PlayerPreference::Auto,
            consumer_alive: true,
        }
    }

    /// Follows the named player from now on, or the active one where no name is given.
    pub fn set_preferred_player(&mut self, player_name: Option<String>)
        ensures
            final(self)@ == with_preferred_player(old(self)@, opt_chars(player_name)),
    {
        self.preference = PlayerPreference::from_selection(player_name);
    }

    /// Steers resolution by the given preference from now on.
    pub fn set_preference(&mut self, preference: PlayerPreference)
        ensures
            final(self)@ == (ClientView { preference: preference@, ..old(self)@ }),
    {
        self.preference = preference;
    }

    /// A copy of the current preference, for one resolution.
    pub fn preferred_player(&self) -> (preference: PlayerPreference)
        ensures
            preference@ == self@.preference,
    {
        self.preference.clone()
    }

    /// How many commands wait to be dispatched.
    pub fn pending_len(&self) -> (count: usize)
        ensures
            count == self@.pending.len(),
    {
        self.pending.len()
    }

    /// Whether the dispatcher still consumes the queue.
    pub fn consumer_alive(&self) -> (alive: bool)
        ensures
            alive == self@.consumer_alive,
    {
        self.consumer_alive
    }

    /// Queues a command behind those already pending. Fails, and queues nothing, once the
    /// dispatcher is gone.
    pub fn submit_command(&mut self, command: Command) -> (sent: Result<(), CommandError>)
        ensures
            sent == submit_result(old(self)@),
            final(self)@ == after_submit(old(self)@, command),
    {
        if self.consumer_alive {
            self.pending.push_back(command);
            Ok(())
        } else {
            Err(CommandError::ConsumerGone)
        }
    }

    /// Asks the session to toggle between playing and paused.
    pub fn play_pause(&mut self) -> (sent: Result<(), CommandError>)
        ensures
            sent == submit_result(old(self)@),
            final(self)@ == after_submit(old(self)@, Command::PlayPause),
    {
        self.submit_command(Command::PlayPause)
    }

    /// Asks the session to skip to the next track.
    pub fn next(&mut self) -> (sent: Result<(), CommandError>)
        ensures
            sent == submit_result(old(self)@),
            final(self)@ == after_submit(old(self)@, Command::Next),
    {
        self.submit_command(Command::Next)
    }

    /// Asks the session to go back to the previous track.
    pub fn previous(&mut self) -> (sent: Result<(), CommandError>)
        ensures
            sent == submit_result(old(self)@),
            final(self)@ == after_submit(old(self)@, Command::Previous),
    {
        self.submit_command(Command::Previous)
    }

    /// Asks the session to move the playback position by a signed number of microseconds.
    pub fn seek(&mut self, offset_micros: i64) -> (sent: Result<(), CommandError>)
        ensures
            sent == submit_result(old(self)@),
            final(self)@ == after_submit(old(self)@, Command::Seek(offset_micros)),
    {
        self.submit_command(Command::Seek(offset_micros))
    }

    /// One dispatcher tick: takes at most one pending command off the queue and hands it out
    /// for the resolved session. Where no session is resolved the command is dropped.
    pub fn dispatch_tick(&mut self, session_resolved: bool) -> (apply: Option<Command>)
        ensures
            apply == applied_by_tick(old(self)@, session_resolved),
            final(self)@ == after_tick(old(self)@),
    {
        match self.pending.pop_front() {
            Some(command) => {
                if session_resolved {
                    Some(command)
                } else {
                    None
                }
            },
            None => None,
        }
    }

    /// Records that the dispatcher has stopped consuming. What was still pending is lost, and
    /// every later submission fails.
    pub fn consumer_dropped(&mut self)
        ensures
            final(self)@ == (ClientView {
                pending: Seq::empty(),
                consumer_alive: false,
                ..old(self)@
            }),
    {
        self.pending.clear();
        self.consumer_alive = false;
    }

    /// The players to offer for selection: the enumerated identities, or none where the
    /// enumeration failed.
    pub fn get_available_players(listing: Option<Vec<String>>) -> (players: Vec<String>)
        ensures
            match listing {
                Some(found) => players@ == found@,
                None => players@.len() == 0,
            },
    {
        match listing {
            Some(found) => found,
            None => Vec::new(),
        }
    }
}

/// A submitted command waits behind everything that was pending before it, and is the one
/// that leaves on the tick after those have left.
pub proof fn commands_leave_in_order(client: ClientView, command: Command)
    requires
        client.consumer_alive,
    ensures
        after_ticks(after_submit(client, command), client.pending.len()).pending == seq![command],
        applied_by_tick(after_ticks(after_submit(client, command), client.pending.len()), true)
            == Some(command),
    decreases client.pending.len(),
{
    let queued = after_submit(client, command);
    if client.pending.len() == 0 {
        assert(queued.pending =~= seq![command]);
    } else {
        let rest = after_tick(client);
        assert(after_tick(queued) == after_submit(rest, command)) by {
            assert(after_tick(queued).pending =~= rest.pending.push(command));
        }
        commands_leave_in_order(rest, command);
    }
}

/// A newly preferred player steers the very next resolution. If no player of that name is
/// there, the resolution gives the active session, and nothing where none is active; it never
/// fails.
pub proof fn preference_steers_the_next_resolution<S>(
    client: ClientView,
    name: Seq<char>,
    by_name: spec_fn(Seq<char>) -> Option<S>,
    active: Option<S>,
)
    ensures
        with_preferred_player(client, Some(name)).preference == PreferenceView::Named(name),
        by_name(name) is None ==> protocol_outcome(
            with_preferred_player(client, Some(name)).preference,
            by_name,
            active,
        ) == active,
        by_name(name) is Some ==> protocol_outcome(
            with_preferred_player(client, Some(name)).preference,
            by_name,
            active,
        ) == by_name(name),
        protocol_outcome(with_preferred_player(client, None).preference, by_name, active)
            == active,
{
}

/// A tick takes at most one command, and it takes one whether or not a session is resolved:
/// a command that meets no session is dropped, not kept for later.
pub proof fn tick_consumes_one(client: ClientView, session_resolved: bool)
    ensures
        after_tick(client).pending.len() == if client.pending.len() > 0 {
            client.pending.len() - 1
        } else {
            0
        },
        !session_resolved ==> applied_by_tick(client, session_resolved) is None,
        after_tick(client).preference == client.preference,
{
}

} // verus!
