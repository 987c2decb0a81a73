//! What the keys and the scroll wheel stand for.

use vstd::prelude::*;
use crate::command::{Command, SEEK_STEP_MICROS};

verus! {

/// The keys that have a meaning.
#[derive(Clone, Copy, Debug, PartialEq, Eq, Structural)]
pub enum Key {
    Q,
    Up,
    Down,
    Left,
    Right,
    Other,
}

/// The modifier keys held while a key is pressed.
#[derive(Clone, Copy, Debug, PartialEq, Eq, Structural)]
pub enum Modifiers {
    /// None at all.
    Plain,
    /// Control and nothing else.
    Control,
    /// Any other combination.
    Other,
}

/// What a key press stands for.
#[derive(Clone, Copy, Debug, PartialEq, Eq, Structural)]
pub enum Shortcut {
    /// Close the window.
    Quit,
    /// Submit this command.
    Send(Command),
    /// Not a shortcut: let the key press go on.
    Pass,
}

/// What a key press stands for: Control+Q quits, the up and the down arrow both toggle
/// playback, the left arrow goes back and the right arrow forward. Arrows count only without
/// modifiers.
pub open spec fn shortcut_of(key: Key, modifiers: Modifiers) -> Shortcut {
    match (key, modifiers) {
        (Key::Q, Modifiers::Control) => Shortcut::Quit,
        (Key::Up, Modifiers::Plain) => Shortcut::Send(Command::PlayPause),
        (Key::Down, Modifiers::Plain) => Shortcut::Send(Command::PlayPause),
        (Key::Left, Modifiers::Plain) => Shortcut::Send(Command::Previous),
        (Key::Right, Modifiers::Plain) => Shortcut::Send(Command::Next),
        _ => Shortcut::Pass,
    }
}

/// What a key press stands for.
pub fn shortcut_for(key: Key, modifiers: Modifiers) -> (shortcut: Shortcut)
    ensures
        shortcut == shortcut_of(key, modifiers),
{
    match modifiers {
        Modifiers::Control => match key {
            Key::Q => Shortcut::Quit,
            _ => Shortcut::Pass,
        },
        Modifiers::Plain => match key {
            Key::Up => Shortcut::Send(Command::PlayPause),
            Key::Down => Shortcut::Send(Command::PlayPause),
            Key::Left => Shortcut::Send(Command::Previous),
            Key::Right => Shortcut::Send(Command::Next),
            _ => Shortcut::Pass,
        },
        Modifiers::Other => Shortcut::Pass,
    }
}

/// The seek offset, in microseconds, for one scroll step: back when scrolling down, forward
/// when scrolling up.
pub open spec fn scroll_offset(scrolling_down: bool) -> int {
    if scrolling_down {
        -5_000_000
    } else {
        5_000_000
    }
}

/// The seek command for one scroll step over the play button.
pub fn seek_for_scroll(scrolling_down: bool) -> (command: Command)
    ensures
        command matches Command::Seek(offset) && offset == scroll_offset(scrolling_down),
{
    if scrolling_down {
        Command::Seek(-SEEK_STEP_MICROS)
    } else {
        Command::Seek(SEEK_STEP_MICROS)
    }
}

} // verus!
