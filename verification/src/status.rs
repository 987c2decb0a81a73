//! Playback state of a media session, and how the play button shows it.

use vstd::prelude::*;

verus! {

/// What a session is doing right now.
#[derive(Clone, Copy, Debug, PartialEq, Eq, Structural)]
pub enum PlayerStatus {
    Stopped,
    Playing,
    Paused,
}

/// The style classes that the play button swaps when playback starts or halts.
#[derive(Clone, Copy, Debug, PartialEq, Eq)]
pub struct ButtonStyle {
    /// The class to put on the button.
    pub add: &'static str,
    /// The class to take off it.
    pub remove: &'static str,
}

impl PlayerStatus {
    /// Whether the controls show the session as halted: everything but `Playing`.
    pub open spec fn halted(self) -> bool {
        self != PlayerStatus::Playing
    }

    /// Whether the controls show the session as halted: everything but `Playing`.
    pub fn is_halted(&self) -> (halted: bool)
        ensures
            halted == self.halted(),
    {
        match self {
            PlayerStatus::Playing => false,
            _ => true,
        }
    }
}

impl Default for PlayerStatus {
    fn default() -> (status: PlayerStatus)
        ensures
            status == PlayerStatus::Stopped,
    {
        PlayerStatus::Stopped
    }
}

/// The icon on the play button: it offers to start playback while halted, and to pause it
/// while playing.
pub open spec fn icon_for(paused: bool) -> Seq<char> {
    if paused {
        "media-playback-start-symbolic"@
    } else {
        "media-playback-pause-symbolic"@
    }
}

/// The name of the icon on the play button.
pub fn icon_name(paused: bool) -> (name: &'static str)
    ensures
        name@ == icon_for(paused),
{
    if paused {
        "media-playback-start-symbolic"
    } else {
        "media-playback-pause-symbolic"
    }
}

/// The highlight of the play button: the suggested action while halted, the accent colour
/// while playing. Each takes the place of the other.
pub fn button_style(paused: bool) -> (style: ButtonStyle)
    ensures
        paused ==> style.add@ == "suggested-action"@ && style.remove@ == "accent"@,
        !paused ==> style.add@ == "accent"@ && style.remove@ == "suggested-action"@,
{
    if paused {
        ButtonStyle { add: "suggested-action", remove: "accent" }
    } else {
        ButtonStyle { add: "accent", remove: "suggested-action" }
    }
}

} // verus!
