//! The closed set of protocol messages and their payload.

use vstd::prelude::*;

verus! {

/// What the player is doing.
#[derive(Clone, Copy, Debug, PartialEq, Eq, Structural)]
pub enum PlaybackStatus {
    Playing,
    Paused,
    Stopped,
}

/// One protocol message. The six plain variants carry nothing; `Update`
/// carries the playback state that the browser reports.
#[derive(Clone, Debug, PartialEq, Eq)]
pub enum Command {
    Play,
    Pause,
    PlayPause,
    Next,
    Previous,
    Raise,
    Update {
        status: PlaybackStatus,
        title: String,
        artists: Vec<String>,
        art_url: Option<String>,
        can_go_next: bool,
        can_go_previous: bool,
        can_play: bool,
        can_pause: bool,
    },
}

/// The payload of an `Update`, as mathematical values.
pub struct UpdateView {
    pub status: PlaybackStatus,
    pub title: Seq<char>,
    pub artists: Seq<Seq<char>>,
    pub art_url: Option<Seq<char>>,
    pub can_go_next: bool,
    pub can_go_previous: bool,
    pub can_play: bool,
    pub can_pause: bool,
}

/// A command as a mathematical value.
pub enum CommandView {
    Play,
    Pause,
    PlayPause,
    Next,
    Previous,
    Raise,
    Update(UpdateView),
}

/// The texts of a list of strings, in the list's order.
pub open spec fn texts(list: Seq<String>) -> Seq<Seq<char>> {
    Seq::new(list.len(), |i: int| list[i]@)
}

/// The text of an optional string.
pub open spec fn optional_text(text: Option<String>) -> Option<Seq<char>> {
    match text {
        Some(t) => Some(t@),
        None => None,
    }
}

impl View for Command {
    type V = CommandView;

    open spec fn view(&self) -> CommandView {
        match *self {
            Command::Play => CommandView::Play,
            Command::Pause => CommandView::Pause,
            Command::PlayPause => CommandView::PlayPause,
            Command::Next => CommandView::Next,
            Command::Previous => CommandView::Previous,
            Command::Raise => CommandView::Raise,
            Command::Update {
                status,
                title,
                artists,
                art_url,
                can_go_next,
                can_go_previous,
                can_play,
                can_pause,
            } => CommandView::Update(
                UpdateView {
                    status,
                    title: title@,
                    artists: texts(artists@),
                    art_url: optional_text(art_url),
                    can_go_next,
                    can_go_previous,
                    can_play,
                    can_pause,
                },
            ),
        }
    }
}

impl CommandView {
    /// The variant's name on the wire.
    pub open spec fn name(self) -> Seq<char> {
        match self {
            CommandView::Play => "Play"@,
            CommandView::Pause => "Pause"@,
            CommandView::PlayPause => "PlayPause"@,
            CommandView::Next => "Next"@,
            CommandView::Previous => "Previous"@,
            CommandView::Raise => "Raise"@,
            CommandView::Update(_) => "Update"@,
        }
    }

    /// Whether the command carries a payload.
    pub open spec fn has_payload(self) -> bool {
        self is Update
    }
}

impl Command {
    /// The name under which the command travels.
    pub fn name(&self) -> (name: &'static str)
        ensures
            name@ == self@.name(),
    {
        match self {
            Command::Play => "Play",
            Command::Pause => "Pause",
            Command::PlayPause => "PlayPause",
            Command::Next => "Next",
            Command::Previous => "Previous",
            Command::Raise => "Raise",
            Command::Update { .. } => "Update",
        }
    }

    /// Whether this is an `Update`, the one command with a payload.
    pub fn is_update(&self) -> (yes: bool)
        ensures
            yes == self@.has_payload(),
    {
        match self {
            Command::Update { .. } => true,
            _ => false,
        }
    }
}

} // verus!
