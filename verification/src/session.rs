//! The media session that the desktop shows: its state as plain values, the
//! effect of each command on it, and the commands that its controls send.

use crate::command::{optional_text, texts, Command, CommandView, PlaybackStatus, UpdateView};
use std::collections::VecDeque;
use vstd::prelude::*;

verus! {

/// Name under which the session is announced.
pub const SESSION_NAME: &'static str = "Firefox";

/// What the session says it is.
pub const SESSION_DESCRIPTION: &'static str = "Firefox media integration";

/// The desktop entry that the session belongs to.
pub const SESSION_DESKTOP_ENTRY: &'static str = "firefox";

/// What the session tells about the current track.
#[derive(Clone, Debug, PartialEq, Eq)]
pub struct Metadata {
    pub title: Option<String>,
    pub artist: Option<Vec<String>>,
    pub art_url: Option<String>,
    pub length: Option<i64>,
    pub track_number: Option<i32>,
}

/// The state of the media session.
#[derive(Clone, Debug, PartialEq, Eq)]
pub struct Session {
    pub metadata: Metadata,
    pub status: PlaybackStatus,
    pub can_raise: bool,
    pub can_seek: bool,
    pub can_go_next: bool,
    pub can_go_previous: bool,
    pub can_play: bool,
    pub can_pause: bool,
    pub can_set_fullscreen: bool,
}

/// A control of the desktop's media widget that the user worked.
#[derive(Clone, Copy, Debug, PartialEq, Eq, Structural)]
pub enum Signal {
    Play,
    Pause,
    PlayPause,
    Previous,
    Next,
    Raise,
}

/// What became of a command that reached the session.
#[derive(Clone, Copy, Debug, PartialEq, Eq, Structural)]
pub enum Outcome {
    /// An `Update`: the session now shows it.
    Applied,
    /// Any other command: the browser should not have sent it, and the
    /// session is as it was.
    Unexpected,
}

/// Track metadata as mathematical values.
pub struct MetadataView {
    pub title: Option<Seq<char>>,
    pub artist: Option<Seq<Seq<char>>>,
    pub art_url: Option<Seq<char>>,
    pub length: Option<i64>,
    pub track_number: Option<i32>,
}

/// The session's state as mathematical values.
pub struct SessionView {
    pub metadata: MetadataView,
    pub status: PlaybackStatus,
    pub can_raise: bool,
    pub can_seek: bool,
    pub can_go_next: bool,
    pub can_go_previous: bool,
    pub can_play: bool,
    pub can_pause: bool,
    pub can_set_fullscreen: bool,
}

impl View for Metadata {
    type V = MetadataView;

    open spec fn view(&self) -> MetadataView {
        MetadataView {
            title: optional_text(self.title),
            artist: match self.artist {
                Some(list) => Some(texts(list@)),
                None => None,
            },
            art_url: optional_text(self.art_url),
            length: self.length,
            track_number: self.track_number,
        }
    }
}

impl View for Session {
    type V = SessionView;

    open spec fn view(&self) -> SessionView {
        SessionView {
            metadata: self.metadata@,
            status: self.status,
            can_raise: self.can_raise,
            can_seek: self.can_seek,
            can_go_next: self.can_go_next,
            can_go_previous: self.can_go_previous,
            can_play: self.can_play,
            can_pause: self.can_pause,
            can_set_fullscreen: self.can_set_fullscreen,
        }
    }
}

/// The session before the browser has reported anything: no metadata,
/// paused, every control disabled.
pub open spec fn initial() -> SessionView {
    SessionView {
        metadata: MetadataView {
            title: None,
            artist: None,
            art_url: None,
            length: None,
            track_number: None,
        },
        status: PlaybackStatus::Paused,
        can_raise: false,
        can_seek: false,
        can_go_next: false,
        can_go_previous: false,
        can_play: false,
        can_pause: false,
        can_set_fullscreen: false,
    }
}

/// The session after an update: metadata, status and the four transport
/// controls come from the update, whatever they were; the rest stays.
pub open spec fn updated(session: SessionView, update: UpdateView) -> SessionView {
    SessionView {
        metadata: MetadataView {
            title: Some(update.title),
            artist: Some(update.artists),
            art_url: update.art_url,
            length: Some(0i64),
            track_number: Some(0i32),
        },
        status: update.status,
        can_go_next: update.can_go_next,
        can_go_previous: update.can_go_previous,
        can_play: update.can_play,
        can_pause: update.can_pause,
        ..session
    }
}

/// The session after one command: an `Update` is applied, any other command
/// leaves the session as it was.
pub open spec fn dispatched(session: SessionView, command: CommandView) -> SessionView {
    match command {
        CommandView::Update(update) => updated(session, update),
        _ => session,
    }
}

/// The session after a run of commands, each applied in turn, first to last.
pub open spec fn dispatched_all(session: SessionView, commands: Seq<CommandView>) -> SessionView
    decreases commands.len(),
{
    if commands.len() == 0 {
        session
    } else {
        dispatched_all(dispatched(session, commands[0]), commands.drop_first())
    }
}

/// How many commands of a run are no `Update`.
pub open spec fn unexpected_in(commands: Seq<CommandView>) -> nat
    decreases commands.len(),
{
    if commands.len() == 0 {
        0
    } else if commands[0] is Update {
        unexpected_in(commands.drop_first())
    } else {
        1 + unexpected_in(commands.drop_first())
    }
}

/// The commands of a queue as mathematical values, in the queue's order.
pub open spec fn command_views(queue: Seq<Command>) -> Seq<CommandView> {
    Seq::new(queue.len(), |i: int| queue[i]@)
}

/// The command that a control sends.
pub open spec fn signal_view(signal: Signal) -> CommandView {
    match signal {
        Signal::Play => CommandView::Play,
        Signal::Pause => CommandView::Pause,
        Signal::PlayPause => CommandView::PlayPause,
        Signal::Previous => CommandView::Previous,
        Signal::Next => CommandView::Next,
        Signal::Raise => CommandView::Raise,
    }
}

impl Signal {
    /// The command to send to the browser when this control was worked.
    pub fn command(self) -> (command: Command)
        ensures
            command@ == signal_view(self),
    {
        match self {
            Signal::Play => Command::Play,
            Signal::Pause => Command::Pause,
            Signal::PlayPause => Command::PlayPause,
            Signal::Previous => Command::Previous,
            Signal::Next => Command::Next,
            Signal::Raise => Command::Raise,
        }
    }
}

impl Session {
    /// The session as it is announced at start.
    pub fn new() -> (session: Session)
        ensures
            session@ == initial(),
    {
        Session {
            metadata: Metadata {
                title: None,
                artist: None,
                art_url: None,
                length: None,
                track_number: None,
            },
            status: PlaybackStatus::Paused,
            can_raise: false,
            can_seek: false,
            can_go_next: false,
            can_go_previous: false,
            can_play: false,
            can_pause: false,
            can_set_fullscreen: false,
        }
    }

    /// Applies one command from the browser. An `Update` replaces metadata,
    /// status and the four transport controls; any other command changes
    /// nothing and is reported as unexpected.
    pub fn dispatch(&mut self, command: Command) -> (outcome: Outcome)
        ensures
            final(self)@ == dispatched(old(self)@, command@),
            outcome == if command@ is Update {
                Outcome::Applied
            } else {
                Outcome::Unexpected
            },
    {
        match command {
            Command::Update {
                status,
                title,
                artists,
                art_url,
                can_go_next,
                can_go_previous,
                can_play,
                can_pause,
            } => {
                self.metadata = Metadata {
                    title: Some(title),
                    artist: Some(artists),
                    art_url,
                    length: Some(0),
                    track_number: Some(0),
                };
                self.status = status;
                self.can_go_next = can_go_next;
                self.can_go_previous = can_go_previous;
                self.can_pause = can_pause;
                self.can_play = can_play;
                Outcome::Applied
            },
            _ => Outcome::Unexpected,
        }
    }

    /// Applies every command that waits in the queue, oldest first, and
    /// leaves the queue empty. Returns how many of them were unexpected.
    pub fn drain(&mut self, queue: &mut VecDeque<Command>) -> (unexpected: usize)
        ensures
            final(queue)@.len() == 0,
            final(self)@ == dispatched_all(old(self)@, command_views(old(queue)@)),
            unexpected == unexpected_in(command_views(old(queue)@)),
    {
        let total: usize = queue.len();
        let mut unexpected: usize = 0;
        let ghost taken: nat = 0;
        loop
            invariant
                total == old(queue)@.len(),
                taken + queue@.len() == old(queue)@.len(),
                unexpected <= taken,
                dispatched_all(self@, command_views(queue@)) == dispatched_all(
                    old(self)@,
                    command_views(old(queue)@),
                ),
                unexpected + unexpected_in(command_views(queue@)) == unexpected_in(
                    command_views(old(queue)@),
                ),
            decreases queue@.len(),
        {
            let ghost before = queue@;
            match queue.pop_front() {
                None => {
                    return unexpected;
                },
                Some(command) => {
                    assert(command_views(queue@) =~= command_views(before).drop_first());
                    assert(command_views(before)[0] == command@);
                    proof {
                        taken = taken + 1;
                    }
                    match self.dispatch(command) {
                        Outcome::Applied => {},
                        Outcome::Unexpected => {
                            unexpected += 1;
                        },
                    }
                },
            }
        }
    }
}

/// Commands take effect in the order in which they arrive: to apply a run
/// and then another is to apply the two of them end to end, and nothing is
/// left out or moved.
pub proof fn lemma_dispatch_in_order(
    session: SessionView,
    first: Seq<CommandView>,
    then_on: Seq<CommandView>,
)
    ensures
        dispatched_all(session, first + then_on) == dispatched_all(
            dispatched_all(session, first),
            then_on,
        ),
    decreases first.len(),
{
    if first.len() == 0 {
        assert(first + then_on =~= then_on);
    } else {
        assert((first + then_on).drop_first() =~= first.drop_first() + then_on);
        lemma_dispatch_in_order(dispatched(session, first[0]), first.drop_first(), then_on);
    }
}

/// After an update the four transport controls, the status and the metadata
/// are those of the update, whatever the session held and whatever commands
/// came before.
pub proof fn lemma_update_decides(
    session: SessionView,
    earlier: Seq<CommandView>,
    update: UpdateView,
)
    ensures
        ({
            let after = dispatched_all(session, earlier.push(CommandView::Update(update)));
            &&& after.can_go_next == update.can_go_next
            &&& after.can_go_previous == update.can_go_previous
            &&& after.can_play == update.can_play
            &&& after.can_pause == update.can_pause
            &&& after.status == update.status
            &&& after.metadata.title == Some(update.title)
            &&& after.metadata.artist == Some(update.artists)
            &&& after.metadata.art_url == update.art_url
        }),
{
    let last = seq![CommandView::Update(update)];
    assert(earlier.push(CommandView::Update(update)) =~= earlier + last);
    lemma_dispatch_in_order(session, earlier, last);
    let before = dispatched_all(session, earlier);
    assert(last.drop_first() =~= Seq::<CommandView>::empty());
    assert(dispatched_all(before, last) == dispatched_all(
        dispatched(before, last[0]),
        last.drop_first(),
    ));
}

} // verus!
