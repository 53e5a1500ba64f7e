//! Hardware media keys: which keyboard event becomes which command, and what
//! becomes of a command that arrives where no media session is exposed.

use crate::command::{Command, CommandView};
use vstd::prelude::*;

verus! {

/// The keyboard event "a key went down".
pub const WM_KEYDOWN: u32 = 0x0100;

/// Virtual-key code of the "next track" key.
pub const VK_MEDIA_NEXT_TRACK: u32 = 0xB0;

/// Virtual-key code of the "previous track" key.
pub const VK_MEDIA_PREV_TRACK: u32 = 0xB1;

/// Virtual-key code of the "stop" key.
pub const VK_MEDIA_STOP: u32 = 0xB2;

/// Virtual-key code of the "play/pause" key.
pub const VK_MEDIA_PLAY_PAUSE: u32 = 0xB3;

/// What the hook hands back so that the system goes on handling the key.
pub const PASS_THROUGH: isize = 0;

/// What became of a command that the browser sent.
#[derive(Clone, Copy, Debug, PartialEq, Eq, Structural)]
pub enum Disposition {
    /// An `Update`: taken, and applied to nothing.
    Accepted,
    /// Any other command: the browser should not have sent it.
    Unexpected,
}

/// The command that a keyboard event stands for, if any: only a key going
/// down counts, and of the media keys only play/pause, next and previous.
pub open spec fn key_command_of(event: u32, vk_code: u32) -> Option<CommandView> {
    if event != WM_KEYDOWN {
        None
    } else if vk_code == VK_MEDIA_PLAY_PAUSE {
        Some(CommandView::PlayPause)
    } else if vk_code == VK_MEDIA_NEXT_TRACK {
        Some(CommandView::Next)
    } else if vk_code == VK_MEDIA_PREV_TRACK {
        Some(CommandView::Previous)
    } else {
        None
    }
}

/// Turns a keyboard event into the command to send to the browser. The
/// stop key, every other key and every event but "key down" give none.
pub fn key_command(event: u32, vk_code: u32) -> (command: Option<Command>)
    ensures
        command is Some <==> key_command_of(event, vk_code) is Some,
        command is Some ==> command->Some_0@ == key_command_of(event, vk_code)->Some_0,
{
    if event != WM_KEYDOWN {
        return None;
    }
    if vk_code == VK_MEDIA_PLAY_PAUSE {
        Some(Command::PlayPause)
    } else if vk_code == VK_MEDIA_STOP {
        None
    } else if vk_code == VK_MEDIA_NEXT_TRACK {
        Some(Command::Next)
    } else if vk_code == VK_MEDIA_PREV_TRACK {
        Some(Command::Previous)
    } else {
        None
    }
}

/// Takes a command from the browser where no media session is exposed: an
/// `Update` is accepted and dropped, anything else is unexpected.
pub fn process_command(command: &Command) -> (disposition: Disposition)
    ensures
        disposition == if command@ is Update {
            Disposition::Accepted
        } else {
            Disposition::Unexpected
        },
{
    match command {
        Command::Update { .. } => Disposition::Accepted,
        _ => Disposition::Unexpected,
    }
}

/// A media key that goes down gives its one command; the same key going up,
/// or any other event, gives none; the stop key gives none.
pub proof fn lemma_key_mapping(event: u32, vk_code: u32)
    ensures
        key_command_of(WM_KEYDOWN, VK_MEDIA_NEXT_TRACK) == Some(CommandView::Next),
        key_command_of(WM_KEYDOWN, VK_MEDIA_PREV_TRACK) == Some(CommandView::Previous),
        key_command_of(WM_KEYDOWN, VK_MEDIA_PLAY_PAUSE) == Some(CommandView::PlayPause),
        key_command_of(event, VK_MEDIA_STOP) is None,
        event != WM_KEYDOWN ==> key_command_of(event, vk_code) is None,
        key_command_of(event, vk_code) is Some ==> !(key_command_of(event, vk_code)->Some_0
            is Update),
{
}

} // verus!
