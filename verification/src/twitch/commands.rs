//! The closed set of commands that a message can stand for.
use crate::twitch::status::TagError;
use vstd::prelude::*;
use vstd::string::*;

verus! {

/// What a message asks for, without its text.
#[derive(Clone, Copy, Debug, PartialEq, Eq, Structural)]
pub enum MessageCommands {
    /// Text to forward to the AI agent.
    StoreChatMessage,
    /// A change of the on-screen theme.
    SetTheme,
    /// A song to queue.
    SetSong,
    /// Anything else.
    Unknown,
}

pub const STORE_CHAT_MESSAGE: &'static str = "STORE_CHAT_MESSAGE";

pub const SET_THEME: &'static str = "SET_THEME";

pub const SET_SONG: &'static str = "SET_SONG";

pub const UNKNOWN: &'static str = "UNKNOWN";

impl MessageCommands {
    /// The tag under which the command is persisted.
    pub open spec fn tag(self) -> Seq<char> {
        match self {
            MessageCommands::StoreChatMessage => STORE_CHAT_MESSAGE@,
            MessageCommands::SetTheme => SET_THEME@,
            MessageCommands::SetSong => SET_SONG@,
            MessageCommands::Unknown => UNKNOWN@,
        }
    }

    /// The command that a tag names, if any.
    pub open spec fn of_tag(tag: Seq<char>) -> Option<MessageCommands> {
        if tag == STORE_CHAT_MESSAGE@ {
            Some(MessageCommands::StoreChatMessage)
        } else if tag == SET_THEME@ {
            Some(MessageCommands::SetTheme)
        } else if tag == SET_SONG@ {
            Some(MessageCommands::SetSong)
        } else if tag == UNKNOWN@ {
            Some(MessageCommands::Unknown)
        } else {
            None
        }
    }

    pub fn to_string(&self) -> (r: String)
        ensures
            r@ == self.tag(),
    {
        match self {
            MessageCommands::StoreChatMessage => String::from_str(STORE_CHAT_MESSAGE),
            MessageCommands::SetTheme => String::from_str(SET_THEME),
            MessageCommands::SetSong => String::from_str(SET_SONG),
            MessageCommands::Unknown => String::from_str(UNKNOWN),
        }
    }

    pub fn from_str(tag: &str) -> (r: Result<MessageCommands, TagError>)
        ensures
            match r {
                Ok(command) => MessageCommands::of_tag(tag@) == Some(command),
                Err(e) => e == TagError::UnknownCommand && MessageCommands::of_tag(tag@) is None,
            },
    {
        let given = String::from_str(tag);
        if given == String::from_str(STORE_CHAT_MESSAGE) {
            Ok(MessageCommands::StoreChatMessage)
        } else if given == String::from_str(SET_THEME) {
            Ok(MessageCommands::SetTheme)
        } else if given == String::from_str(SET_SONG) {
            Ok(MessageCommands::SetSong)
        } else if given == String::from_str(UNKNOWN) {
            Ok(MessageCommands::Unknown)
        } else {
            Err(TagError::UnknownCommand)
        }
    }
}

/// Reading back the tag of a command gives that command.
pub proof fn lemma_command_tag_round_trip(command: MessageCommands)
    ensures
        MessageCommands::of_tag(command.tag()) == Some(command),
{
    reveal_strlit("STORE_CHAT_MESSAGE");
    reveal_strlit("SET_THEME");
    reveal_strlit("SET_SONG");
    reveal_strlit("UNKNOWN");
    assert(SET_THEME@.len() == 9);
    assert(SET_SONG@.len() == 8);
    assert(UNKNOWN@.len() == 7);
}

} // verus!
