//! A command together with the text it carries.
use crate::twitch::commands::MessageCommands;
use vstd::prelude::*;
use vstd::string::*;

verus! {

/// A typed action with its payload text.
#[derive(Debug)]
pub enum Command {
    StoreChatMessage(String),
    SetTheme(String),
    SetSong(String),
    Unknown(String),
}

/// A command as a mathematical value.
pub struct CommandView {
    pub kind: MessageCommands,
    pub text: Seq<char>,
}

impl View for Command {
    type V = CommandView;

    open spec fn view(&self) -> CommandView {
        match self {
            Command::StoreChatMessage(text) => CommandView {
                kind: MessageCommands::StoreChatMessage,
                text: text@,
            },
            Command::SetTheme(text) => CommandView { kind: MessageCommands::SetTheme, text: text@ },
            Command::SetSong(text) => CommandView { kind: MessageCommands::SetSong, text: text@ },
            Command::Unknown(text) => CommandView { kind: MessageCommands::Unknown, text: text@ },
        }
    }
}

impl Clone for Command {
    fn clone(&self) -> (r: Self)
        ensures
            r@ == self@,
    {
        match self {
            Command::StoreChatMessage(text) => Command::StoreChatMessage(text.clone()),
            Command::SetTheme(text) => Command::SetTheme(text.clone()),
            Command::SetSong(text) => Command::SetSong(text.clone()),
            Command::Unknown(text) => Command::Unknown(text.clone()),
        }
    }
}

impl Command {
    /// The command of the given kind that carries `text`.
    pub fn new(kind: MessageCommands, text: String) -> (r: Command)
        ensures
            r@ == (CommandView { kind, text: text@ }),
    {
        match kind {
            MessageCommands::StoreChatMessage => Command::StoreChatMessage(text),
            MessageCommands::SetTheme => Command::SetTheme(text),
            MessageCommands::SetSong => Command::SetSong(text),
            MessageCommands::Unknown => Command::Unknown(text),
        }
    }

    pub fn kind(&self) -> (r: MessageCommands)
        ensures
            r == self@.kind,
    {
        match self {
            Command::StoreChatMessage(_) => MessageCommands::StoreChatMessage,
            Command::SetTheme(_) => MessageCommands::SetTheme,
            Command::SetSong(_) => MessageCommands::SetSong,
            Command::Unknown(_) => MessageCommands::Unknown,
        }
    }

    pub fn text(&self) -> (r: &String)
        ensures
            r@ == self@.text,
    {
        match self {
            Command::StoreChatMessage(text) => text,
            Command::SetTheme(text) => text,
            Command::SetSong(text) => text,
            Command::Unknown(text) => text,
        }
    }
}

} // verus!
