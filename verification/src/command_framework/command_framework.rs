//! The framework that turns chat events into messages for the backlog.
//!
//! It is set up with the commands it serves. A chat line whose token names
//! another command, or none, is treated as unknown; unknown commands are
//! refused unless the framework is told to keep them. A message enters the
//! backlog awaiting service, or unverified if its command is moderated.
use crate::command_framework::command::Command;
use crate::command_framework::parser::{parse, parsed, ParseError};
use crate::command_framework::{Context, Event, Framework, Message};
use crate::twitch::chat_message::{ChatMessage, MessageView};
use crate::twitch::commands::MessageCommands;
use crate::twitch::status::MessageStatus;
use vstd::prelude::*;
use vstd::string::*;

verus! {

#[derive(Debug)]
pub struct CommandFramework {
    /// The commands that are served.
    pub commands: Vec<MessageCommands>,
    /// The commands that need a moderator's approval.
    pub moderated: Vec<MessageCommands>,
    /// Whether a line with an unknown command is kept.
    pub keep_unknown: bool,
}

/// A framework as a mathematical value.
pub struct FrameworkView {
    pub commands: Seq<MessageCommands>,
    pub moderated: Seq<MessageCommands>,
    pub keep_unknown: bool,
}

impl View for CommandFramework {
    type V = FrameworkView;

    open spec fn view(&self) -> FrameworkView {
        FrameworkView {
            commands: self.commands@,
            moderated: self.moderated@,
            keep_unknown: self.keep_unknown,
        }
    }
}

impl FrameworkView {
    /// The command that the framework takes a parsed command for: the
    /// command itself if it is served, unknown otherwise.
    pub open spec fn effective(self, kind: MessageCommands) -> MessageCommands {
        if self.commands.contains(kind) {
            kind
        } else {
            MessageCommands::Unknown
        }
    }

    /// The stage at which a message of this kind enters the backlog.
    pub open spec fn entry_status(self, kind: MessageCommands) -> MessageStatus {
        if self.moderated.contains(kind) {
            MessageStatus::Unverified
        } else {
            MessageStatus::Awaiting
        }
    }

    /// The message that a chat line of `username` becomes, or the reason
    /// why it becomes none.
    pub open spec fn framed(self, content: Seq<char>, username: Seq<char>) -> Result<
        MessageView,
        ParseError,
    > {
        match parsed(content) {
            Err(e) => Err(e),
            Ok(command) => {
                let kind = self.effective(command.kind);
                if kind == MessageCommands::Unknown && !self.keep_unknown {
                    Err(ParseError::UnrecognizedCommand)
                } else {
                    Ok(
                        MessageView {
                            id: None,
                            kind,
                            text: command.text,
                            username,
                            status: self.entry_status(kind),
                            created_at: 0,
                        },
                    )
                }
            },
        }
    }
}

/// A chat line enters the backlog without an identifier, and unverified or
/// awaiting service: unverified exactly if its command is moderated.
pub proof fn lemma_framed_enters_at_the_start(
    framework: FrameworkView,
    content: Seq<char>,
    username: Seq<char>,
)
    ensures
        framework.framed(content, username) matches Ok(m) ==> {
            &&& m.id is None
            &&& m.username == username
            &&& m.status == MessageStatus::Unverified || m.status == MessageStatus::Awaiting
            &&& m.status == MessageStatus::Unverified <==> framework.moderated.contains(m.kind)
        },
{
}

/// Whether `kind` is among `kinds`.
pub fn contains_kind(kinds: &Vec<MessageCommands>, kind: MessageCommands) -> (r: bool)
    ensures
        r == kinds@.contains(kind),
{
    let n: usize = kinds.len();
    let mut i: usize = 0;
    while i < n
        invariant
            0 <= i <= n,
            n == kinds@.len(),
            forall|j: int| 0 <= j < i ==> kinds@[j] != kind,
        decreases n - i,
    {
        if kinds[i] == kind {
            return true;
        }
        i = i + 1;
    }
    false
}

impl CommandFramework {
    /// A framework that serves `commands`, moderates none of them and
    /// refuses unknown commands.
    pub fn new(commands: Vec<MessageCommands>) -> (r: Self)
        ensures
            r@ == (FrameworkView {
                commands: commands@,
                moderated: Seq::empty(),
                keep_unknown: false,
            }),
    {
        Self { commands, moderated: Vec::new(), keep_unknown: false }
    }

    /// The same framework, with `moderated` as the commands that need a
    /// moderator's approval.
    pub fn moderate(self, moderated: Vec<MessageCommands>) -> (r: Self)
        ensures
            r@ == (FrameworkView { moderated: moderated@, ..self@ }),
    {
        Self { commands: self.commands, moderated, keep_unknown: self.keep_unknown }
    }

    /// The same framework, keeping or refusing unknown commands.
    pub fn keep_unknown(self, keep: bool) -> (r: Self)
        ensures
            r@ == (FrameworkView { keep_unknown: keep, ..self@ }),
    {
        Self { commands: self.commands, moderated: self.moderated, keep_unknown: keep }
    }

}

impl Framework for CommandFramework {
    open spec fn framed(&self, content: Seq<char>, username: Seq<char>) -> Result<
        MessageView,
        ParseError,
    > {
        self@.framed(content, username)
    }

    fn dispatch(&self, ctx: Context, event: Event) -> (r: Result<ChatMessage, ParseError>) {
        dispatch_event(self, ctx, event)
    }
}

pub fn dispatch_event(framework: &CommandFramework, ctx: Context, event: Event) -> (r: Result<
    ChatMessage,
    ParseError,
>)
    ensures
        match event {
            Event::Message(message) => match r {
                Ok(framed) => framework@.framed(message.content@, message.user.login@) == Ok::<
                    MessageView,
                    ParseError,
                >(framed@),
                Err(e) => framework@.framed(message.content@, message.user.login@) == Err::<
                    MessageView,
                    ParseError,
                >(e),
            },
        },
{
    match event {
        Event::Message(message) => dispatch_message(framework, ctx, message),
    }
}

pub fn dispatch_message(framework: &CommandFramework, ctx: Context, message: Message) -> (r:
    Result<ChatMessage, ParseError>)
    ensures
        match r {
            Ok(framed) => framework@.framed(message.content@, message.user.login@) == Ok::<
                MessageView,
                ParseError,
            >(framed@),
            Err(e) => framework@.framed(message.content@, message.user.login@) == Err::<
                MessageView,
                ParseError,
            >(e),
        },
{
    let command = match parse(message.content.as_str()) {
        Ok(command) => command,
        Err(e) => {
            return Err(e);
        },
    };
    let kind = if contains_kind(&framework.commands, command.kind()) {
        command.kind()
    } else {
        MessageCommands::Unknown
    };
    if kind == MessageCommands::Unknown && !framework.keep_unknown {
        return Err(ParseError::UnrecognizedCommand);
    }
    let status = if contains_kind(&framework.moderated, kind) {
        MessageStatus::Unverified
    } else {
        MessageStatus::Awaiting
    };
    Ok(
        ChatMessage {
            id: None,
            command: Command::new(kind, command.text().clone()),
            username: message.user.login,
            status,
            created_at: 0,
        },
    )
}

} // verus!
