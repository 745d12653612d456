//! Chat events and the commands they are turned into.
use crate::command_framework::parser::ParseError;
use crate::twitch::chat_message::{ChatMessage, MessageView};
use vstd::prelude::*;

pub mod command;
pub mod command_framework;
pub mod parser;

verus! {

/// Who wrote a chat line.
#[derive(Debug)]
pub struct User {
    pub id: String,
    pub login: String,
    pub name: String,
}

/// A chat line as it arrives.
#[derive(Debug)]
pub struct Message {
    pub id: String,
    pub user: User,
    pub content: String,
}

/// What the chat connection reports.
#[derive(Debug)]
pub enum Event {
    Message(Message),
}

/// What accompanies an event.
#[derive(Debug)]
pub struct Context {
}

/// What turns chat events into messages for the backlog.
pub trait Framework: Send + Sync {
    /// The message that a chat line of `username` becomes, or the reason
    /// why it becomes none.
    spec fn framed(&self, content: Seq<char>, username: Seq<char>) -> Result<
        MessageView,
        ParseError,
    >;

    /// The message that an event becomes, or the reason why it becomes none.
    fn dispatch(&self, ctx: Context, event: Event) -> (r: Result<ChatMessage, ParseError>)
        ensures
            match event {
                Event::Message(message) => match r {
                    Ok(framed) => self.framed(message.content@, message.user.login@) == Ok::<
                        MessageView,
                        ParseError,
                    >(framed@),
                    Err(e) => self.framed(message.content@, message.user.login@) == Err::<
                        MessageView,
                        ParseError,
                    >(e),
                },
            },
    ;
}

} // verus!
