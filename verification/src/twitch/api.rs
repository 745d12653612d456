//! The chat connection as the library sees it: credentials, and the
//! framework that incoming chat lines are handed to.
use crate::command_framework::parser::ParseError;
use crate::command_framework::{Context, Event, Framework, Message};
use crate::twitch::builder::TwitchApiBuilder;
use crate::twitch::chat_message::{ChatMessage, MessageView};
use crate::twitch::TwitchApiCredentials;
use vstd::prelude::*;

verus! {

pub struct TwitchApi<F: Framework> {
    pub credentials: TwitchApiCredentials,
    pub framework: Option<F>,
}

impl<F: Framework> TwitchApi<F> {
    pub fn new(credentials: TwitchApiCredentials, framework: Option<F>) -> (r: TwitchApi<F>)
        ensures
            r.credentials == credentials,
            r.framework == framework,
    {
        Self { credentials, framework }
    }

    pub fn builder() -> (r: TwitchApiBuilder<F>)
        ensures
            r.credentials is None,
            r.framework is None,
    {
        TwitchApiBuilder::default()
    }

    /// Hands a chat line to the framework, if there is one, and gives what
    /// the framework made of it.
    pub fn run(&self, message: Message) -> (r: Option<Result<ChatMessage, ParseError>>)
        ensures
            r is Some <==> self.framework is Some,
            self.framework matches Some(framework) ==> match r->Some_0 {
                Ok(framed) => framework.framed(message.content@, message.user.login@) == Ok::<
                    MessageView,
                    ParseError,
                >(framed@),
                Err(e) => framework.framed(message.content@, message.user.login@) == Err::<
                    MessageView,
                    ParseError,
                >(e),
            },
    {
        match &self.framework {
            Some(framework) => {
                let ctx = Context {  };
                let event = Event::Message(message);
                Some(framework.dispatch(ctx, event))
            },
            None => None,
        }
    }
}

} // verus!
