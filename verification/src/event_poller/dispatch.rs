//! From a message to the side effect that serves it.
use crate::spotify::{track_uri, track_uri_of};
use crate::text::{trim, trimmed};
use crate::twitch::chat_message::{ChatMessage, MessageView};
use crate::twitch::commands::MessageCommands;
use crate::command_framework::command::Command;
use vstd::prelude::*;
use vstd::string::*;

verus! {

/// A side effect for a collaborator to perform.
#[derive(Debug)]
pub enum Effect {
    /// Hand `prompt`, written by `sender`, to the AI agent.
    ForwardToAgent { sender: String, prompt: String },
    /// Make `mode` the active theme and reload the presentation surface.
    ApplyTheme { mode: String },
    /// Put the track named `uri` in the music queue.
    QueueTrack { uri: String },
    /// The song request names no track: nothing to do but to report it.
    NoTrack,
    /// The command is unknown: nothing to do but to report it.
    Skip,
}

/// A side effect as a mathematical value.
pub enum EffectView {
    ForwardToAgent { sender: Seq<char>, prompt: Seq<char> },
    ApplyTheme { mode: Seq<char> },
    QueueTrack { uri: Seq<char> },
    NoTrack,
    Skip,
}

impl View for Effect {
    type V = EffectView;

    open spec fn view(&self) -> EffectView {
        match self {
            Effect::ForwardToAgent { sender, prompt } => EffectView::ForwardToAgent {
                sender: sender@,
                prompt: prompt@,
            },
            Effect::ApplyTheme { mode } => EffectView::ApplyTheme { mode: mode@ },
            Effect::QueueTrack { uri } => EffectView::QueueTrack { uri: uri@ },
            Effect::NoTrack => EffectView::NoTrack,
            Effect::Skip => EffectView::Skip,
        }
    }
}

/// The side effect that serves a message: a fixed mapping from the kind of
/// its command.
pub open spec fn effect_of(m: MessageView) -> EffectView {
    match m.kind {
        MessageCommands::StoreChatMessage => EffectView::ForwardToAgent {
            sender: m.username,
            prompt: m.text,
        },
        MessageCommands::SetTheme => EffectView::ApplyTheme { mode: trimmed(m.text) },
        MessageCommands::SetSong => match track_uri_of(m.text) {
            Some(uri) => EffectView::QueueTrack { uri },
            None => EffectView::NoTrack,
        },
        MessageCommands::Unknown => EffectView::Skip,
    }
}

/// Chooses the side effect that serves `message`. The message log is not
/// touched: recording progress is the poller's part.
pub fn dispatch(message: &ChatMessage) -> (r: Effect)
    ensures
        r@ == effect_of(message@),
{
    match &message.command {
        Command::StoreChatMessage(text) => Effect::ForwardToAgent {
            sender: message.username.clone(),
            prompt: text.clone(),
        },
        Command::SetTheme(text) => Effect::ApplyTheme { mode: trim(text.as_str()) },
        Command::SetSong(text) => match track_uri(text.as_str()) {
            Some(uri) => Effect::QueueTrack { uri },
            None => Effect::NoTrack,
        },
        Command::Unknown(_) => Effect::Skip,
    }
}

} // verus!
