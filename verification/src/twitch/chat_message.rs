//! The persisted form of a chat message.
use crate::command_framework::command::{Command, CommandView};
use crate::command_framework::parser::{parse, parsed, ParseError};
use crate::store::{entered, has_author_at, has_text, inserted, stored, transitioned, Store,
    StoreError};
use crate::twitch::commands::MessageCommands;
use crate::twitch::status::{MessageStatus, TagError};
use vstd::prelude::*;
use vstd::string::*;

verus! {

/// Identifier that the store gives a message.
#[derive(Clone, Copy, Debug, PartialEq, Eq, Structural)]
pub struct MessageId(pub u128);

/// A unit of work derived from a chat command. Its text is the text that
/// its command carries.
#[derive(Debug)]
pub struct ChatMessage {
    /// Absent until the message is persisted.
    pub id: Option<MessageId>,
    pub command: Command,
    pub username: String,
    pub status: MessageStatus,
    /// Ordering key, set by the store.
    pub created_at: u64,
}

/// A message as a mathematical value.
pub struct MessageView {
    pub id: Option<MessageId>,
    pub kind: MessageCommands,
    pub text: Seq<char>,
    pub username: Seq<char>,
    pub status: MessageStatus,
    pub created_at: u64,
}

impl View for ChatMessage {
    type V = MessageView;

    open spec fn view(&self) -> MessageView {
        MessageView {
            id: self.id,
            kind: self.command@.kind,
            text: self.command@.text,
            username: self.username@,
            status: self.status,
            created_at: self.created_at,
        }
    }
}

impl Clone for ChatMessage {
    fn clone(&self) -> (r: Self)
        ensures
            r@ == self@,
    {
        ChatMessage {
            id: self.id,
            command: self.command.clone(),
            username: self.username.clone(),
            status: self.status,
            created_at: self.created_at,
        }
    }
}

impl MessageView {
    /// The same message at another stage of its life.
    pub open spec fn with_status(self, status: MessageStatus) -> MessageView {
        MessageView { status, ..self }
    }
}

/// What the log must not hold for a message to be taken in.
#[derive(Debug)]
pub enum DuplicateRule {
    /// Nothing: the message is taken in whatever the log holds.
    Nothing,
    /// A message with this text.
    SameText(String),
    /// A message of this author at this stage.
    SameAuthorAtStage(String, MessageStatus),
}

pub enum DuplicateRuleView {
    Nothing,
    SameText(Seq<char>),
    SameAuthorAtStage(Seq<char>, MessageStatus),
}

impl View for DuplicateRule {
    type V = DuplicateRuleView;

    open spec fn view(&self) -> DuplicateRuleView {
        match self {
            DuplicateRule::Nothing => DuplicateRuleView::Nothing,
            DuplicateRule::SameText(text) => DuplicateRuleView::SameText(text@),
            DuplicateRule::SameAuthorAtStage(username, status) => {
                DuplicateRuleView::SameAuthorAtStage(username@, *status)
            },
        }
    }
}

/// The rule that applies to a message, by the kind of its command: a chat
/// message for the agent is kept out by a message with its text, a theme
/// change by a message of its author at the stage it would enter at, and
/// nothing keeps out the rest.
pub open spec fn rule_for(m: MessageView) -> DuplicateRuleView {
    match m.kind {
        MessageCommands::StoreChatMessage => DuplicateRuleView::SameText(m.text),
        MessageCommands::SetTheme => DuplicateRuleView::SameAuthorAtStage(m.username, m.status),
        _ => DuplicateRuleView::Nothing,
    }
}

/// Whether the log holds what the rule excludes.
pub open spec fn excluded(log: Seq<MessageView>, rule: DuplicateRuleView) -> bool {
    match rule {
        DuplicateRuleView::Nothing => false,
        DuplicateRuleView::SameText(text) => has_text(log, text),
        DuplicateRuleView::SameAuthorAtStage(username, status) => has_author_at(
            log,
            username,
            status,
        ),
    }
}

/// Whether the log already holds what keeps `m` out.
pub open spec fn is_duplicate(log: Seq<MessageView>, m: MessageView) -> bool {
    excluded(log, rule_for(m))
}

/// The log after `m` is taken in: appended unless it is a duplicate or at a
/// stage at which no message enters.
pub open spec fn ingested(log: Seq<MessageView>, m: MessageView) -> Seq<MessageView> {
    if is_duplicate(log, m) {
        log
    } else {
        entered(log, m)
    }
}

/// How taking in a message ended.
#[derive(Clone, Copy, Debug, PartialEq, Eq, Structural)]
pub enum Inserted {
    /// The message was appended, under this identifier.
    Stored(MessageId),
    /// The message is a duplicate and was left out.
    DuplicateSkipped,
}

impl ChatMessage {
    pub fn new(
        id: Option<MessageId>,
        text: String,
        command: MessageCommands,
        username: String,
        status: MessageStatus,
    ) -> (r: Self)
        ensures
            r@ == (MessageView {
                id,
                kind: command,
                text: text@,
                username: username@,
                status,
                created_at: 0,
            }),
    {
        ChatMessage { id, command: Command::new(command, text), username, status, created_at: 0 }
    }

    /// Rebuilds a message from the columns of its row.
    pub fn row_to_chat_message(
        id: MessageId,
        command: &str,
        text: String,
        username: String,
        status: &str,
        created_at: u64,
    ) -> (r: Result<ChatMessage, TagError>)
        ensures
            match r {
                Ok(message) => {
                    &&& MessageCommands::of_tag(command@) is Some
                    &&& MessageStatus::of_tag(status@) is Some
                    &&& message@ == (MessageView {
                        id: Some(id),
                        kind: MessageCommands::of_tag(command@)->Some_0,
                        text: text@,
                        username: username@,
                        status: MessageStatus::of_tag(status@)->Some_0,
                        created_at,
                    })
                },
                Err(TagError::UnknownCommand) => MessageCommands::of_tag(command@) is None,
                Err(TagError::UnknownStatus) => {
                    &&& MessageCommands::of_tag(command@) is Some
                    &&& MessageStatus::of_tag(status@) is None
                },
            },
    {
        let kind = match MessageCommands::from_str(command) {
            Ok(kind) => kind,
            Err(e) => {
                return Err(e);
            },
        };
        let stage = match MessageStatus::from_str(status) {
            Ok(stage) => stage,
            Err(e) => {
                return Err(e);
            },
        };
        Ok(
            ChatMessage {
                id: Some(id),
                command: Command::new(kind, text),
                username,
                status: stage,
                created_at,
            },
        )
    }

    pub fn text(&self) -> (r: &String)
        ensures
            r@ == self@.text,
    {
        self.command.text()
    }

    /// The message that carries `text` as it is, written by `username`: not
    /// yet persisted, and awaiting service. The text is not read as a chat
    /// line, so the message stands for no known command.
    pub fn from_raw_message(text: String, username: String) -> (r: Self)
        ensures
            r@ == (MessageView {
                id: None,
                kind: MessageCommands::Unknown,
                text: text@,
                username: username@,
                status: MessageStatus::Awaiting,
                created_at: 0,
            }),
    {
        ChatMessage {
            id: None,
            command: Command::Unknown(text),
            username,
            status: MessageStatus::Awaiting,
            created_at: 0,
        }
    }

    /// The message that a chat line of `username` stands for: not yet
    /// persisted, and awaiting service, with the command that the line's
    /// token names and the line's payload as its text.
    pub fn from_chat_line(text: String, username: String) -> (r: Result<Self, ParseError>)
        ensures
            match r {
                Ok(message) => parsed(text@) matches Ok(command) && message@ == (MessageView {
                    id: None,
                    kind: command.kind,
                    text: command.text,
                    username: username@,
                    status: MessageStatus::Awaiting,
                    created_at: 0,
                }),
                Err(e) => parsed(text@) == Err::<CommandView, ParseError>(e),
            },
    {
        match parse(text.as_str()) {
            Ok(command) => Ok(
                ChatMessage {
                    id: None,
                    command,
                    username,
                    status: MessageStatus::Awaiting,
                    created_at: 0,
                },
            ),
            Err(e) => Err(e),
        }
    }

    /// What `store` must not hold for this message to be taken in.
    pub fn duplicate_rule(&self) -> (r: DuplicateRule)
        ensures
            r@ == rule_for(self@),
    {
        match self.command.kind() {
            MessageCommands::StoreChatMessage => DuplicateRule::SameText(self.text().clone()),
            MessageCommands::SetTheme => DuplicateRule::SameAuthorAtStage(
                self.username.clone(),
                self.status,
            ),
            _ => DuplicateRule::Nothing,
        }
    }

    /// Whether `store` holds what keeps this message out.
    pub fn is_duplicate(&self, store: &Store) -> (r: bool)
        ensures
            r == is_duplicate(store@, self@),
    {
        match self.duplicate_rule() {
            DuplicateRule::Nothing => false,
            DuplicateRule::SameText(text) => store.exists_by_text(text.as_str()),
            DuplicateRule::SameAuthorAtStage(username, status) => {
                store.exists_by_author_and_status(username.as_str(), status)
            },
        }
    }

    /// Whether some message in `store` carries this message's text.
    pub fn if_exists(&self, store: &Store) -> (r: bool)
        ensures
            r == has_text(store@, self@.text),
    {
        store.exists_by_text(self.text().as_str())
    }

    /// Whether this message's author has a message in `store` at the stage
    /// of this message.
    pub fn is_duplicate_theme(&self, store: &Store) -> (r: bool)
        ensures
            r == has_author_at(store@, self@.username, self@.status),
    {
        store.exists_by_author_and_status(self.username.as_str(), self.status)
    }

    /// Takes the message into `store` unless it is a duplicate. A message
    /// that is stored learns its identifier and its ordering key. A message
    /// at a stage at which no message enters is refused.
    pub fn insert(&mut self, store: &mut Store) -> (r: Result<Inserted, StoreError>)
        ensures
            final(store)@ == ingested(old(store)@, old(self)@),
            match r {
                Ok(Inserted::Stored(id)) => {
                    &&& old(self)@.status.enters()
                    &&& !is_duplicate(old(store)@, old(self)@)
                    &&& final(store)@ == inserted(old(store)@, old(self)@)
                    &&& final(self)@ == stored(old(store)@, old(self)@)
                    &&& final(self)@.id == Some(id)
                },
                Ok(Inserted::DuplicateSkipped) => {
                    &&& old(self)@.status.enters()
                    &&& is_duplicate(old(store)@, old(self)@)
                    &&& final(self)@ == old(self)@
                },
                Err(e) => {
                    &&& !old(self)@.status.enters()
                    &&& e == StoreError::NotAdmitted
                    &&& final(self)@ == old(self)@
                },
            },
    {
        if !self.status.is_entry() {
            return Err(StoreError::NotAdmitted);
        }
        if self.is_duplicate(store) {
            return Ok(Inserted::DuplicateSkipped);
        }
        let n: usize = store.len();
        let id = store.append(self.clone());
        self.id = Some(id);
        self.created_at = n as u64;
        Ok(Inserted::Stored(id))
    }

    /// Moves the message to stage `to`, in `store` and here, if it is
    /// persisted and its status there allows the move.
    pub fn update_status(&mut self, store: &mut Store, to: MessageStatus) -> (r: Result<
        (),
        StoreError,
    >)
        ensures
                match old(self)@.id {
                Some(id) => final(store)@ == transitioned(old(store)@, id, to),
                None => final(store)@ == old(store)@ && r == Err::<(), StoreError>(
                    StoreError::NotFound,
                ),
            },
            r is Ok <==> final(store)@ != old(store)@,
            final(self)@ == if r is Ok {
                old(self)@.with_status(to)
            } else {
                old(self)@
            },
    {
        match self.id {
            Some(id) => match store.update_status(id, to) {
                Ok(()) => {
                    self.status = to;
                    Ok(())
                },
                Err(e) => Err(e),
            },
            None => Err(StoreError::NotFound),
        }
    }
}

} // verus!
