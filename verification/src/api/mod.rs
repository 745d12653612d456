//! The response router: answers a chat request either by asking the AI
//! client or by replaying the oldest awaiting message of its reply source.
//!
//! Every attempt starts with a draw below one hundred. A draw at or above
//! the threshold goes to the AI client. A lower one claims the oldest
//! awaiting message of the reply source, completes it and answers with its
//! text; without such a message, or when the store cannot be reached or the
//! claim is lost to another consumer, the router sleeps and tries again. A
//! failure of the AI client fails the request.
//!
//! The router and the poller draw from one backlog. Each takes a message by
//! one conditional transition out of `Awaiting`, so that a message is never
//! taken twice.
use crate::api::website_config::WebsiteConfig;
use crate::store::{applied, found, inserted, lemma_oldest_by_from, lemma_oldest_from, moved,
    oldest, oldest_by_from, Claim, Query, Store};
use crate::text::{trim, trimmed};
use crate::twitch::chat_message::{ChatMessage, MessageId, MessageView};
use crate::twitch::commands::MessageCommands;
use crate::twitch::status::MessageStatus;
use vstd::prelude::*;
use vstd::string::*;

pub mod website_config;

verus! {

/// Draws are made below this bound.
pub const PERCENT: u32 = 100;

/// Draws at or above this value go to the AI client, unless configured
/// otherwise.
pub const LIVE_AI_PROBABILITY_THRESHOLD: u32 = 71;

/// Seconds between two attempts, unless configured otherwise.
pub const RETRY_SECONDS: u64 = 1;

/// Author of the messages that an administrator queues.
pub const ADMIN: &'static str = "admin";

/// What the router is configured with.
#[derive(Clone, Copy, Debug)]
pub struct RouterSettings {
    /// Draws at or above this value go to the AI client.
    pub live_ai_probability_threshold: u32,
    /// Seconds to sleep between two attempts.
    pub retry_seconds: u64,
    /// The kind of message that the router replays; any kind if absent.
    pub reply_source: Option<MessageCommands>,
}

impl Default for RouterSettings {
    fn default() -> (r: Self)
        ensures
            r.live_ai_probability_threshold == LIVE_AI_PROBABILITY_THRESHOLD,
            r.retry_seconds == RETRY_SECONDS,
            r.reply_source == Some(MessageCommands::StoreChatMessage),
    {
        RouterSettings {
            live_ai_probability_threshold: LIVE_AI_PROBABILITY_THRESHOLD,
            retry_seconds: RETRY_SECONDS,
            reply_source: Some(MessageCommands::StoreChatMessage),
        }
    }
}

/// Where the router stands within a request.
#[derive(Debug)]
pub enum RouterState {
    /// About to make an attempt.
    Ready,
    /// Asked the AI client for a reply.
    AskingAi,
    /// Asked for the oldest awaiting message of the reply source.
    Selecting,
    /// Asked to mark the message as completed.
    Completing(ChatMessage),
    /// Sleeping before the next attempt.
    Sleeping,
    /// The request is answered or has failed.
    Done,
}

/// What the router is told.
#[derive(Debug)]
pub enum RouterEvent {
    /// The draw for this attempt.
    Drawn(u32),
    /// The AI client's reply.
    AiReplied(String),
    /// The AI client failed.
    ClientFailure,
    /// The oldest awaiting message of the reply source, if there is one.
    Selected(Option<ChatMessage>),
    /// The status was written.
    StatusUpdated,
    /// The status was not written: the message no longer awaits service.
    ClaimLost,
    /// The store could not be reached.
    StoreUnavailable,
    /// The sleep is over.
    Woke,
}

/// What the router asks for.
#[derive(Debug)]
pub enum RouterAction {
    /// A draw below one hundred.
    Draw,
    /// A reply of the AI client to the caller's history.
    AskAi,
    /// The oldest awaiting message, of the given kind if there is one.
    SelectOldest(Option<MessageCommands>),
    /// The awaiting message to be marked as completed.
    MarkCompleted(MessageId),
    /// The response to be returned.
    Respond(String),
    /// The request to be failed.
    Fail,
    /// A sleep of so many seconds.
    Sleep(u64),
    /// Nothing: the event did not answer the pending request.
    KeepWaiting,
}

pub enum RouterStateView {
    Ready,
    AskingAi,
    Selecting,
    Completing(MessageView),
    Sleeping,
    Done,
}

pub enum RouterEventView {
    Drawn(u32),
    AiReplied(Seq<char>),
    ClientFailure,
    Selected(Option<MessageView>),
    StatusUpdated,
    ClaimLost,
    StoreUnavailable,
    Woke,
}

pub enum RouterActionView {
    Draw,
    AskAi,
    SelectOldest(Option<MessageCommands>),
    MarkCompleted(MessageId),
    Respond(Seq<char>),
    Fail,
    Sleep(u64),
    KeepWaiting,
}

impl View for RouterState {
    type V = RouterStateView;

    open spec fn view(&self) -> RouterStateView {
        match self {
            RouterState::Ready => RouterStateView::Ready,
            RouterState::AskingAi => RouterStateView::AskingAi,
            RouterState::Selecting => RouterStateView::Selecting,
            RouterState::Completing(m) => RouterStateView::Completing(m@),
            RouterState::Sleeping => RouterStateView::Sleeping,
            RouterState::Done => RouterStateView::Done,
        }
    }
}

impl View for RouterEvent {
    type V = RouterEventView;

    open spec fn view(&self) -> RouterEventView {
        match self {
            RouterEvent::Drawn(draw) => RouterEventView::Drawn(*draw),
            RouterEvent::AiReplied(text) => RouterEventView::AiReplied(text@),
            RouterEvent::ClientFailure => RouterEventView::ClientFailure,
            RouterEvent::Selected(Some(m)) => RouterEventView::Selected(Some(m@)),
            RouterEvent::Selected(None) => RouterEventView::Selected(None),
            RouterEvent::StatusUpdated => RouterEventView::StatusUpdated,
            RouterEvent::ClaimLost => RouterEventView::ClaimLost,
            RouterEvent::StoreUnavailable => RouterEventView::StoreUnavailable,
            RouterEvent::Woke => RouterEventView::Woke,
        }
    }
}

impl View for RouterAction {
    type V = RouterActionView;

    open spec fn view(&self) -> RouterActionView {
        match self {
            RouterAction::Draw => RouterActionView::Draw,
            RouterAction::AskAi => RouterActionView::AskAi,
            RouterAction::SelectOldest(kind) => RouterActionView::SelectOldest(*kind),
            RouterAction::MarkCompleted(id) => RouterActionView::MarkCompleted(*id),
            RouterAction::Respond(text) => RouterActionView::Respond(text@),
            RouterAction::Fail => RouterActionView::Fail,
            RouterAction::Sleep(seconds) => RouterActionView::Sleep(*seconds),
            RouterAction::KeepWaiting => RouterActionView::KeepWaiting,
        }
    }
}

/// Whether a draw sends the attempt to the AI client.
pub open spec fn goes_live(draw: u32, settings: RouterSettings) -> bool {
    draw >= settings.live_ai_probability_threshold
}

/// The router's rule: the state it enters and the request it makes when
/// `event` reaches it in `state`.
pub open spec fn transition(
    state: RouterStateView,
    event: RouterEventView,
    settings: RouterSettings,
) -> (RouterStateView, RouterActionView) {
    match (state, event) {
        (RouterStateView::Ready, RouterEventView::Drawn(draw)) => if goes_live(draw, settings) {
            (RouterStateView::AskingAi, RouterActionView::AskAi)
        } else {
            (RouterStateView::Selecting, RouterActionView::SelectOldest(settings.reply_source))
        },
        (RouterStateView::AskingAi, RouterEventView::AiReplied(text)) => (
            RouterStateView::Done,
            RouterActionView::Respond(text),
        ),
        (RouterStateView::AskingAi, RouterEventView::ClientFailure) => (
            RouterStateView::Done,
            RouterActionView::Fail,
        ),
        (RouterStateView::Selecting, RouterEventView::Selected(Some(m))) => match m.id {
            Some(id) => (RouterStateView::Completing(m), RouterActionView::MarkCompleted(id)),
            None => (RouterStateView::Sleeping, RouterActionView::Sleep(settings.retry_seconds)),
        },
        (RouterStateView::Selecting, RouterEventView::Selected(None)) => (
            RouterStateView::Sleeping,
            RouterActionView::Sleep(settings.retry_seconds),
        ),
        (RouterStateView::Selecting, RouterEventView::StoreUnavailable) => (
            RouterStateView::Sleeping,
            RouterActionView::Sleep(settings.retry_seconds),
        ),
        (RouterStateView::Completing(m), RouterEventView::StatusUpdated) => (
            RouterStateView::Done,
            RouterActionView::Respond(m.text),
        ),
        (RouterStateView::Completing(_), RouterEventView::ClaimLost) => (
            RouterStateView::Sleeping,
            RouterActionView::Sleep(settings.retry_seconds),
        ),
        (RouterStateView::Completing(_), RouterEventView::StoreUnavailable) => (
            RouterStateView::Sleeping,
            RouterActionView::Sleep(settings.retry_seconds),
        ),
        (RouterStateView::Sleeping, RouterEventView::Woke) => (
            RouterStateView::Ready,
            RouterActionView::Draw,
        ),
        (state, _) => (state, RouterActionView::KeepWaiting),
    }
}

/// The router responds only with what the AI client replied or with the
/// text of a message whose completion has been written.
pub proof fn lemma_replies_follow_claims(
    state: RouterStateView,
    event: RouterEventView,
    settings: RouterSettings,
)
    requires
        transition(state, event, settings).1 is Respond,
    ensures
        ({
            let text = transition(state, event, settings).1->Respond_0;
            ||| state is AskingAi && event == RouterEventView::AiReplied(text)
            ||| state matches RouterStateView::Completing(m) && event is StatusUpdated && text
                == m.text
        }),
        transition(state, event, settings).0 is Done,
{
}

/// One move of the router.
pub fn step(state: RouterState, event: RouterEvent, settings: &RouterSettings) -> (r: (
    RouterState,
    RouterAction,
))
    ensures
        (r.0@, r.1@) == transition(state@, event@, *settings),
{
    match (state, event) {
        (RouterState::Ready, RouterEvent::Drawn(draw)) => if draw
            >= settings.live_ai_probability_threshold {
            (RouterState::AskingAi, RouterAction::AskAi)
        } else {
            (RouterState::Selecting, RouterAction::SelectOldest(settings.reply_source))
        },
        (RouterState::AskingAi, RouterEvent::AiReplied(text)) => (
            RouterState::Done,
            RouterAction::Respond(text),
        ),
        (RouterState::AskingAi, RouterEvent::ClientFailure) => (
            RouterState::Done,
            RouterAction::Fail,
        ),
        (RouterState::Selecting, RouterEvent::Selected(Some(message))) => match message.id {
            Some(id) => (RouterState::Completing(message), RouterAction::MarkCompleted(id)),
            None => (RouterState::Sleeping, RouterAction::Sleep(settings.retry_seconds)),
        },
        (RouterState::Selecting, RouterEvent::Selected(None)) => (
            RouterState::Sleeping,
            RouterAction::Sleep(settings.retry_seconds),
        ),
        (RouterState::Selecting, RouterEvent::StoreUnavailable) => (
            RouterState::Sleeping,
            RouterAction::Sleep(settings.retry_seconds),
        ),
        (RouterState::Completing(message), RouterEvent::StatusUpdated) => {
            let text = message.text().clone();
            (RouterState::Done, RouterAction::Respond(text))
        },
        (RouterState::Completing(_), RouterEvent::ClaimLost) => (
            RouterState::Sleeping,
            RouterAction::Sleep(settings.retry_seconds),
        ),
        (RouterState::Completing(_), RouterEvent::StoreUnavailable) => (
            RouterState::Sleeping,
            RouterAction::Sleep(settings.retry_seconds),
        ),
        (RouterState::Sleeping, RouterEvent::Woke) => (RouterState::Ready, RouterAction::Draw),
        (state, _) => (state, RouterAction::KeepWaiting),
    }
}

/// `rand::random_range` on the range from zero up to, not including,
/// `upper`, with the generator of the current thread. The result lies in
/// that range; nothing else is known of it. The range must not be empty:
/// on an empty one the function panics. It also panics when the operating
/// system gives the thread's generator no entropy, which no condition on
/// `upper` can rule out.
#[verifier::external_body]
fn random_below(upper: u32) -> (r: u32)
    requires
        upper > 0,
    ensures
        r < upper,
{
    rand::random_range(0..upper)
}

/// A draw for one attempt.
pub fn draw() -> (r: u32)
    ensures
        r < PERCENT,
{
    random_below(PERCENT)
}

/// The log after the router has replayed a message of `source`.
pub open spec fn replayed(log: Seq<MessageView>, source: Option<MessageCommands>) -> Seq<
    MessageView,
> {
    match oldest(log, MessageStatus::Awaiting, source) {
        Some(at) => moved(log, at, MessageStatus::Completed),
        None => log,
    }
}

/// What carrying out a request of the router on the log gives: the log
/// afterwards, and the answer. Requests that are not for the store have no
/// answer and leave the log alone.
pub open spec fn answered(log: Seq<MessageView>, action: RouterActionView) -> (
    Seq<MessageView>,
    Option<RouterEventView>,
) {
    match action {
        RouterActionView::SelectOldest(source) => (
            log,
            Some(
                RouterEventView::Selected(
                    found(log, Query { status: MessageStatus::Awaiting, command: source }),
                ),
            ),
        ),
        _ => match claim_of(action) {
            Some(claim) => {
                let after = applied(log, claim);
                (
                    after,
                    Some(
                        if after == log {
                            RouterEventView::ClaimLost
                        } else {
                            RouterEventView::StatusUpdated
                        },
                    ),
                )
            },
            None => (log, None),
        },
    }
}

/// The query that a request of the router stands for: the oldest awaiting
/// message of the reply source.
pub open spec fn query_of(action: RouterActionView) -> Option<Query> {
    match action {
        RouterActionView::SelectOldest(source) => Some(
            Query { status: MessageStatus::Awaiting, command: source },
        ),
        _ => None,
    }
}

/// The claim that a request of the router stands for: a message is marked
/// as completed only while it awaits service.
pub open spec fn claim_of(action: RouterActionView) -> Option<Claim> {
    match action {
        RouterActionView::MarkCompleted(id) => Some(
            Claim { id, from: MessageStatus::Awaiting, to: MessageStatus::Completed },
        ),
        _ => None,
    }
}

impl RouterAction {
    /// The query that the request stands for, if it is one.
    pub fn query(&self) -> (r: Option<Query>)
        ensures
            r == query_of(self@),
    {
        match self {
            RouterAction::SelectOldest(source) => Some(
                Query { status: MessageStatus::Awaiting, command: *source },
            ),
            _ => None,
        }
    }

    /// The claim that the request stands for, if it is one.
    pub fn claim(&self) -> (r: Option<Claim>)
        ensures
            r == claim_of(self@),
    {
        match self {
            RouterAction::MarkCompleted(id) => Some(
                Claim { id: *id, from: MessageStatus::Awaiting, to: MessageStatus::Completed },
            ),
            _ => None,
        }
    }
}

/// The view of an answer.
pub open spec fn event_view(event: Option<RouterEvent>) -> Option<RouterEventView> {
    match event {
        Some(event) => Some(event@),
        None => None,
    }
}

/// Carries out a request of the router on `store` and gives the answer.
/// Requests that are not for the store have none.
pub fn answer(store: &mut Store, action: &RouterAction) -> (r: Option<RouterEvent>)
    ensures
        (final(store)@, event_view(r)) == answered(old(store)@, action@),
{
    if let Some(query) = action.query() {
        Some(RouterEvent::Selected(store.select(query)))
    } else if let Some(claim) = action.claim() {
        match store.apply(claim) {
            Ok(()) => Some(RouterEvent::StatusUpdated),
            Err(_) => Some(RouterEvent::ClaimLost),
        }
    } else {
        None
    }
}

/// One attempt of the router on `store`, with the given draw. A draw at or
/// above the threshold leaves the store alone and asks for the AI client.
/// A lower one completes the oldest awaiting message of the reply source
/// and responds with its text, or asks for a sleep if there is none.
pub fn get_message(store: &mut Store, draw: u32, settings: &RouterSettings) -> (r: (
    RouterState,
    RouterAction,
))
    ensures
        goes_live(draw, *settings) ==> {
            &&& final(store)@ == old(store)@
            &&& r.0@ == RouterStateView::AskingAi
            &&& r.1@ == RouterActionView::AskAi
        },
        !goes_live(draw, *settings) ==> {
            &&& final(store)@ == replayed(old(store)@, settings.reply_source)
            &&& match oldest(old(store)@, MessageStatus::Awaiting, settings.reply_source) {
                Some(at) => {
                    &&& r.0@ == RouterStateView::Done
                    &&& r.1@ == RouterActionView::Respond(old(store)@[at].text)
                },
                None => {
                    &&& r.0@ == RouterStateView::Sleeping
                    &&& r.1@ == RouterActionView::Sleep(settings.retry_seconds)
                },
            }
        },
{
    proof {
        use_type_invariant(&*store);
    }
    let (state, action) = step(RouterState::Ready, RouterEvent::Drawn(draw), settings);
    let (state, action) = match answer(store, &action) {
        Some(event) => step(state, event, settings),
        None => {
            return (state, action);
        },
    };
    proof {
        lemma_oldest_from(old(store)@, MessageStatus::Awaiting, settings.reply_source, 0);
    }
    match answer(store, &action) {
        Some(event) => step(state, event, settings),
        None => (state, action),
    }
}

/// What the configuration endpoint returns.
#[derive(Debug)]
pub struct ConfigResponse {
    pub sound: String,
    pub theme: String,
    pub alert: String,
    pub prompt: String,
    pub erase_message: bool,
    pub admin_message: Option<String>,
}

/// The log after the oldest awaiting message of `username` is completed.
pub open spec fn drained(log: Seq<MessageView>, username: Seq<char>) -> Seq<MessageView> {
    match oldest_by_from(log, MessageStatus::Awaiting, username, 0) {
        Some(at) => moved(log, at, MessageStatus::Completed),
        None => log,
    }
}

/// Where the configuration endpoint looks for the administrator's message:
/// among the messages of this author at this stage, the oldest.
#[derive(Debug)]
pub struct AdminQuery {
    pub status: MessageStatus,
    pub username: String,
}

/// Where the configuration endpoint looks for the administrator's message:
/// among the administrator's awaiting messages.
pub fn admin_query() -> (r: AdminQuery)
    ensures
        r.status == MessageStatus::Awaiting,
        r.username@ == ADMIN@,
{
    AdminQuery { status: MessageStatus::Awaiting, username: String::from_str(ADMIN) }
}

/// The claim that drains a message: its completion, while it awaits service.
pub open spec fn drain_claim_of(m: MessageView) -> Option<Claim> {
    match m.id {
        Some(id) => Some(Claim { id, from: MessageStatus::Awaiting, to: MessageStatus::Completed }),
        None => None,
    }
}

/// The claim that drains `selected`; none for a message that is not
/// persisted.
pub fn drain_claim(selected: &ChatMessage) -> (r: Option<Claim>)
    ensures
        r == drain_claim_of(selected@),
{
    match selected.id {
        Some(id) => Some(
            Claim { id, from: MessageStatus::Awaiting, to: MessageStatus::Completed },
        ),
        None => None,
    }
}

/// The text that the configuration endpoint hands out: that of the selected
/// message, and only if the claim that drains it was written. A message
/// whose claim was lost belongs to another consumer and is not handed out.
pub open spec fn handed_out(selected: Option<MessageView>, written: bool) -> Option<Seq<char>> {
    match selected {
        Some(m) => if written {
            Some(m.text)
        } else {
            None
        },
        None => None,
    }
}

/// What the configuration endpoint returns for `config` when `selected` is
/// the administrator's message that was found, if one was, and `written`
/// says whether the claim that drains it was written.
pub fn config_response(config: &WebsiteConfig, selected: Option<&ChatMessage>, written: bool) -> (r:
    ConfigResponse)
    ensures
        r.sound@ == config@.sound_name,
        r.theme@ == config@.theme,
        r.alert@ == config@.alert,
        r.prompt@ == config@.prompt,
        r.erase_message == config@.erase_message,
        match handed_out(
            match selected {
                Some(message) => Some(message@),
                None => None,
            },
            written,
        ) {
            Some(text) => r.admin_message matches Some(given) && given@ == text,
            None => r.admin_message is None,
        },
{
    let admin_message = match selected {
        Some(message) => if written {
            Some(message.text().clone())
        } else {
            None
        },
        None => None,
    };
    ConfigResponse {
        sound: config.sound_name.clone(),
        theme: config.theme.clone(),
        alert: config.alert.clone(),
        prompt: config.prompt.clone(),
        erase_message: config.erase_message,
        admin_message,
    }
}

/// The current configuration, together with the oldest awaiting message of
/// the administrator, which is thereby completed.
pub fn get_config(config: &WebsiteConfig, store: &mut Store) -> (r: ConfigResponse)
    ensures
        final(store)@ == drained(old(store)@, ADMIN@),
        r.sound@ == config@.sound_name,
        r.theme@ == config@.theme,
        r.alert@ == config@.alert,
        r.prompt@ == config@.prompt,
        r.erase_message == config@.erase_message,
        match oldest_by_from(old(store)@, MessageStatus::Awaiting, ADMIN@, 0) {
            Some(at) => r.admin_message matches Some(text) && text@ == old(store)@[at].text,
            None => r.admin_message is None,
        },
{
    proof {
        use_type_invariant(&*store);
        lemma_oldest_by_from(old(store)@, MessageStatus::Awaiting, ADMIN@, 0);
    }
    let query = admin_query();
    let selected = store.select_oldest_by(query.status, query.username.as_str());
    let written = match &selected {
        Some(message) => match drain_claim(message) {
            Some(claim) => store.apply(claim).is_ok(),
            None => false,
        },
        None => false,
    };
    match &selected {
        Some(message) => config_response(config, Some(message), written),
        None => config_response(config, None, written),
    }
}

/// The message that the administrator's insertion path builds from `text`.
pub open spec fn admin_message(text: Seq<char>) -> MessageView {
    MessageView {
        id: None,
        kind: MessageCommands::Unknown,
        text: trimmed(text),
        username: ADMIN@,
        status: MessageStatus::Awaiting,
        created_at: 0,
    }
}

/// Queues `text`, trimmed, as a message of the administrator. It awaits
/// service at once, without a moderator's approval.
pub fn add_admin_message(store: &mut Store, text: &str) -> (id: MessageId)
    ensures
        final(store)@ == inserted(old(store)@, admin_message(text@)),
        id == MessageId(old(store)@.len() as u128),
{
    store.append(admin_message_from(text))
}

/// The message that the administrator's insertion path builds from `text`.
pub fn admin_message_from(text: &str) -> (r: ChatMessage)
    ensures
        r@ == admin_message(text@),
{
    ChatMessage::new(
        None,
        trim(text),
        MessageCommands::Unknown,
        String::from_str(ADMIN),
        MessageStatus::Awaiting,
    )
}

} // verus!
