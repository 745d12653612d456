//! The poller: the one consumer that serves the backlog, a message at a time.
//!
//! On every tick it starts new work only if no message is in process. It
//! then takes the oldest awaiting message, marks it as in process, has it
//! served, and marks it as completed whether or not serving it succeeded.
//!
//! The decisions are a state machine, [`step`], whose requests somebody else
//! carries out. [`EventPoller`] runs that machine against a [`Store`].
use crate::event_poller::dispatch::{dispatch, effect_of, Effect, EffectView};
use crate::store::{applied, count_of, found, lemma_oldest, moved, oldest, transitioned_from,
    Claim, Query, Store};
use crate::twitch::chat_message::{ChatMessage, MessageId, MessageView};
use crate::twitch::status::MessageStatus;
use vstd::prelude::*;

pub mod dispatch;

verus! {

/// Seconds between two ticks, unless configured otherwise.
pub const TICK_SECONDS: u64 = 20;

/// What the poller is configured with.
#[derive(Clone, Copy, Debug)]
pub struct PollerSettings {
    /// Seconds between two ticks.
    pub tick_seconds: u64,
}

impl Default for PollerSettings {
    fn default() -> (r: Self)
        ensures
            r.tick_seconds == TICK_SECONDS,
    {
        PollerSettings { tick_seconds: TICK_SECONDS }
    }
}

/// Where the poller stands within a tick.
#[derive(Debug)]
pub enum PollerState {
    /// Between two ticks.
    Idle,
    /// Asked how many messages are in process.
    CheckingLock,
    /// Asked for the oldest awaiting message.
    Polling,
    /// Asked to mark the message as in process.
    Claiming(ChatMessage),
    /// The message is being served.
    Dispatching(ChatMessage),
    /// Asked to mark the message as completed, or about to ask again.
    Completing(ChatMessage),
}

/// What the poller is told.
#[derive(Debug)]
pub enum PollerEvent {
    /// The timer fired.
    Tick,
    /// So many messages are in process.
    Counted(usize),
    /// The oldest awaiting message, if there is one.
    Polled(Option<ChatMessage>),
    /// The status was written.
    StatusUpdated,
    /// The status was not written: the message is no longer at the stage
    /// that the request expected.
    ClaimLost,
    /// The message was served.
    Served,
    /// Serving the message failed.
    DispatchFailure,
    /// The store could not be reached.
    StoreUnavailable,
}

/// What the poller asks for.
#[derive(Debug)]
pub enum PollerAction {
    /// Nothing until the next tick.
    Wait,
    /// The number of messages in process.
    CountInProcess,
    /// The oldest awaiting message.
    PollOldest,
    /// The awaiting message to be marked as in process.
    MarkInProcess(MessageId),
    /// The side effect to be performed.
    Run(Effect),
    /// The message in process to be marked as completed.
    MarkCompleted(MessageId),
    /// Nothing: the event did not answer the pending request.
    KeepWaiting,
}

pub enum PollerStateView {
    Idle,
    CheckingLock,
    Polling,
    Claiming(MessageView),
    Dispatching(MessageView),
    Completing(MessageView),
}

pub enum PollerEventView {
    Tick,
    Counted(nat),
    Polled(Option<MessageView>),
    StatusUpdated,
    ClaimLost,
    Served,
    DispatchFailure,
    StoreUnavailable,
}

pub enum PollerActionView {
    Wait,
    CountInProcess,
    PollOldest,
    MarkInProcess(MessageId),
    Run(EffectView),
    MarkCompleted(MessageId),
    KeepWaiting,
}

impl View for PollerState {
    type V = PollerStateView;

    open spec fn view(&self) -> PollerStateView {
        match self {
            PollerState::Idle => PollerStateView::Idle,
            PollerState::CheckingLock => PollerStateView::CheckingLock,
            PollerState::Polling => PollerStateView::Polling,
            PollerState::Claiming(m) => PollerStateView::Claiming(m@),
            PollerState::Dispatching(m) => PollerStateView::Dispatching(m@),
            PollerState::Completing(m) => PollerStateView::Completing(m@),
        }
    }
}

impl View for PollerEvent {
    type V = PollerEventView;

    open spec fn view(&self) -> PollerEventView {
        match self {
            PollerEvent::Tick => PollerEventView::Tick,
            PollerEvent::Counted(n) => PollerEventView::Counted(*n as nat),
            PollerEvent::Polled(Some(m)) => PollerEventView::Polled(Some(m@)),
            PollerEvent::Polled(None) => PollerEventView::Polled(None),
            PollerEvent::StatusUpdated => PollerEventView::StatusUpdated,
            PollerEvent::ClaimLost => PollerEventView::ClaimLost,
            PollerEvent::Served => PollerEventView::Served,
            PollerEvent::DispatchFailure => PollerEventView::DispatchFailure,
            PollerEvent::StoreUnavailable => PollerEventView::StoreUnavailable,
        }
    }
}

impl View for PollerAction {
    type V = PollerActionView;

    open spec fn view(&self) -> PollerActionView {
        match self {
            PollerAction::Wait => PollerActionView::Wait,
            PollerAction::CountInProcess => PollerActionView::CountInProcess,
            PollerAction::PollOldest => PollerActionView::PollOldest,
            PollerAction::MarkInProcess(id) => PollerActionView::MarkInProcess(*id),
            PollerAction::Run(effect) => PollerActionView::Run(effect@),
            PollerAction::MarkCompleted(id) => PollerActionView::MarkCompleted(*id),
            PollerAction::KeepWaiting => PollerActionView::KeepWaiting,
        }
    }
}

/// The poller's rule: the state it enters and the request it makes when
/// `event` reaches it in `state`.
///
/// Before a message is taken up, the tick is abandoned when the store
/// cannot be reached or the claim is lost. Whether serving a message
/// succeeded does not matter: the message is marked as completed either
/// way, and if the store cannot be reached for that, the poller asks again
/// at the next tick. An event that does not answer the pending request
/// changes nothing.
pub open spec fn transition(state: PollerStateView, event: PollerEventView) -> (
    PollerStateView,
    PollerActionView,
) {
    match (state, event) {
        (PollerStateView::Idle, PollerEventView::Tick) => (
            PollerStateView::CheckingLock,
            PollerActionView::CountInProcess,
        ),
        (PollerStateView::CheckingLock, PollerEventView::Counted(in_process)) => if in_process
            > 0 {
            (PollerStateView::Idle, PollerActionView::Wait)
        } else {
            (PollerStateView::Polling, PollerActionView::PollOldest)
        },
        (PollerStateView::Polling, PollerEventView::Polled(Some(m))) => match m.id {
            Some(id) => (PollerStateView::Claiming(m), PollerActionView::MarkInProcess(id)),
            None => (PollerStateView::Idle, PollerActionView::Wait),
        },
        (PollerStateView::Polling, PollerEventView::Polled(None)) => (
            PollerStateView::Idle,
            PollerActionView::Wait,
        ),
        (PollerStateView::Claiming(m), PollerEventView::StatusUpdated) => (
            PollerStateView::Dispatching(m),
            PollerActionView::Run(effect_of(m)),
        ),
        (PollerStateView::Dispatching(m), PollerEventView::Served) => finishing(m),
        (PollerStateView::Dispatching(m), PollerEventView::DispatchFailure) => finishing(m),
        (PollerStateView::Completing(_), PollerEventView::StatusUpdated) => (
            PollerStateView::Idle,
            PollerActionView::Wait,
        ),
        (PollerStateView::CheckingLock, PollerEventView::StoreUnavailable) => (
            PollerStateView::Idle,
            PollerActionView::Wait,
        ),
        (PollerStateView::Polling, PollerEventView::StoreUnavailable) => (
            PollerStateView::Idle,
            PollerActionView::Wait,
        ),
        (PollerStateView::Claiming(_), PollerEventView::StoreUnavailable) => (
            PollerStateView::Idle,
            PollerActionView::Wait,
        ),
        (PollerStateView::Claiming(_), PollerEventView::ClaimLost) => (
            PollerStateView::Idle,
            PollerActionView::Wait,
        ),
        (PollerStateView::Completing(m), PollerEventView::StoreUnavailable) => (
            PollerStateView::Completing(m),
            PollerActionView::Wait,
        ),
        (PollerStateView::Completing(m), PollerEventView::Tick) => finishing(m),
        (PollerStateView::Completing(_), PollerEventView::ClaimLost) => (
            PollerStateView::Idle,
            PollerActionView::Wait,
        ),
        (state, _) => (state, PollerActionView::KeepWaiting),
    }
}

/// The poller asks for a side effect only when its claim has been written,
/// and then for the one that serves the claimed message.
pub proof fn lemma_effects_follow_claims(state: PollerStateView, event: PollerEventView)
    requires
        transition(state, event).1 is Run,
    ensures
        state is Claiming,
        event is StatusUpdated,
        transition(state, event).1 == PollerActionView::Run(effect_of(state->Claiming_0)),
        transition(state, event).0 == PollerStateView::Dispatching(state->Claiming_0),
{
}

/// The poller asks for a claim only on the message that the store gave it
/// as the oldest awaiting one, right after it was told that no message is
/// in process.
pub proof fn lemma_claims_follow_polls(state: PollerStateView, event: PollerEventView)
    requires
        transition(state, event).1 is MarkInProcess,
    ensures
        state is Polling,
        event matches PollerEventView::Polled(Some(m)) && m.id == Some(
            transition(state, event).1->MarkInProcess_0,
        ),
{
}

/// What follows the serving of `m`: its completion is asked for.
pub open spec fn finishing(m: MessageView) -> (PollerStateView, PollerActionView) {
    match m.id {
        Some(id) => (PollerStateView::Completing(m), PollerActionView::MarkCompleted(id)),
        None => (PollerStateView::Idle, PollerActionView::Wait),
    }
}

/// One move of the poller.
pub fn step(state: PollerState, event: PollerEvent) -> (r: (PollerState, PollerAction))
    ensures
        (r.0@, r.1@) == transition(state@, event@),
{
    match (state, event) {
        (PollerState::Idle, PollerEvent::Tick) => (
            PollerState::CheckingLock,
            PollerAction::CountInProcess,
        ),
        (PollerState::CheckingLock, PollerEvent::Counted(in_process)) => if in_process > 0 {
            (PollerState::Idle, PollerAction::Wait)
        } else {
            (PollerState::Polling, PollerAction::PollOldest)
        },
        (PollerState::Polling, PollerEvent::Polled(Some(message))) => match message.id {
            Some(id) => (PollerState::Claiming(message), PollerAction::MarkInProcess(id)),
            None => (PollerState::Idle, PollerAction::Wait),
        },
        (PollerState::Polling, PollerEvent::Polled(None)) => (
            PollerState::Idle,
            PollerAction::Wait,
        ),
        (PollerState::Claiming(message), PollerEvent::StatusUpdated) => {
            let effect = dispatch(&message);
            (PollerState::Dispatching(message), PollerAction::Run(effect))
        },
        (PollerState::Dispatching(message), PollerEvent::Served) => finish(message),
        (PollerState::Dispatching(message), PollerEvent::DispatchFailure) => finish(message),
        (PollerState::Completing(_), PollerEvent::StatusUpdated) => (
            PollerState::Idle,
            PollerAction::Wait,
        ),
        (PollerState::CheckingLock, PollerEvent::StoreUnavailable) => (
            PollerState::Idle,
            PollerAction::Wait,
        ),
        (PollerState::Polling, PollerEvent::StoreUnavailable) => (
            PollerState::Idle,
            PollerAction::Wait,
        ),
        (PollerState::Claiming(_), PollerEvent::StoreUnavailable) => (
            PollerState::Idle,
            PollerAction::Wait,
        ),
        (PollerState::Claiming(_), PollerEvent::ClaimLost) => (
            PollerState::Idle,
            PollerAction::Wait,
        ),
        (PollerState::Completing(message), PollerEvent::StoreUnavailable) => (
            PollerState::Completing(message),
            PollerAction::Wait,
        ),
        (PollerState::Completing(message), PollerEvent::Tick) => finish(message),
        (PollerState::Completing(_), PollerEvent::ClaimLost) => (
            PollerState::Idle,
            PollerAction::Wait,
        ),
        (state, _) => (state, PollerAction::KeepWaiting),
    }
}

/// What follows the serving of `message`: its completion is asked for.
fn finish(message: ChatMessage) -> (r: (PollerState, PollerAction))
    ensures
        (r.0@, r.1@) == finishing(message@),
{
    match message.id {
        Some(id) => (PollerState::Completing(message), PollerAction::MarkCompleted(id)),
        None => (PollerState::Idle, PollerAction::Wait),
    }
}

/// Whether a message is in process, so that no new work may start.
pub open spec fn locked(log: Seq<MessageView>) -> bool {
    count_of(log, MessageStatus::InProcess) > 0
}

/// Position of the message that a tick takes up: none while a message is in
/// process, else the oldest awaiting one.
pub open spec fn claimable(log: Seq<MessageView>) -> Option<int> {
    if locked(log) {
        None
    } else {
        oldest(log, MessageStatus::Awaiting, None)
    }
}

/// The log after a tick has taken up its message.
pub open spec fn claimed(log: Seq<MessageView>) -> Seq<MessageView> {
    match claimable(log) {
        Some(at) => moved(log, at, MessageStatus::InProcess),
        None => log,
    }
}

/// What carrying out a request of the poller on the log gives: the log
/// afterwards, and the answer. Requests that are not for the store have no
/// answer and leave the log alone.
pub open spec fn answered(log: Seq<MessageView>, action: PollerActionView) -> (
    Seq<MessageView>,
    Option<PollerEventView>,
) {
    match action {
        PollerActionView::CountInProcess => (
            log,
            Some(PollerEventView::Counted(count_of(log, MessageStatus::InProcess))),
        ),
        PollerActionView::PollOldest => (
            log,
            Some(PollerEventView::Polled(found(log, oldest_awaiting()))),
        ),
        _ => match claim_of(action) {
            Some(claim) => claim_answered(log, applied(log, claim)),
            None => (log, None),
        },
    }
}

/// What the poller asks for when it polls: the oldest awaiting message, of
/// whatever kind.
pub open spec fn oldest_awaiting() -> Query {
    Query { status: MessageStatus::Awaiting, command: None }
}

/// The stage whose messages a request of the poller has counted: that of
/// the messages in process.
pub open spec fn counted_of(action: PollerActionView) -> Option<MessageStatus> {
    match action {
        PollerActionView::CountInProcess => Some(MessageStatus::InProcess),
        _ => None,
    }
}

/// The query that a request of the poller stands for.
pub open spec fn query_of(action: PollerActionView) -> Option<Query> {
    match action {
        PollerActionView::PollOldest => Some(oldest_awaiting()),
        _ => None,
    }
}

/// The claim that a request of the poller stands for: a message is marked
/// as in process only while it awaits service, and as completed only while
/// it is in process.
pub open spec fn claim_of(action: PollerActionView) -> Option<Claim> {
    match action {
        PollerActionView::MarkInProcess(id) => Some(
            Claim { id, from: MessageStatus::Awaiting, to: MessageStatus::InProcess },
        ),
        PollerActionView::MarkCompleted(id) => Some(
            Claim { id, from: MessageStatus::InProcess, to: MessageStatus::Completed },
        ),
        _ => None,
    }
}

impl PollerAction {
    /// The stage whose messages the request has counted, if it is a count.
    pub fn counted(&self) -> (r: Option<MessageStatus>)
        ensures
            r == counted_of(self@),
    {
        match self {
            PollerAction::CountInProcess => Some(MessageStatus::InProcess),
            _ => None,
        }
    }

    /// The query that the request stands for, if it is one.
    pub fn query(&self) -> (r: Option<Query>)
        ensures
            r == query_of(self@),
    {
        match self {
            PollerAction::PollOldest => Some(
                Query { status: MessageStatus::Awaiting, command: None },
            ),
            _ => None,
        }
    }

    /// The claim that the request stands for, if it is one.
    pub fn claim(&self) -> (r: Option<Claim>)
        ensures
            r == claim_of(self@),
    {
        match self {
            PollerAction::MarkInProcess(id) => Some(
                Claim { id: *id, from: MessageStatus::Awaiting, to: MessageStatus::InProcess },
            ),
            PollerAction::MarkCompleted(id) => Some(
                Claim { id: *id, from: MessageStatus::InProcess, to: MessageStatus::Completed },
            ),
            _ => None,
        }
    }
}

/// The answer to a claim that took the log from `before` to `after`: lost
/// if nothing changed.
pub open spec fn claim_answered(before: Seq<MessageView>, after: Seq<MessageView>) -> (
    Seq<MessageView>,
    Option<PollerEventView>,
) {
    (
        after,
        Some(
            if after == before {
                PollerEventView::ClaimLost
            } else {
                PollerEventView::StatusUpdated
            },
        ),
    )
}

/// The view of an answer.
pub open spec fn event_view(event: Option<PollerEvent>) -> Option<PollerEventView> {
    match event {
        Some(event) => Some(event@),
        None => None,
    }
}

/// Carries out a request of the poller on `store` and gives the answer.
/// Requests that are not for the store have none.
pub fn answer(store: &mut Store, action: &PollerAction) -> (r: Option<PollerEvent>)
    ensures
        (final(store)@, event_view(r)) == answered(old(store)@, action@),
{
    if let Some(status) = action.counted() {
        Some(PollerEvent::Counted(store.count(status)))
    } else if let Some(query) = action.query() {
        Some(PollerEvent::Polled(store.select(query)))
    } else if let Some(claim) = action.claim() {
        match store.apply(claim) {
            Ok(()) => Some(PollerEvent::StatusUpdated),
            Err(_) => Some(PollerEvent::ClaimLost),
        }
    } else {
        None
    }
}

/// The poller, run against a store.
#[derive(Debug)]
pub struct EventPoller {
    pub state: PollerState,
}

impl EventPoller {
    /// A poller between two ticks.
    pub fn init() -> (r: EventPoller)
        ensures
            r.state@ == PollerStateView::Idle,
    {
        EventPoller { state: PollerState::Idle }
    }

    /// Whether a message is in process.
    pub fn is_locked(store: &Store) -> (r: bool)
        ensures
            r == locked(store@),
    {
        store.count(MessageStatus::InProcess) > 0
    }

    /// The oldest awaiting message.
    pub fn poll_message(store: &Store) -> (r: Option<ChatMessage>)
        ensures
            match r {
                Some(message) => oldest(store@, MessageStatus::Awaiting, None) is Some && message@
                    == store@[oldest(store@, MessageStatus::Awaiting, None)->Some_0],
                None => oldest(store@, MessageStatus::Awaiting, None) is None,
            },
    {
        store.select_oldest(MessageStatus::Awaiting, None)
    }

    /// The first half of a tick. If the poller is idle, no message is in
    /// process and some message awaits service, the oldest such message is
    /// marked as in process, and the side effect that serves it is handed
    /// out. If the poller still has a completion to write, it writes it.
    /// Otherwise nothing happens.
    pub fn start_tick(&mut self, store: &mut Store) -> (r: Option<Effect>)
        ensures
                old(self).state@ is Idle ==> final(store)@ == claimed(old(store)@),
            old(self).state@ matches PollerStateView::Completing(m) ==> {
                &&& final(store)@ == match m.id {
                    Some(id) => transitioned_from(
                        old(store)@,
                        id,
                        MessageStatus::InProcess,
                        MessageStatus::Completed,
                    ),
                    None => old(store)@,
                }
                &&& final(self).state@ is Idle
                &&& r is None
            },
            !(old(self).state@ is Idle) && !(old(self).state@ is Completing) ==> {
                &&& final(store)@ == old(store)@
                &&& final(self).state@ == old(self).state@
                &&& r is None
            },
            old(self).state@ is Idle ==> match claimable(old(store)@) {
                Some(at) => {
                    &&& final(self).state@ == PollerStateView::Dispatching(old(store)@[at])
                    &&& r matches Some(effect)
                    &&& effect@ == effect_of(old(store)@[at])
                },
                None => final(self).state@ is Idle && r is None,
            },
    {
        proof {
            use_type_invariant(&*store);
        }
        let mut state = PollerState::Idle;
        std::mem::swap(&mut self.state, &mut state);
        let (state, action) = step(state, PollerEvent::Tick);
        let (state, action) = match answer(store, &action) {
            Some(event) => step(state, event),
            None => {
                self.state = state;
                return None;
            },
        };
        let (state, action) = match answer(store, &action) {
            Some(event) => step(state, event),
            None => {
                self.state = state;
                return None;
            },
        };
        proof {
            if old(self).state@ is Idle && !locked(old(store)@) {
                lemma_oldest(old(store)@, MessageStatus::Awaiting, None);
            }
        }
        let (state, action) = match answer(store, &action) {
            Some(event) => step(state, event),
            None => {
                self.state = state;
                return None;
            },
        };
        self.state = state;
        match action {
            PollerAction::Run(effect) => Some(effect),
            _ => None,
        }
    }

    /// The second half of a tick: the message that was being served is
    /// marked as completed, whether `served` or not. Without a message
    /// being served nothing happens.
    pub fn finish_tick(&mut self, store: &mut Store, served: bool)
        ensures
                match old(self).state@ {
                PollerStateView::Dispatching(m) => {
                    &&& final(self).state@ is Idle
                    &&& final(store)@ == match m.id {
                        Some(id) => transitioned_from(
                            old(store)@,
                            id,
                            MessageStatus::InProcess,
                            MessageStatus::Completed,
                        ),
                        None => old(store)@,
                    }
                },
                _ => final(self).state@ == old(self).state@ && final(store)@ == old(store)@,
            },
    {
        let mut state = PollerState::Idle;
        std::mem::swap(&mut self.state, &mut state);
        let outcome = if served {
            PollerEvent::Served
        } else {
            PollerEvent::DispatchFailure
        };
        let (state, action) = step(state, outcome);
        let (state, _) = match answer(store, &action) {
            Some(event) => step(state, event),
            None => (state, action),
        };
        self.state = state;
    }
}

} // verus!
