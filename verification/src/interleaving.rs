//! The poller among the other producers and consumers of the log.
//!
//! The poller does not work in one piece: it asks for the number of
//! messages in process, then for the oldest awaiting message, then for the
//! claim, and between any two of its requests the router may replay a
//! message, a moderator approve some, the chat add new ones. This module
//! models that interleaving and shows that it never leaves two messages in
//! process, provided there is one poller and claims are conditional.
use crate::event_poller::dispatch::effect_of;
use crate::event_poller::{answered, transition, PollerActionView, PollerEventView,
    PollerStateView};
use crate::invariants::{lemma_only_claims_occupy, next, single_flight, Step};
use crate::store::{count_of, lemma_count_moved, position};
use crate::twitch::chat_message::MessageView;
use crate::twitch::status::MessageStatus;
use vstd::prelude::*;

verus! {

/// The log, the poller, and the request of the poller that is under way.
pub struct Backlog {
    pub log: Seq<MessageView>,
    pub poller: PollerStateView,
    pub pending: PollerActionView,
}

/// What can happen next.
pub enum Turn {
    /// The timer fires.
    Tick,
    /// The poller's request is carried out on the log and answered.
    Answer,
    /// The poller's request fails because the store cannot be reached.
    Outage,
    /// The side effect that the poller asked for has been performed.
    Served,
    /// The side effect that the poller asked for has failed.
    DispatchFailure,
    /// Somebody else changes the log.
    Elsewhere(Step),
}

/// Steps that others than the poller take: any step but the poller's claim
/// and completion.
pub open spec fn foreign(step: Step) -> bool {
    !(step is Claim) && !(step is Finish)
}

/// The backlog after `event` has reached the poller.
pub open spec fn delivered(backlog: Backlog, event: PollerEventView) -> Backlog {
    let (poller, asked) = transition(backlog.poller, event);
    Backlog {
        log: backlog.log,
        poller,
        pending: if asked is KeepWaiting {
            backlog.pending
        } else {
            asked
        },
    }
}

/// The backlog after a turn.
pub open spec fn after(backlog: Backlog, turn: Turn) -> Backlog {
    match turn {
        Turn::Tick => delivered(backlog, PollerEventView::Tick),
        Turn::Answer => {
            let (log, answer) = answered(backlog.log, backlog.pending);
            match answer {
                Some(event) => delivered(Backlog { log, ..backlog }, event),
                None => backlog,
            }
        },
        Turn::Outage => delivered(backlog, PollerEventView::StoreUnavailable),
        Turn::Served => delivered(backlog, PollerEventView::Served),
        Turn::DispatchFailure => delivered(backlog, PollerEventView::DispatchFailure),
        Turn::Elsewhere(step) => if foreign(step) {
            Backlog { log: next(backlog.log, step), ..backlog }
        } else {
            backlog
        },
    }
}

/// The backlog after a sequence of turns.
pub open spec fn after_all(backlog: Backlog, turns: Seq<Turn>) -> Backlog
    decreases turns.len(),
{
    if turns.len() == 0 {
        backlog
    } else {
        after(after_all(backlog, turns.drop_last()), turns.last())
    }
}

/// A backlog at rest: the poller is idle and waits for the tick.
pub open spec fn at_rest(backlog: Backlog) -> bool {
    backlog.poller is Idle && backlog.pending is Wait
}

/// What holds of the poller and the log together. While the poller is on
/// its way to a claim, no message is in process; at all times, at most one
/// is; and the request under way is the one that the poller's state calls
/// for.
pub open spec fn coherent(backlog: Backlog) -> bool {
    let busy = count_of(backlog.log, MessageStatus::InProcess);
    match backlog.poller {
        PollerStateView::Idle => backlog.pending is Wait && busy <= 1,
        PollerStateView::CheckingLock => backlog.pending is CountInProcess && busy <= 1,
        PollerStateView::Polling => backlog.pending is PollOldest && busy == 0,
        PollerStateView::Claiming(m) => {
            &&& m.id matches Some(id)
            &&& backlog.pending == PollerActionView::MarkInProcess(id)
            &&& busy == 0
        },
        PollerStateView::Dispatching(m) => {
            &&& backlog.pending == PollerActionView::Run(effect_of(m))
            &&& busy <= 1
        },
        PollerStateView::Completing(m) => {
            &&& m.id matches Some(id)
            &&& (backlog.pending == PollerActionView::MarkCompleted(id) || backlog.pending is Wait)
            &&& busy <= 1
        },
    }
}

/// Every turn keeps the backlog coherent.
pub proof fn lemma_turn_keeps_coherent(backlog: Backlog, turn: Turn)
    requires
        coherent(backlog),
    ensures
        coherent(after(backlog, turn)),
{
    let busy = MessageStatus::InProcess;
    match turn {
        Turn::Answer => {
            match backlog.pending {
                PollerActionView::MarkInProcess(id) => {
                    if let Some(at) = position(backlog.log, id) {
                        lemma_count_moved(backlog.log, at, busy, busy);
                    }
                },
                PollerActionView::MarkCompleted(id) => {
                    if let Some(at) = position(backlog.log, id) {
                        lemma_count_moved(backlog.log, at, MessageStatus::Completed, busy);
                    }
                },
                _ => {},
            }
        },
        Turn::Elsewhere(step) => {
            if foreign(step) {
                lemma_only_claims_occupy(backlog.log, step);
            }
        },
        _ => {},
    }
}

/// Single flight under interleaving: from a backlog at rest with at most
/// one message in process, whatever the timer, the store, the handlers and
/// the other consumers do, and in whatever order, at most one message is in
/// process after every turn.
pub proof fn lemma_single_flight_at_every_turn(backlog: Backlog, turns: Seq<Turn>)
    requires
        at_rest(backlog),
        single_flight(backlog.log),
    ensures
        coherent(after_all(backlog, turns)),
        single_flight(after_all(backlog, turns).log),
    decreases turns.len(),
{
    if turns.len() > 0 {
        lemma_single_flight_at_every_turn(backlog, turns.drop_last());
        lemma_turn_keeps_coherent(after_all(backlog, turns.drop_last()), turns.last());
    }
}

} // verus!
