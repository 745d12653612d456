//! What holds of the message log whatever its producers and consumers do.
//!
//! The log changes in steps: a message is taken in, a moderator approves
//! messages, the poller takes up a message or completes the one it took up,
//! the router replays a message, the configuration endpoint drains one.
//! The lemmas of this module speak of every step and of every run of steps.
use crate::api::{drained, replayed};
use crate::event_poller::{claimable, claimed, locked};
use crate::store::{approved, entered, count_of, has_author_at, has_text, inserted, lemma_count_by_stage,
    lemma_count_inserted, lemma_count_moved, lemma_count_zero, lemma_oldest,
    lemma_oldest_by_from, oldest, oldest_by_from, position, selects, stored, transitioned_from,
    well_formed};
use crate::twitch::chat_message::{ingested, is_duplicate, MessageId, MessageView};
use crate::twitch::commands::MessageCommands;
use crate::twitch::status::MessageStatus;
use vstd::prelude::*;

verus! {

/// One change of the log.
pub enum Step {
    /// A new message asks to enter; it is appended if it is unverified or
    /// awaits service, and left out otherwise.
    Insert(MessageView),
    /// A moderator approves the messages with these identifiers.
    Approve(Seq<MessageId>),
    /// The poller takes up the oldest awaiting message, unless one is in
    /// process.
    Claim,
    /// The poller completes the message it took up.
    Finish(MessageId),
    /// The router replays the oldest awaiting message of a kind.
    Replay(Option<MessageCommands>),
    /// The oldest awaiting message of an author is drained.
    Drain(Seq<char>),
    /// An awaiting message is completed by whoever selected it before.
    Complete(MessageId),
}

/// The log after a step.
pub open spec fn next(log: Seq<MessageView>, step: Step) -> Seq<MessageView> {
    match step {
        Step::Insert(m) => entered(log, m),
        Step::Approve(ids) => approved(log, ids),
        Step::Claim => claimed(log),
        Step::Finish(id) => transitioned_from(
            log,
            id,
            MessageStatus::InProcess,
            MessageStatus::Completed,
        ),
        Step::Replay(source) => replayed(log, source),
        Step::Drain(username) => drained(log, username),
        Step::Complete(id) => transitioned_from(
            log,
            id,
            MessageStatus::Awaiting,
            MessageStatus::Completed,
        ),
    }
}

/// The log after a run of steps.
pub open spec fn run(log: Seq<MessageView>, steps: Seq<Step>) -> Seq<MessageView>
    decreases steps.len(),
{
    if steps.len() == 0 {
        log
    } else {
        next(run(log, steps.drop_last()), steps.last())
    }
}

/// At most one message is in process.
pub open spec fn single_flight(log: Seq<MessageView>) -> bool {
    count_of(log, MessageStatus::InProcess) <= 1
}

/// Every step keeps identifiers and ordering keys in the order of insertion,
/// and never shortens the log.
pub proof fn lemma_step_keeps_well_formed(log: Seq<MessageView>, step: Step)
    requires
        well_formed(log),
        log.len() < usize::MAX,
    ensures
        well_formed(next(log, step)),
        next(log, step).len() >= log.len(),
{
    lemma_step_advances(log, step);
}

/// A step leaves each message as it was or moves it along one transition
/// that its status allows; its text, author, kind, identifier and ordering
/// key stay. A step appends at most one message and removes none.
pub proof fn lemma_step_advances(log: Seq<MessageView>, step: Step)
    ensures
        log.len() <= next(log, step).len() <= log.len() + 1,
        next(log, step).len() == log.len() + 1 ==> step is Insert && next(log, step).last()
            == stored(log, step->Insert_0),
        forall|i: int|
            0 <= i < log.len() ==> {
                ||| (#[trigger] next(log, step)[i]) == log[i]
                ||| (log[i].status.allows(next(log, step)[i].status) && next(log, step)[i]
                    == log[i].with_status(next(log, step)[i].status))
            },
{
    match step {
        Step::Insert(m) => {},
        Step::Approve(ids) => {},
        Step::Claim => {
            lemma_oldest(log, MessageStatus::Awaiting, None);
        },
        Step::Finish(id) => {},
        Step::Replay(source) => {
            lemma_oldest(log, MessageStatus::Awaiting, source);
        },
        Step::Drain(username) => {
            lemma_oldest_by_from(log, MessageStatus::Awaiting, username, 0);
        },
        Step::Complete(id) => {},
    }
}

/// Single flight: a step that starts from a log with at most one message in
/// process ends in such a log.
pub proof fn lemma_step_keeps_single_flight(log: Seq<MessageView>, step: Step)
    requires
        single_flight(log),
    ensures
        single_flight(next(log, step)),
{
    match step {
        Step::Claim => {
            if let Some(at) = claimable(log) {
                lemma_oldest(log, MessageStatus::Awaiting, None);
                lemma_count_moved(log, at, MessageStatus::InProcess, MessageStatus::InProcess);
            }
        },
        _ => {
            lemma_only_claims_occupy(log, step);
        },
    }
}

/// Single flight at every instant: after every run of steps from a log with
/// at most one message in process, at most one message is in process.
pub proof fn lemma_run_keeps_single_flight(log: Seq<MessageView>, steps: Seq<Step>)
    requires
        single_flight(log),
    ensures
        single_flight(run(log, steps)),
    decreases steps.len(),
{
    if steps.len() > 0 {
        let init = steps.drop_last();
        lemma_run_keeps_single_flight(log, init);
        lemma_step_keeps_single_flight(run(log, init), steps.last());
    }
}

/// While a message is in process, a tick takes up nothing and changes
/// nothing.
pub proof fn lemma_no_claim_while_locked(log: Seq<MessageView>)
    requires
        locked(log),
    ensures
        claimable(log) is None,
        next(log, Step::Claim) == log,
{
}

/// A tick that takes up a message leaves exactly that message in process,
/// and the log locked.
pub proof fn lemma_claim_locks(log: Seq<MessageView>)
    requires
        claimable(log) is Some,
    ensures
        count_of(claimed(log), MessageStatus::InProcess) == 1,
        locked(claimed(log)),
        claimed(log)[claimable(log)->Some_0].status == MessageStatus::InProcess,
{
    let at = claimable(log)->Some_0;
    lemma_oldest(log, MessageStatus::Awaiting, None);
    lemma_count_moved(log, at, MessageStatus::InProcess, MessageStatus::InProcess);
}

/// Oldest first: the message that a query selects was created before every
/// other message that fits the query.
pub proof fn lemma_oldest_created_first(
    log: Seq<MessageView>,
    status: MessageStatus,
    command: Option<MessageCommands>,
    other: int,
)
    requires
        well_formed(log),
        0 <= other < log.len(),
        selects(log[other], status, command),
    ensures
        oldest(log, status, command) matches Some(at) && at <= other && log[at].created_at
            <= log[other].created_at && (at != other ==> log[at].created_at
            < log[other].created_at),
{
    lemma_oldest(log, status, command);
}

/// First in, first out: of two awaiting messages the poller takes up the
/// one inserted first, and once that one is completed, the other, provided
/// no older message awaits service. So messages inserted one after the
/// other are taken up in that order.
pub proof fn lemma_claims_in_insertion_order(log: Seq<MessageView>, first: int, second: int)
    requires
        well_formed(log),
        !locked(log),
        0 <= first < second < log.len(),
        log[first].status == MessageStatus::Awaiting,
        log[second].status == MessageStatus::Awaiting,
        forall|i: int|
            0 <= i < second && i != first ==> (#[trigger] log[i]).status != MessageStatus::Awaiting
                && log[i].status != MessageStatus::InProcess,
        forall|i: int| second < i < log.len() ==> (#[trigger] log[i]).status != MessageStatus::InProcess,
    ensures
        claimable(log) == Some(first),
        claimable(
            next(next(log, Step::Claim), Step::Finish(MessageId(first as u128))),
        ) == Some(second),
{
    lemma_oldest(log, MessageStatus::Awaiting, None);
    let taken = next(log, Step::Claim);
    let done = next(taken, Step::Finish(MessageId(first as u128)));
    lemma_count_zero(done, MessageStatus::InProcess);
    lemma_oldest(done, MessageStatus::Awaiting, None);
    assert(selects(done[second], MessageStatus::Awaiting, None));
}

/// A completed message is final: no step changes it.
pub proof fn lemma_step_leaves_completed(log: Seq<MessageView>, step: Step, at: int)
    requires
        0 <= at < log.len(),
        log[at].status == MessageStatus::Completed,
    ensures
        at < next(log, step).len(),
        next(log, step)[at] == log[at],
{
    lemma_step_advances(log, step);
}

/// Once completed, never again: after any run of steps a completed message
/// stands unchanged, and no tick, replay or drain selects it.
pub proof fn lemma_completed_is_never_selected(
    log: Seq<MessageView>,
    steps: Seq<Step>,
    at: int,
)
    requires
        0 <= at < log.len(),
        log[at].status == MessageStatus::Completed,
    ensures
        at < run(log, steps).len(),
        run(log, steps)[at] == log[at],
        claimable(run(log, steps)) != Some(at),
        forall|source: Option<MessageCommands>|
            oldest(run(log, steps), MessageStatus::Awaiting, source) != Some(at),
    decreases steps.len(),
{
    if steps.len() > 0 {
        lemma_completed_is_never_selected(log, steps.drop_last(), at);
        lemma_step_leaves_completed(run(log, steps.drop_last()), steps.last(), at);
    }
    let now = run(log, steps);
    assert forall|source: Option<MessageCommands>|
        oldest(now, MessageStatus::Awaiting, source) != Some(at) by {
        lemma_oldest(now, MessageStatus::Awaiting, source);
    }
}

/// Claims exclude each other: when a claim on a message has succeeded, a
/// second claim on it from the same stage changes nothing.
pub proof fn lemma_claim_is_exclusive(
    log: Seq<MessageView>,
    id: MessageId,
    from: MessageStatus,
    to: MessageStatus,
    again: MessageStatus,
)
    requires
        transitioned_from(log, id, from, to) != log,
    ensures
        transitioned_from(transitioned_from(log, id, from, to), id, from, again)
            == transitioned_from(log, id, from, to),
{
}

/// Only the poller's claim puts a message in process: no other step raises
/// the number of messages in process.
pub proof fn lemma_only_claims_occupy(log: Seq<MessageView>, step: Step)
    requires
        !(step is Claim),
    ensures
        count_of(next(log, step), MessageStatus::InProcess) <= count_of(
            log,
            MessageStatus::InProcess,
        ),
{
    let busy = MessageStatus::InProcess;
    match step {
        Step::Insert(m) => {
            lemma_count_inserted(log, m, busy);
        },
        Step::Approve(ids) => {
            lemma_count_by_stage(log, approved(log, ids), busy);
        },
        Step::Claim => {},
        Step::Finish(id) => {
            if let Some(at) = position(log, id) {
                if log[at].status == busy {
                    lemma_count_moved(log, at, MessageStatus::Completed, busy);
                }
            }
        },
        Step::Replay(source) => {
            if let Some(at) = oldest(log, MessageStatus::Awaiting, source) {
                lemma_oldest(log, MessageStatus::Awaiting, source);
                lemma_count_moved(log, at, MessageStatus::Completed, busy);
            }
        },
        Step::Drain(username) => {
            lemma_oldest_by_from(log, MessageStatus::Awaiting, username, 0);
            if let Some(at) = oldest_by_from(log, MessageStatus::Awaiting, username, 0) {
                lemma_count_moved(log, at, MessageStatus::Completed, busy);
            }
        },
        Step::Complete(id) => {
            if let Some(at) = position(log, id) {
                if log[at].status == MessageStatus::Awaiting {
                    lemma_count_moved(log, at, MessageStatus::Completed, busy);
                }
            }
        },
    }
}

/// Only a moderator's approval lets a stored message await service: after
/// any other step, a message that did not await service before does not
/// await it now.
pub proof fn lemma_only_approval_queues(log: Seq<MessageView>, step: Step, at: int)
    requires
        !(step is Approve),
        0 <= at < log.len(),
        log[at].status != MessageStatus::Awaiting,
    ensures
        at < next(log, step).len(),
        next(log, step)[at].status != MessageStatus::Awaiting,
{
    match step {
        Step::Claim => {
            lemma_oldest(log, MessageStatus::Awaiting, None);
        },
        Step::Replay(source) => {
            lemma_oldest(log, MessageStatus::Awaiting, source);
        },
        Step::Drain(username) => {
            lemma_oldest_by_from(log, MessageStatus::Awaiting, username, 0);
        },
        _ => {},
    }
}

/// Claims move forward: once the poller has taken up a message, whatever
/// it takes up later, after any run of steps without a moderator's
/// approval, stands later in the log. So any number of messages that await
/// service are taken up in the order of their insertion.
pub proof fn lemma_claims_move_forward(log: Seq<MessageView>, steps: Seq<Step>)
    requires
        claimable(log) is Some,
        forall|k: int| 0 <= k < steps.len() ==> !(#[trigger] steps[k] is Approve),
    ensures
        claimable(run(claimed(log), steps)) matches Some(later) ==> later > claimable(log)->Some_0,
{
    lemma_nothing_awaits_behind(log, steps);
    lemma_oldest(run(claimed(log), steps), MessageStatus::Awaiting, None);
}

/// After a claim and any run of steps without a moderator's approval, no
/// message up to the claimed one awaits service.
proof fn lemma_nothing_awaits_behind(log: Seq<MessageView>, steps: Seq<Step>)
    requires
        claimable(log) is Some,
        forall|k: int| 0 <= k < steps.len() ==> !(#[trigger] steps[k] is Approve),
    ensures
        run(claimed(log), steps).len() > claimable(log)->Some_0,
        forall|i: int|
            0 <= i <= claimable(log)->Some_0 ==> (#[trigger] run(claimed(log), steps)[i]).status
                != MessageStatus::Awaiting,
    decreases steps.len(),
{
    let first = claimable(log)->Some_0;
    lemma_oldest(log, MessageStatus::Awaiting, None);
    if steps.len() > 0 {
        let init = steps.drop_last();
        lemma_nothing_awaits_behind(log, init);
        let before = run(claimed(log), init);
        assert forall|i: int| 0 <= i <= first implies (#[trigger] run(claimed(log), steps)[i]).status
            != MessageStatus::Awaiting by {
            lemma_only_approval_queues(before, steps.last(), i);
        }
        lemma_step_advances(before, steps.last());
    }
}

/// The log only grows and its messages only advance: after any run of
/// steps, every message that was there is still there, with its text, its
/// author, its kind, its identifier and its ordering key, at the same stage
/// or a later one.
pub proof fn lemma_run_only_advances(log: Seq<MessageView>, steps: Seq<Step>, at: int)
    requires
        0 <= at < log.len(),
    ensures
        at < run(log, steps).len(),
        run(log, steps)[at] == log[at].with_status(run(log, steps)[at].status),
        log[at].status.rank() <= run(log, steps)[at].status.rank(),
    decreases steps.len(),
{
    if steps.len() > 0 {
        lemma_run_only_advances(log, steps.drop_last(), at);
        lemma_step_advances(run(log, steps.drop_last()), steps.last());
    }
}

/// A message is taken once: a message that is in process or completed
/// never awaits service again, whatever happens, so that no consumer can
/// take it a second time.
pub proof fn lemma_taken_once(log: Seq<MessageView>, steps: Seq<Step>, at: int)
    requires
        0 <= at < log.len(),
        log[at].status == MessageStatus::InProcess || log[at].status == MessageStatus::Completed,
    ensures
        at < run(log, steps).len(),
        run(log, steps)[at].status != MessageStatus::Awaiting,
        run(log, steps)[at].status != MessageStatus::Unverified,
{
    lemma_run_only_advances(log, steps, at);
}

/// In a well-formed log, identifiers differ and ordering keys grow with the
/// position.
pub proof fn lemma_well_formed_orders(log: Seq<MessageView>, earlier: int, later: int)
    requires
        well_formed(log),
        0 <= earlier < later < log.len(),
    ensures
        log[earlier].id != log[later].id,
        log[earlier].created_at < log[later].created_at,
{
}

/// One text, one message: of two chat messages for the agent with the same
/// text, taken in one after the other, the second is left out. If no
/// message carried the text before, exactly one does afterwards.
pub proof fn lemma_same_text_is_stored_once(
    log: Seq<MessageView>,
    first: MessageView,
    second: MessageView,
)
    requires
        first.kind == MessageCommands::StoreChatMessage,
        second.kind == MessageCommands::StoreChatMessage,
        first.text == second.text,
        first.status.enters(),
    ensures
        is_duplicate(ingested(log, first), second),
        ingested(ingested(log, first), second) == ingested(log, first),
        !has_text(log, first.text) ==> {
            let after = ingested(ingested(log, first), second);
            &&& after.len() == log.len() + 1
            &&& forall|i: int|
                0 <= i < after.len() ==> ((#[trigger] after[i]).text == first.text <==> i
                    == log.len())
        },
{
    let once = ingested(log, first);
    if !has_text(log, first.text) {
        assert(once[log.len() as int].text == first.text);
    }
}

/// One pending theme change per author: of two theme changes by the same
/// author that enter at the same stage, taken in one after the other, the
/// second is left out. If the author had no message at that stage before,
/// exactly one is there afterwards.
pub proof fn lemma_same_author_theme_is_stored_once(
    log: Seq<MessageView>,
    first: MessageView,
    second: MessageView,
)
    requires
        first.kind == MessageCommands::SetTheme,
        second.kind == MessageCommands::SetTheme,
        first.username == second.username,
        first.status == second.status,
        first.status.enters(),
    ensures
        is_duplicate(ingested(log, first), second),
        ingested(ingested(log, first), second) == ingested(log, first),
        !has_author_at(log, first.username, first.status) ==> {
            let after = ingested(ingested(log, first), second);
            &&& after.len() == log.len() + 1
            &&& forall|i: int|
                0 <= i < after.len() ==> (((#[trigger] after[i]).username == first.username
                    && after[i].status == first.status) <==> i == log.len())
        },
{
    let once = ingested(log, first);
    if !has_author_at(log, first.username, first.status) {
        assert(once[log.len() as int].username == first.username && once[log.len() as int].status
            == first.status);
    }
}

} // verus!
