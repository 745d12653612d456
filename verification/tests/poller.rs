use chat_backlog::event_poller::dispatch::{dispatch, Effect};
use chat_backlog::event_poller::{
    answer, step, EventPoller, PollerAction, PollerEvent, PollerState,
};
use chat_backlog::store::{Claim, Query, Store};
use chat_backlog::twitch::chat_message::{ChatMessage, MessageId};
use chat_backlog::twitch::commands::MessageCommands;
use chat_backlog::twitch::status::MessageStatus;

fn message(kind: MessageCommands, text: &str, author: &str, status: MessageStatus) -> ChatMessage {
    ChatMessage::new(None, text.to_string(), kind, author.to_string(), status)
}

fn stored(id: u128, kind: MessageCommands, text: &str) -> ChatMessage {
    ChatMessage::new(
        Some(MessageId(id)),
        text.to_string(),
        kind,
        "alice".to_string(),
        MessageStatus::Awaiting,
    )
}

fn status_of(store: &Store, id: u128) -> MessageStatus {
    store.get(MessageId(id)).unwrap().status
}

fn backlog(texts: &[&str]) -> Store {
    let mut store = Store::new();
    for text in texts {
        store
            .insert(message(
                MessageCommands::StoreChatMessage,
                text,
                "alice",
                MessageStatus::Awaiting,
            )).unwrap();
    }
    store
}

#[test]
fn prompt_goes_from_chat_to_the_agent_exactly_once() {
    let mut store = Store::new();
    let mut incoming =
        ChatMessage::from_chat_line("!PROMPT hello".to_string(), "alice".to_string()).unwrap();
    assert_eq!(incoming.command.kind(), MessageCommands::StoreChatMessage);
    assert_eq!(incoming.text(), "hello");
    incoming.insert(&mut store).unwrap();
    assert_eq!(store.len(), 1);
    assert_eq!(store.count(MessageStatus::Awaiting), 1);

    let mut poller = EventPoller::init();
    let mut forwarded: Vec<(String, String)> = Vec::new();
    let effect = poller.start_tick(&mut store).unwrap();
    assert_eq!(status_of(&store, 0), MessageStatus::InProcess);
    match effect {
        Effect::ForwardToAgent { sender, prompt } => forwarded.push((sender, prompt)),
        other => panic!("unexpected effect {other:?}"),
    }
    poller.finish_tick(&mut store, true);
    assert_eq!(status_of(&store, 0), MessageStatus::Completed);
    for _ in 0..3 {
        assert!(poller.start_tick(&mut store).is_none());
        poller.finish_tick(&mut store, true);
    }
    assert_eq!(forwarded, vec![("alice".to_string(), "hello".to_string())]);
    assert_eq!(status_of(&store, 0), MessageStatus::Completed);
}

#[test]
fn at_most_one_message_is_in_process_at_every_instant() {
    let mut store = backlog(&["a", "b", "c", "d"]);
    let mut poller = EventPoller::init();
    let mut served = 0;
    for round in 0..12 {
        assert!(store.count(MessageStatus::InProcess) <= 1);
        let effect = poller.start_tick(&mut store);
        assert!(store.count(MessageStatus::InProcess) <= 1);
        if effect.is_some() {
            served += 1;
            assert_eq!(store.count(MessageStatus::InProcess), 1);
            let mut second = EventPoller::init();
            assert!(second.start_tick(&mut store).is_none());
            assert_eq!(store.count(MessageStatus::InProcess), 1);
        }
        if round % 3 != 0 {
            poller.finish_tick(&mut store, round % 2 == 0);
            assert_eq!(store.count(MessageStatus::InProcess), 0);
        }
    }
    assert_eq!(served, 4);
    assert_eq!(store.count(MessageStatus::Completed), 4);
}

#[test]
fn a_tick_is_skipped_while_a_message_is_in_process() {
    let mut store = backlog(&["a", "b"]);
    store.update_status(MessageId(1), MessageStatus::InProcess).unwrap();
    assert!(EventPoller::is_locked(&store));
    let mut poller = EventPoller::init();
    assert!(poller.start_tick(&mut store).is_none());
    assert!(matches!(poller.state, PollerState::Idle));
    assert_eq!(status_of(&store, 0), MessageStatus::Awaiting);
    store.update_status(MessageId(1), MessageStatus::Completed).unwrap();
    assert!(!EventPoller::is_locked(&store));
    assert!(poller.start_tick(&mut store).is_some());
    assert_eq!(status_of(&store, 0), MessageStatus::InProcess);
}

#[test]
fn messages_are_served_in_the_order_of_insertion() {
    let mut store = backlog(&["first", "second", "third"]);
    let mut poller = EventPoller::init();
    let mut order = Vec::new();
    while let Some(effect) = poller.start_tick(&mut store) {
        match effect {
            Effect::ForwardToAgent { prompt, .. } => order.push(prompt),
            other => panic!("unexpected effect {other:?}"),
        }
        poller.finish_tick(&mut store, true);
    }
    assert_eq!(order, vec!["first", "second", "third"]);
    assert_eq!(EventPoller::poll_message(&store).map(|m| m.id), None);
}

#[test]
fn poll_message_gives_the_oldest_awaiting_message() {
    let mut store = backlog(&["first", "second"]);
    assert_eq!(EventPoller::poll_message(&store).unwrap().text(), "first");
    store.update_status(MessageId(0), MessageStatus::Completed).unwrap();
    assert_eq!(EventPoller::poll_message(&store).unwrap().text(), "second");
}

#[test]
fn a_completed_message_is_never_taken_up_again() {
    let mut store = backlog(&["only"]);
    let mut poller = EventPoller::init();
    assert!(poller.start_tick(&mut store).is_some());
    poller.finish_tick(&mut store, false);
    let done = store.get(MessageId(0)).unwrap();
    assert_eq!(done.status, MessageStatus::Completed);
    for _ in 0..10 {
        assert!(poller.start_tick(&mut store).is_none());
        poller.finish_tick(&mut store, true);
        let now = store.get(MessageId(0)).unwrap();
        assert_eq!(now.status, MessageStatus::Completed);
        assert_eq!(now.text(), done.text());
        assert_eq!(now.created_at, done.created_at);
    }
}

#[test]
fn a_failed_handler_still_completes_the_message() {
    let mut store = backlog(&["a"]);
    let mut poller = EventPoller::init();
    poller.start_tick(&mut store).unwrap();
    poller.finish_tick(&mut store, false);
    assert_eq!(status_of(&store, 0), MessageStatus::Completed);
    assert!(matches!(poller.state, PollerState::Idle));
}

#[test]
fn finishing_without_a_message_in_service_changes_nothing() {
    let mut store = backlog(&["a"]);
    let mut poller = EventPoller::init();
    poller.finish_tick(&mut store, true);
    assert!(matches!(poller.state, PollerState::Idle));
    assert_eq!(status_of(&store, 0), MessageStatus::Awaiting);
}

#[test]
fn a_busy_poller_ignores_the_tick() {
    let mut store = backlog(&["a", "b"]);
    let mut poller = EventPoller::init();
    poller.start_tick(&mut store).unwrap();
    assert!(poller.start_tick(&mut store).is_none());
    assert!(matches!(poller.state, PollerState::Dispatching(ref m) if m.id == Some(MessageId(0))));
    assert_eq!(status_of(&store, 1), MessageStatus::Awaiting);
}

#[test]
fn step_walks_through_a_whole_tick() {
    let job = stored(3, MessageCommands::SetTheme, " dark ");
    let (state, action) = step(PollerState::Idle, PollerEvent::Tick);
    assert!(matches!(state, PollerState::CheckingLock));
    assert!(matches!(action, PollerAction::CountInProcess));
    let (state, action) = step(state, PollerEvent::Counted(0));
    assert!(matches!(state, PollerState::Polling));
    assert!(matches!(action, PollerAction::PollOldest));
    let (state, action) = step(state, PollerEvent::Polled(Some(job)));
    assert!(matches!(state, PollerState::Claiming(_)));
    assert!(matches!(action, PollerAction::MarkInProcess(MessageId(3))));
    let (state, action) = step(state, PollerEvent::StatusUpdated);
    assert!(matches!(state, PollerState::Dispatching(_)));
    assert!(matches!(action, PollerAction::Run(Effect::ApplyTheme { ref mode }) if mode == "dark"));
    let (state, action) = step(state, PollerEvent::DispatchFailure);
    assert!(matches!(state, PollerState::Completing(_)));
    assert!(matches!(action, PollerAction::MarkCompleted(MessageId(3))));
    let (state, action) = step(state, PollerEvent::StatusUpdated);
    assert!(matches!(state, PollerState::Idle));
    assert!(matches!(action, PollerAction::Wait));
}

#[test]
fn step_skips_the_tick_when_locked_or_empty() {
    let (state, action) = step(PollerState::CheckingLock, PollerEvent::Counted(1));
    assert!(matches!((state, action), (PollerState::Idle, PollerAction::Wait)));
    let (state, action) = step(PollerState::CheckingLock, PollerEvent::Counted(usize::MAX));
    assert!(matches!((state, action), (PollerState::Idle, PollerAction::Wait)));
    let (state, action) = step(PollerState::Polling, PollerEvent::Polled(None));
    assert!(matches!((state, action), (PollerState::Idle, PollerAction::Wait)));
    let unsaved = message(MessageCommands::SetSong, "x", "a", MessageStatus::Awaiting);
    let (state, action) = step(PollerState::Polling, PollerEvent::Polled(Some(unsaved)));
    assert!(matches!((state, action), (PollerState::Idle, PollerAction::Wait)));
}

#[test]
fn step_abandons_the_tick_when_the_store_is_unavailable() {
    let job = || stored(1, MessageCommands::SetSong, "x");
    for state in [
        PollerState::CheckingLock,
        PollerState::Polling,
        PollerState::Claiming(job()),
    ] {
        let (state, action) = step(state, PollerEvent::StoreUnavailable);
        assert!(matches!((state, action), (PollerState::Idle, PollerAction::Wait)));
    }
}

#[test]
fn step_asks_again_for_a_completion_that_could_not_be_written() {
    let job = stored(6, MessageCommands::SetSong, "x");
    let (state, action) = step(PollerState::Completing(job), PollerEvent::StoreUnavailable);
    assert!(matches!(state, PollerState::Completing(ref m) if m.id == Some(MessageId(6))));
    assert!(matches!(action, PollerAction::Wait));
    let (state, action) = step(state, PollerEvent::Tick);
    assert!(matches!(state, PollerState::Completing(_)));
    assert!(matches!(action, PollerAction::MarkCompleted(MessageId(6))));
    let (state, action) = step(state, PollerEvent::StatusUpdated);
    assert!(matches!((state, action), (PollerState::Idle, PollerAction::Wait)));
}

#[test]
fn step_abandons_the_tick_when_the_claim_is_lost() {
    let job = || stored(1, MessageCommands::SetSong, "x");
    for state in [PollerState::Claiming(job()), PollerState::Completing(job())] {
        let (state, action) = step(state, PollerEvent::ClaimLost);
        assert!(matches!((state, action), (PollerState::Idle, PollerAction::Wait)));
    }
    let (state, action) = step(PollerState::Polling, PollerEvent::ClaimLost);
    assert!(matches!((state, action), (PollerState::Polling, PollerAction::KeepWaiting)));
}

#[test]
fn step_completes_the_message_whether_served_or_not() {
    for event in [PollerEvent::Served, PollerEvent::DispatchFailure] {
        let job = stored(4, MessageCommands::SetSong, "x");
        let (state, action) = step(PollerState::Dispatching(job), event);
        assert!(matches!(state, PollerState::Completing(ref m) if m.id == Some(MessageId(4))));
        assert!(matches!(action, PollerAction::MarkCompleted(MessageId(4))));
    }
    let unsaved = message(MessageCommands::SetSong, "x", "a", MessageStatus::Awaiting);
    let (state, action) = step(PollerState::Dispatching(unsaved), PollerEvent::Served);
    assert!(matches!((state, action), (PollerState::Idle, PollerAction::Wait)));
}

#[test]
fn step_ignores_events_that_answer_nothing() {
    let job = || stored(1, MessageCommands::SetSong, "x");
    let (state, action) = step(PollerState::Idle, PollerEvent::StatusUpdated);
    assert!(matches!((state, action), (PollerState::Idle, PollerAction::KeepWaiting)));
    let (state, action) = step(PollerState::Idle, PollerEvent::StoreUnavailable);
    assert!(matches!((state, action), (PollerState::Idle, PollerAction::KeepWaiting)));
    let (state, action) = step(PollerState::Dispatching(job()), PollerEvent::Tick);
    assert!(matches!((state, action), (PollerState::Dispatching(_), PollerAction::KeepWaiting)));
    let (state, action) = step(PollerState::Dispatching(job()), PollerEvent::StoreUnavailable);
    assert!(matches!((state, action), (PollerState::Dispatching(_), PollerAction::KeepWaiting)));
    let (state, action) = step(PollerState::Claiming(job()), PollerEvent::Served);
    assert!(matches!((state, action), (PollerState::Claiming(_), PollerAction::KeepWaiting)));
    let (state, action) = step(PollerState::Polling, PollerEvent::Counted(0));
    assert!(matches!((state, action), (PollerState::Polling, PollerAction::KeepWaiting)));
}

#[test]
fn answer_carries_out_the_requests_for_the_store() {
    let mut store = backlog(&["a", "b"]);
    assert!(matches!(
        answer(&mut store, &PollerAction::CountInProcess),
        Some(PollerEvent::Counted(0))
    ));
    assert!(matches!(
        answer(&mut store, &PollerAction::PollOldest),
        Some(PollerEvent::Polled(Some(ref m))) if m.id == Some(MessageId(0))
    ));
    assert!(matches!(
        answer(&mut store, &PollerAction::MarkCompleted(MessageId(0))),
        Some(PollerEvent::ClaimLost)
    ));
    assert!(matches!(
        answer(&mut store, &PollerAction::MarkInProcess(MessageId(0))),
        Some(PollerEvent::StatusUpdated)
    ));
    assert!(matches!(
        answer(&mut store, &PollerAction::MarkInProcess(MessageId(0))),
        Some(PollerEvent::ClaimLost)
    ));
    assert!(matches!(
        answer(&mut store, &PollerAction::CountInProcess),
        Some(PollerEvent::Counted(1))
    ));
    assert!(matches!(
        answer(&mut store, &PollerAction::MarkCompleted(MessageId(0))),
        Some(PollerEvent::StatusUpdated)
    ));
    assert!(matches!(
        answer(&mut store, &PollerAction::MarkInProcess(MessageId(9))),
        Some(PollerEvent::ClaimLost)
    ));
    assert!(answer(&mut store, &PollerAction::Wait).is_none());
    assert!(answer(&mut store, &PollerAction::KeepWaiting).is_none());
    assert!(answer(&mut store, &PollerAction::Run(Effect::Skip)).is_none());
    assert_eq!(status_of(&store, 0), MessageStatus::Completed);
    assert_eq!(status_of(&store, 1), MessageStatus::Awaiting);
}

#[test]
fn dispatch_maps_each_command_to_its_effect() {
    let prompt = message(MessageCommands::StoreChatMessage, " hi there ", "bob", MessageStatus::Awaiting);
    assert!(matches!(
        dispatch(&prompt),
        Effect::ForwardToAgent { ref sender, ref prompt } if sender == "bob" && prompt == " hi there "
    ));
    let theme = message(MessageCommands::SetTheme, "  neon\n", "bob", MessageStatus::Awaiting);
    assert!(matches!(dispatch(&theme), Effect::ApplyTheme { ref mode } if mode == "neon"));
    let song = message(
        MessageCommands::SetSong,
        "https://open.spotify.com/track/4uLU6hMCjMI75M1A2tKUQC?si=abc",
        "bob",
        MessageStatus::Awaiting,
    );
    assert!(matches!(
        dispatch(&song),
        Effect::QueueTrack { ref uri } if uri == "spotify:track:4uLU6hMCjMI75M1A2tKUQC"
    ));
    let no_track = message(MessageCommands::SetSong, "some song", "bob", MessageStatus::Awaiting);
    assert!(matches!(dispatch(&no_track), Effect::NoTrack));
    let unknown = message(MessageCommands::Unknown, "x", "bob", MessageStatus::Awaiting);
    assert!(matches!(dispatch(&unknown), Effect::Skip));
}

#[test]
fn dispatch_leaves_the_store_to_the_poller() {
    let mut store = backlog(&["a"]);
    let row = store.get(MessageId(0)).unwrap();
    let _ = dispatch(&row);
    assert_eq!(status_of(&store, 0), MessageStatus::Awaiting);
    assert_eq!(store.len(), 1);
    store.update_status(MessageId(0), MessageStatus::InProcess).unwrap();
}

#[test]
fn poller_requests_stand_for_their_count_query_and_claim() {
    let awaiting = Query { status: MessageStatus::Awaiting, command: None };
    assert_eq!(PollerAction::CountInProcess.counted(), Some(MessageStatus::InProcess));
    assert_eq!(PollerAction::CountInProcess.query(), None);
    assert_eq!(PollerAction::CountInProcess.claim(), None);
    assert_eq!(PollerAction::PollOldest.query(), Some(awaiting));
    assert_eq!(PollerAction::PollOldest.counted(), None);
    assert_eq!(PollerAction::PollOldest.claim(), None);
    assert_eq!(
        PollerAction::MarkInProcess(MessageId(7)).claim(),
        Some(Claim {
            id: MessageId(7),
            from: MessageStatus::Awaiting,
            to: MessageStatus::InProcess
        })
    );
    assert_eq!(
        PollerAction::MarkCompleted(MessageId(7)).claim(),
        Some(Claim {
            id: MessageId(7),
            from: MessageStatus::InProcess,
            to: MessageStatus::Completed
        })
    );
    assert_eq!(PollerAction::MarkCompleted(MessageId(7)).query(), None);
    for action in [PollerAction::Wait, PollerAction::KeepWaiting, PollerAction::Run(Effect::Skip)] {
        assert_eq!(action.counted(), None);
        assert_eq!(action.query(), None);
        assert_eq!(action.claim(), None);
    }
}
