use chat_backlog::command_framework::command_framework::{
    contains_kind, dispatch_event, dispatch_message, CommandFramework,
};
use chat_backlog::command_framework::parser::ParseError;
use chat_backlog::command_framework::{Context, Event, Framework, Message, User};
use chat_backlog::store::Store;
use chat_backlog::twitch::chat_message::{ChatMessage, DuplicateRule, Inserted, MessageId};
use chat_backlog::twitch::commands::MessageCommands;
use chat_backlog::twitch::status::MessageStatus;

fn chat(text: &str, author: &str) -> ChatMessage {
    ChatMessage::from_chat_line(text.to_string(), author.to_string()).unwrap()
}

fn line(content: &str, login: &str) -> Message {
    Message {
        id: "m-1".to_string(),
        user: User {
            id: "42".to_string(),
            login: login.to_string(),
            name: login.to_uppercase(),
        },
        content: content.to_string(),
    }
}

fn all_commands() -> Vec<MessageCommands> {
    vec![
        MessageCommands::StoreChatMessage,
        MessageCommands::SetTheme,
        MessageCommands::SetSong,
    ]
}

#[test]
fn chat_line_is_parsed_and_awaits_service() {
    let message = chat("!PROMPT hello", "alice");
    assert_eq!(message.id, None);
    assert_eq!(message.command.kind(), MessageCommands::StoreChatMessage);
    assert_eq!(message.text(), "hello");
    assert_eq!(message.username, "alice");
    assert_eq!(message.status, MessageStatus::Awaiting);
    assert_eq!(message.created_at, 0);
    assert_eq!(
        ChatMessage::from_chat_line("hello".to_string(), "alice".to_string()).unwrap_err(),
        ParseError::MalformedInput
    );
}

#[test]
fn raw_message_keeps_its_text_and_has_no_id() {
    let message = ChatMessage::from_raw_message("hello".to_string(), "alice".to_string());
    assert_eq!(message.id, None);
    assert_eq!(message.text(), "hello");
    assert_eq!(message.username, "alice");
    assert_eq!(message.status, MessageStatus::Awaiting);
    assert_eq!(message.command.kind(), MessageCommands::Unknown);
    assert_eq!(message.created_at, 0);
}

#[test]
fn raw_message_is_not_read_as_a_chat_line() {
    let message = ChatMessage::from_raw_message("!PROMPT hello".to_string(), "bob".to_string());
    assert_eq!(message.text(), "!PROMPT hello");
    assert_eq!(message.username, "bob");
    assert_eq!(message.command.kind(), MessageCommands::Unknown);
    let empty = ChatMessage::from_raw_message(String::new(), String::new());
    assert_eq!(empty.text(), "");
    assert_eq!(empty.username, "");
    assert_eq!(empty.id, None);
}

#[test]
fn raw_message_is_stored_under_the_next_identifier() {
    let mut store = Store::new();
    let mut message = ChatMessage::from_raw_message("hello".to_string(), "alice".to_string());
    assert_eq!(message.insert(&mut store).unwrap(), Inserted::Stored(MessageId(0)));
    assert_eq!(message.id, Some(MessageId(0)));
    let row = store.get(MessageId(0)).unwrap();
    assert_eq!(row.text(), "hello");
    assert_eq!(row.username, "alice");
    assert_eq!(row.status, MessageStatus::Awaiting);
}

#[test]
fn same_prompt_text_is_stored_once() {
    let mut store = Store::new();
    let mut first = chat("!PROMPT hello", "alice");
    let mut second = chat("!PROMPT hello", "bob");
    assert!(!first.if_exists(&store));
    assert_eq!(first.insert(&mut store).unwrap(), Inserted::Stored(MessageId(0)));
    assert!(second.if_exists(&store));
    assert_eq!(second.insert(&mut store).unwrap(), Inserted::DuplicateSkipped);
    assert_eq!(second.id, None);
    assert_eq!(store.len(), 1);
    assert_eq!(store.get(MessageId(0)).unwrap().username, "alice");
    let mut third = chat("!PROMPT hello!", "alice");
    assert_eq!(third.insert(&mut store).unwrap(), Inserted::Stored(MessageId(1)));
    assert_eq!(store.len(), 2);
}

#[test]
fn prompt_text_is_a_duplicate_whatever_carries_it() {
    let mut store = Store::new();
    let mut song = chat("!PLAY hello", "alice");
    assert_eq!(song.insert(&mut store).unwrap(), Inserted::Stored(MessageId(0)));
    store.update_status(MessageId(0), MessageStatus::Completed).unwrap();
    let mut prompt = chat("!PROMPT hello", "bob");
    assert_eq!(prompt.insert(&mut store).unwrap(), Inserted::DuplicateSkipped);
    let mut again = chat("!PLAY hello", "alice");
    assert_eq!(again.insert(&mut store).unwrap(), Inserted::Stored(MessageId(1)));
}

#[test]
fn same_author_theme_is_stored_once_while_one_awaits() {
    let mut store = Store::new();
    let mut first = chat("!CHAOS dark", "alice");
    let mut second = chat("!CHAOS light", "alice");
    assert!(!first.is_duplicate_theme(&store));
    assert_eq!(first.insert(&mut store).unwrap(), Inserted::Stored(MessageId(0)));
    assert!(second.is_duplicate_theme(&store));
    assert_eq!(second.insert(&mut store).unwrap(), Inserted::DuplicateSkipped);
    assert_eq!(store.len(), 1);
    assert_eq!(store.count(MessageStatus::Awaiting), 1);
    assert_eq!(store.get(MessageId(0)).unwrap().text(), "dark");
    let mut other = chat("!CHAOS light", "bob");
    assert_eq!(other.insert(&mut store).unwrap(), Inserted::Stored(MessageId(1)));
}

#[test]
fn theme_is_accepted_again_once_the_first_is_served() {
    let mut store = Store::new();
    let mut first = chat("!CHAOS dark", "alice");
    first.insert(&mut store).unwrap();
    store.update_status(MessageId(0), MessageStatus::InProcess).unwrap();
    let mut second = chat("!CHAOS dark", "alice");
    assert_eq!(second.insert(&mut store).unwrap(), Inserted::Stored(MessageId(1)));
}

#[test]
fn theme_of_an_author_with_an_awaiting_prompt_is_left_out() {
    let mut store = Store::new();
    chat("!PROMPT hi", "alice").insert(&mut store).unwrap();
    let mut theme = chat("!CHAOS dark", "alice");
    assert_eq!(theme.insert(&mut store).unwrap(), Inserted::DuplicateSkipped);
}

#[test]
fn songs_and_unknown_commands_are_never_duplicates() {
    let mut store = Store::new();
    for _ in 0..3 {
        let mut song = chat("!PLAY x", "alice");
        assert!(matches!(song.insert(&mut store).unwrap(), Inserted::Stored(_)));
        let mut unknown = chat("!WHAT x", "alice");
        assert!(matches!(unknown.insert(&mut store).unwrap(), Inserted::Stored(_)));
    }
    assert_eq!(store.len(), 6);
}

#[test]
fn framework_frames_served_commands() {
    let framework = CommandFramework::new(all_commands());
    let framed = framework
        .dispatch(Context {}, Event::Message(line("!PLAY song", "alice")))
        .unwrap();
    assert_eq!(framed.id, None);
    assert_eq!(framed.command.kind(), MessageCommands::SetSong);
    assert_eq!(framed.text(), "song");
    assert_eq!(framed.username, "alice");
    assert_eq!(framed.status, MessageStatus::Awaiting);
}

#[test]
fn framework_refuses_what_it_does_not_serve() {
    let framework = CommandFramework::new(vec![MessageCommands::SetSong]);
    assert_eq!(
        dispatch_message(&framework, Context {}, line("!CHAOS dark", "alice")).unwrap_err(),
        ParseError::UnrecognizedCommand
    );
    assert_eq!(
        dispatch_message(&framework, Context {}, line("!NOPE dark", "alice")).unwrap_err(),
        ParseError::UnrecognizedCommand
    );
    assert_eq!(
        dispatch_event(&framework, Context {}, Event::Message(line("dark", "alice"))).unwrap_err(),
        ParseError::MalformedInput
    );
    assert!(dispatch_message(&framework, Context {}, line("!PLAY x", "alice")).is_ok());
}

#[test]
fn framework_keeps_unknown_commands_when_told_to() {
    let framework = CommandFramework::new(vec![MessageCommands::SetSong]).keep_unknown(true);
    let kept = dispatch_message(&framework, Context {}, line("!CHAOS dark", "alice")).unwrap();
    assert_eq!(kept.command.kind(), MessageCommands::Unknown);
    assert_eq!(kept.text(), "dark");
    assert_eq!(
        dispatch_message(&framework, Context {}, line("chaos", "alice")).unwrap_err(),
        ParseError::MalformedInput
    );
    let listed = CommandFramework::new(vec![MessageCommands::Unknown]);
    assert_eq!(
        dispatch_message(&listed, Context {}, line("!NOPE x", "alice")).unwrap_err(),
        ParseError::UnrecognizedCommand
    );
}

#[test]
fn moderated_commands_enter_unverified() {
    let framework = CommandFramework::new(all_commands())
        .moderate(vec![MessageCommands::SetSong, MessageCommands::Unknown])
        .keep_unknown(true);
    let song = dispatch_message(&framework, Context {}, line("!PLAY x", "alice")).unwrap();
    assert_eq!(song.status, MessageStatus::Unverified);
    let prompt = dispatch_message(&framework, Context {}, line("!PROMPT x", "alice")).unwrap();
    assert_eq!(prompt.status, MessageStatus::Awaiting);
    let unknown = dispatch_message(&framework, Context {}, line("!NOPE x", "alice")).unwrap();
    assert_eq!(unknown.status, MessageStatus::Unverified);
}

#[test]
fn moderated_theme_is_deduplicated_against_unverified_messages() {
    let framework =
        CommandFramework::new(all_commands()).moderate(vec![MessageCommands::SetTheme]);
    let mut store = Store::new();
    let mut first = dispatch_message(&framework, Context {}, line("!CHAOS a", "alice")).unwrap();
    let mut second = dispatch_message(&framework, Context {}, line("!CHAOS b", "alice")).unwrap();
    assert_eq!(first.insert(&mut store).unwrap(), Inserted::Stored(MessageId(0)));
    assert_eq!(second.insert(&mut store).unwrap(), Inserted::DuplicateSkipped);
    store.bulk_approve(&vec![MessageId(0)]);
    let mut third = dispatch_message(&framework, Context {}, line("!CHAOS c", "alice")).unwrap();
    assert_eq!(third.insert(&mut store).unwrap(), Inserted::Stored(MessageId(1)));
    assert_eq!(store.get(MessageId(1)).unwrap().status, MessageStatus::Unverified);
}

#[test]
fn kinds_are_found_in_a_list() {
    let kinds = vec![MessageCommands::SetSong, MessageCommands::SetTheme];
    assert!(contains_kind(&kinds, MessageCommands::SetTheme));
    assert!(!contains_kind(&kinds, MessageCommands::Unknown));
    assert!(!contains_kind(&Vec::new(), MessageCommands::SetSong));
}

#[test]
fn each_kind_has_its_duplicate_rule() {
    let store = Store::new();
    let prompt = chat("!PROMPT hello", "alice");
    assert!(matches!(prompt.duplicate_rule(), DuplicateRule::SameText(ref text) if text == "hello"));
    let theme = chat("!CHAOS dark", "alice");
    assert!(matches!(
        theme.duplicate_rule(),
        DuplicateRule::SameAuthorAtStage(ref author, MessageStatus::Awaiting) if author == "alice"
    ));
    let song = chat("!PLAY x", "alice");
    assert!(matches!(song.duplicate_rule(), DuplicateRule::Nothing));
    let unknown = chat("!WHAT x", "alice");
    assert!(matches!(unknown.duplicate_rule(), DuplicateRule::Nothing));
    for message in [prompt, theme, song, unknown] {
        assert!(!message.is_duplicate(&store));
    }
}

#[test]
fn framework_takes_a_glued_word_for_no_command() {
    let framework = CommandFramework::new(all_commands()).keep_unknown(true);
    for content in ["!PROMPTx hello", "!PLAY-list", "!Chaos dark", "PROMPT hello", "x !PROMPT y"] {
        assert_eq!(
            dispatch_message(&framework, Context {}, line(content, "alice")).unwrap_err(),
            ParseError::MalformedInput,
            "{content:?}"
        );
        assert_eq!(
            ChatMessage::from_chat_line(content.to_string(), "alice".to_string()).unwrap_err(),
            ParseError::MalformedInput,
            "{content:?}"
        );
    }
    let digit = dispatch_message(&framework, Context {}, line("!PLAY2 x", "alice")).unwrap();
    assert_eq!(digit.command.kind(), MessageCommands::SetSong);
    assert_eq!(digit.text(), "");
}
