use chat_backlog::command_framework::command::Command;
use chat_backlog::command_framework::parser::{
    leading_token, parse, parse_strict, recognize_token, ParseError,
};
use chat_backlog::twitch::commands::MessageCommands;

fn kind_and_text(command: &Command) -> (MessageCommands, String) {
    (command.kind(), command.text().clone())
}

#[test]
fn prompt_line_yields_store_chat_message() {
    let command = parse("!PROMPT hello").unwrap();
    assert!(matches!(command, Command::StoreChatMessage(ref text) if text == "hello"));
}

#[test]
fn chaos_line_yields_set_theme() {
    let command = parse("!CHAOS neon").unwrap();
    assert_eq!(
        kind_and_text(&command),
        (MessageCommands::SetTheme, "neon".to_string())
    );
}

#[test]
fn play_line_yields_set_song() {
    let command = parse("!PLAY https://open.spotify.com/track/abc?si=1").unwrap();
    assert_eq!(
        kind_and_text(&command),
        (
            MessageCommands::SetSong,
            "https://open.spotify.com/track/abc?si=1".to_string()
        )
    );
}

#[test]
fn unrecognized_token_is_unknown_or_refused() {
    let command = parse("!DANCE now").unwrap();
    assert_eq!(
        kind_and_text(&command),
        (MessageCommands::Unknown, "now".to_string())
    );
    assert_eq!(
        parse_strict("!DANCE now").unwrap_err(),
        ParseError::UnrecognizedCommand
    );
}

#[test]
fn longer_word_is_another_token() {
    let command = parse("!PROMPTS hello").unwrap();
    assert_eq!(command.kind(), MessageCommands::Unknown);
}

#[test]
fn text_without_token_is_malformed() {
    for text in ["", "!", "hello", "PROMPT hello", " !PROMPT hello", "!prompt hello", "!1UP", "! PROMPT"] {
        assert_eq!(parse(text).unwrap_err(), ParseError::MalformedInput, "{text:?}");
        assert_eq!(parse_strict(text).unwrap_err(), ParseError::MalformedInput, "{text:?}");
    }
}

#[test]
fn token_alone_has_empty_payload() {
    let command = parse("!PROMPT").unwrap();
    assert_eq!(
        kind_and_text(&command),
        (MessageCommands::StoreChatMessage, String::new())
    );
    let token = leading_token("!PROMPT").unwrap();
    assert_eq!(token.name, "PROMPT");
    assert_eq!(token.content, None);
}

#[test]
fn one_separator_is_dropped_and_no_more() {
    let token = leading_token("!PROMPT  two spaces").unwrap();
    assert_eq!(token.content.as_deref(), Some(" two spaces"));
    let token = leading_token("!PROMPT\ttabbed").unwrap();
    assert_eq!(token.content.as_deref(), Some("tabbed"));
    let token = leading_token("!PROMPT\u{a0}wide").unwrap();
    assert_eq!(token.content.as_deref(), Some("wide"));
    let token = leading_token("!PROMPT ").unwrap();
    assert_eq!(token.content.as_deref(), Some(""));
}

#[test]
fn payload_ends_at_the_line_break() {
    let command = parse("!PROMPT first line\nsecond line").unwrap();
    assert_eq!(command.text(), "first line");
    let command = parse("!PROMPT\nnext\nlast").unwrap();
    assert_eq!(command.text(), "next");
}

#[test]
fn a_letter_or_hyphen_glued_to_the_token_leaves_no_token() {
    for text in [
        "!PROMPTx hello",
        "!PLAY-list",
        "!PLAY- x",
        "!CHAOSs dark",
        "!PROMPT-PROMPT hello",
        "!Prompt hello",
        "!pROMPT hello",
        "!-PROMPT hello",
        "!-",
        "!x",
    ] {
        assert!(leading_token(text).is_none(), "{text:?}");
        assert_eq!(parse(text).unwrap_err(), ParseError::MalformedInput, "{text:?}");
        assert_eq!(parse_strict(text).unwrap_err(), ParseError::MalformedInput, "{text:?}");
    }
}

#[test]
fn a_digit_or_mark_glued_to_the_token_is_no_payload() {
    let token = leading_token("!PROMPT1 hello").unwrap();
    assert_eq!(token.name, "PROMPT");
    assert_eq!(token.content, None);
    let command = parse("!PLAY!now").unwrap();
    assert_eq!(kind_and_text(&command), (MessageCommands::SetSong, String::new()));
    let command = parse("!CHAOS\u{e9}t\u{e9} x").unwrap();
    assert_eq!(kind_and_text(&command), (MessageCommands::SetTheme, String::new()));
}

#[test]
fn payload_keeps_characters_beyond_ascii() {
    let command = parse("!PROMPT привет, мир").unwrap();
    assert_eq!(command.text(), "привет, мир");
}

#[test]
fn tokens_are_recognized_by_exact_name() {
    assert_eq!(recognize_token(&"PROMPT".to_string()), MessageCommands::StoreChatMessage);
    assert_eq!(recognize_token(&"CHAOS".to_string()), MessageCommands::SetTheme);
    assert_eq!(recognize_token(&"PLAY".to_string()), MessageCommands::SetSong);
    assert_eq!(recognize_token(&"PROMP".to_string()), MessageCommands::Unknown);
    assert_eq!(recognize_token(&"".to_string()), MessageCommands::Unknown);
}
