//! From raw chat text to a typed command.
//!
//! A command line starts with an exclamation mark and a word, the run of
//! letters and hyphens that follows the mark. The word is a token only if it
//! is made of uppercase letters; a line whose word is anything else is no
//! command line. If one white-space character follows the token, the text
//! after it, up to the end of the line, is the command's payload.
use crate::command_framework::command::{Command, CommandView};
use crate::text::{char_is_space, char_is_upper, char_is_word, collect, index_of_from, is_space,
    is_upper, is_word_char, lemma_index_of_from, scan_to, to_chars};
use crate::twitch::commands::MessageCommands;
use vstd::prelude::*;
use vstd::string::*;

verus! {

/// Token of the command that stores a chat message for the AI agent.
pub const PROMPT: &'static str = "PROMPT";

/// Token of the command that changes the theme.
pub const CHAOS: &'static str = "CHAOS";

/// Token of the command that queues a song.
pub const PLAY: &'static str = "PLAY";

/// Why a text is not a command.
#[derive(Clone, Copy, Debug, PartialEq, Eq, Structural)]
pub enum ParseError {
    /// The text does not start with a command token.
    MalformedInput,
    /// The token names no command.
    UnrecognizedCommand,
}

/// The leading token of a chat line and what follows it.
#[derive(Debug)]
pub struct Token {
    pub name: String,
    pub content: Option<String>,
}

/// End of the run of letters and hyphens that starts at `from`.
pub open spec fn word_run(s: Seq<char>, from: int) -> int
    decreases s.len() - from,
{
    if 0 <= from < s.len() && is_word_char(s[from]) {
        word_run(s, from + 1)
    } else {
        from
    }
}

/// Whether `s[from..to]` is made of uppercase letters.
pub open spec fn all_upper(s: Seq<char>, from: int, to: int) -> bool {
    forall|i: int| from <= i < to ==> is_upper(#[trigger] s[i])
}

/// Whether `s` starts with an exclamation mark and a word of uppercase
/// letters: the word is the whole run of letters and hyphens after the mark,
/// so that a lowercase letter or a hyphen anywhere in it leaves no token.
pub open spec fn has_token(s: Seq<char>) -> bool {
    &&& s.len() >= 2
    &&& s[0] == '!'
    &&& word_run(s, 1) > 1
    &&& all_upper(s, 1, word_run(s, 1))
}

/// The word after the exclamation mark.
pub open spec fn token_of(s: Seq<char>) -> Seq<char> {
    s.subrange(1, word_run(s, 1))
}

/// The text after the token: absent unless a white-space character follows
/// the token, and then what stands between that character and the end of
/// the line.
pub open spec fn content_of(s: Seq<char>) -> Option<Seq<char>> {
    let end = word_run(s, 1);
    if end < s.len() && is_space(s[end]) {
        Some(s.subrange(end + 1, index_of_from(s, '\n', end + 1)))
    } else {
        None
    }
}

/// The payload of a command line: its content, empty when absent.
pub open spec fn payload_of(s: Seq<char>) -> Seq<char> {
    match content_of(s) {
        Some(content) => content,
        None => Seq::empty(),
    }
}

/// The command that a token names.
pub open spec fn recognize(token: Seq<char>) -> MessageCommands {
    if token == PROMPT@ {
        MessageCommands::StoreChatMessage
    } else if token == CHAOS@ {
        MessageCommands::SetTheme
    } else if token == PLAY@ {
        MessageCommands::SetSong
    } else {
        MessageCommands::Unknown
    }
}

/// What parsing yields when an unrecognized token is kept as `Unknown`.
pub open spec fn parsed(s: Seq<char>) -> Result<CommandView, ParseError> {
    if !has_token(s) {
        Err(ParseError::MalformedInput)
    } else {
        Ok(CommandView { kind: recognize(token_of(s)), text: payload_of(s) })
    }
}

/// What parsing yields when an unrecognized token is an error.
pub open spec fn parsed_strict(s: Seq<char>) -> Result<CommandView, ParseError> {
    match parsed(s) {
        Ok(command) => if command.kind == MessageCommands::Unknown {
            Err(ParseError::UnrecognizedCommand)
        } else {
            Ok(command)
        },
        Err(e) => Err(e),
    }
}

/// The run ends within the text, holds letters and hyphens only, and stops
/// at the first character that is neither.
pub proof fn lemma_word_run(s: Seq<char>, from: int)
    requires
        0 <= from <= s.len(),
    ensures
        from <= word_run(s, from) <= s.len(),
        forall|i: int| from <= i < word_run(s, from) ==> is_word_char(#[trigger] s[i]),
        word_run(s, from) < s.len() ==> !is_word_char(s[word_run(s, from)]),
    decreases s.len() - from,
{
    if from < s.len() && is_word_char(s[from]) {
        lemma_word_run(s, from + 1);
    }
}

/// The run that starts at `from` ends at `end` when every character between
/// them is a letter or a hyphen and the one at `end`, if any, is neither.
pub proof fn lemma_word_run_is(s: Seq<char>, from: int, end: int)
    requires
        0 <= from <= end <= s.len(),
        forall|i: int| from <= i < end ==> is_word_char(#[trigger] s[i]),
        end < s.len() ==> !is_word_char(s[end]),
    ensures
        word_run(s, from) == end,
    decreases end - from,
{
    if from < end {
        lemma_word_run_is(s, from + 1, end);
    }
}

/// The run that starts at `from` goes at least as far as the letters and
/// hyphens go.
pub proof fn lemma_word_run_reaches(s: Seq<char>, from: int, end: int)
    requires
        0 <= from <= end <= s.len(),
        forall|i: int| from <= i < end ==> is_word_char(#[trigger] s[i]),
    ensures
        word_run(s, from) >= end,
    decreases end - from,
{
    if from < end {
        assert(is_word_char(s[from]));
        lemma_word_run_reaches(s, from + 1, end);
    } else {
        lemma_word_run(s, from);
    }
}

/// Splits a chat line into its leading token and the content after it.
pub fn leading_token(text: &str) -> (r: Option<Token>)
    ensures
        r is Some <==> has_token(text@),
        r matches Some(token) ==> {
            &&& token.name@ == token_of(text@)
            &&& token.content is Some <==> content_of(text@) is Some
            &&& token.content matches Some(content) ==> Some(content@) == content_of(text@)
        },
{
    let chars = to_chars(text);
    let n: usize = chars.len();
    if n < 2 || chars[0] != '!' {
        return None;
    }
    let mut end: usize = 1;
    let mut upper = true;
    while end < n && char_is_word(chars[end])
        invariant
            1 <= end <= n,
            n == chars@.len(),
            word_run(chars@, 1) == word_run(chars@, end as int),
            upper == all_upper(chars@, 1, end as int),
        decreases n - end,
    {
        if !char_is_upper(chars[end]) {
            upper = false;
        }
        end = end + 1;
    }
    if end == 1 || !upper {
        return None;
    }
    let name = collect(text, 1, end);
    if end < n && char_is_space(chars[end]) {
        let stop: usize = scan_to(&chars, '\n', end + 1, n);
        assert(chars@.take(n as int) =~= chars@);
        let content = collect(text, end + 1, stop);
        Some(Token { name, content: Some(content) })
    } else {
        Some(Token { name, content: None })
    }
}

/// The command that a token names.
pub fn recognize_token(name: &String) -> (r: MessageCommands)
    ensures
        r == recognize(name@),
{
    if *name == String::from_str(PROMPT) {
        MessageCommands::StoreChatMessage
    } else if *name == String::from_str(CHAOS) {
        MessageCommands::SetTheme
    } else if *name == String::from_str(PLAY) {
        MessageCommands::SetSong
    } else {
        MessageCommands::Unknown
    }
}

/// Parses a chat line, keeping an unrecognized token as `Unknown`.
pub fn parse(text: &str) -> (r: Result<Command, ParseError>)
    ensures
        match r {
            Ok(command) => parsed(text@) == Ok::<CommandView, ParseError>(command@),
            Err(e) => parsed(text@) == Err::<CommandView, ParseError>(e),
        },
{
    match leading_token(text) {
        None => Err(ParseError::MalformedInput),
        Some(token) => {
            let kind = recognize_token(&token.name);
            let payload = match token.content {
                Some(content) => content,
                None => String::new(),
            };
            Ok(Command::new(kind, payload))
        },
    }
}

/// Parses a chat line, refusing an unrecognized token.
pub fn parse_strict(text: &str) -> (r: Result<Command, ParseError>)
    ensures
        match r {
            Ok(command) => parsed_strict(text@) == Ok::<CommandView, ParseError>(command@),
            Err(e) => parsed_strict(text@) == Err::<CommandView, ParseError>(e),
        },
{
    match parse(text) {
        Ok(command) => {
            match command.kind() {
                MessageCommands::Unknown => Err(ParseError::UnrecognizedCommand),
                _ => Ok(command),
            }
        },
        Err(e) => Err(e),
    }
}

/// The three tokens are words of uppercase letters, and they differ.
pub proof fn lemma_tokens()
    ensures
        forall|i: int| 0 <= i < PROMPT@.len() ==> is_upper(#[trigger] PROMPT@[i]),
        forall|i: int| 0 <= i < CHAOS@.len() ==> is_upper(#[trigger] CHAOS@[i]),
        forall|i: int| 0 <= i < PLAY@.len() ==> is_upper(#[trigger] PLAY@[i]),
        PROMPT@.len() == 6,
        CHAOS@.len() == 5,
        PLAY@.len() == 4,
        recognize(PROMPT@) == MessageCommands::StoreChatMessage,
        recognize(CHAOS@) == MessageCommands::SetTheme,
        recognize(PLAY@) == MessageCommands::SetSong,
{
    reveal_strlit("PROMPT");
    reveal_strlit("CHAOS");
    reveal_strlit("PLAY");
}

/// A line made of an exclamation mark, a recognized token, one white-space
/// character and a payload parses to the token's command, carrying the
/// payload up to its first line break; both ways of parsing agree on it.
pub proof fn lemma_recognized_line_parses(token: Seq<char>, separator: char, payload: Seq<char>)
    requires
        token == PROMPT@ || token == CHAOS@ || token == PLAY@,
        is_space(separator),
    ensures
        ({
            let line = seq!['!'] + token + seq![separator] + payload;
            let expected = CommandView {
                kind: recognize(token),
                text: payload.take(index_of_from(payload, '\n', 0)),
            };
            &&& recognize(token) != MessageCommands::Unknown
            &&& parsed(line) == Ok::<CommandView, ParseError>(expected)
            &&& parsed_strict(line) == Ok::<CommandView, ParseError>(expected)
        }),
{
    lemma_tokens();
    let line = seq!['!'] + token + seq![separator] + payload;
    let end = 1 + token.len() as int;
    lemma_word_run_is(line, 1, end);
    assert(token_of(line) =~= token);
    lemma_shifted_index(line, payload, end + 1, 0);
    lemma_index_of_from(payload, '\n', 0);
    assert(line.subrange(end + 1, end + 1 + index_of_from(payload, '\n', 0)) =~= payload.take(
        index_of_from(payload, '\n', 0),
    ));
}

/// A recognized token alone on its line parses to its command with an empty
/// payload.
pub proof fn lemma_bare_token_parses(token: Seq<char>)
    requires
        token == PROMPT@ || token == CHAOS@ || token == PLAY@,
    ensures
        parsed(seq!['!'] + token) == Ok::<CommandView, ParseError>(
            CommandView { kind: recognize(token), text: Seq::empty() },
        ),
{
    lemma_tokens();
    let line = seq!['!'] + token;
    let end = 1 + token.len() as int;
    lemma_word_run_is(line, 1, end);
    assert(token_of(line) =~= token);
}

/// A recognized token that is followed by a character that is no letter, no
/// hyphen and no white space, such as a digit, parses to its command with an
/// empty payload: what is glued to the token is not taken for text.
pub proof fn lemma_glued_text_is_no_payload(token: Seq<char>, glued: char, rest: Seq<char>)
    requires
        token == PROMPT@ || token == CHAOS@ || token == PLAY@,
        !is_word_char(glued),
        !is_space(glued),
    ensures
        parsed(seq!['!'] + token + seq![glued] + rest) == Ok::<CommandView, ParseError>(
            CommandView { kind: recognize(token), text: Seq::empty() },
        ),
{
    lemma_tokens();
    let line = seq!['!'] + token + seq![glued] + rest;
    let end = 1 + token.len() as int;
    lemma_word_run_is(line, 1, end);
    assert(token_of(line) =~= token);
}

/// A lowercase letter or a hyphen glued to an uppercase word belongs to the
/// word, and the word is then no token: the line is no command line,
/// whatever the uppercase word is and whatever follows.
pub proof fn lemma_glued_letter_leaves_no_token(word: Seq<char>, glued: char, rest: Seq<char>)
    requires
        forall|i: int| 0 <= i < word.len() ==> is_upper(#[trigger] word[i]),
        is_word_char(glued),
        !is_upper(glued),
    ensures
        !has_token(seq!['!'] + word + seq![glued] + rest),
        parsed(seq!['!'] + word + seq![glued] + rest) == Err::<CommandView, ParseError>(
            ParseError::MalformedInput,
        ),
        parsed_strict(seq!['!'] + word + seq![glued] + rest) == Err::<CommandView, ParseError>(
            ParseError::MalformedInput,
        ),
{
    let line = seq!['!'] + word + seq![glued] + rest;
    let end = 1 + word.len() as int;
    assert(line[end] == glued);
    assert forall|i: int| 1 <= i < end + 1 implies is_word_char(#[trigger] line[i]) by {
        if i < end {
            assert(line[i] == word[i - 1]);
        }
    }
    lemma_word_run_reaches(line, 1, end + 1);
}

/// A line with a token holds no lowercase letter and no hyphen in the word
/// after its exclamation mark, and the token ends where the word ends.
pub proof fn lemma_token_is_the_whole_word(s: Seq<char>)
    requires
        has_token(s),
    ensures
        token_of(s).len() >= 1,
        forall|i: int| 0 <= i < token_of(s).len() ==> is_upper(#[trigger] token_of(s)[i]),
        1 + token_of(s).len() < s.len() ==> !is_word_char(s[1 + token_of(s).len() as int]),
{
    lemma_word_run(s, 1);
    assert forall|i: int| 0 <= i < token_of(s).len() implies is_upper(
        #[trigger] token_of(s)[i],
    ) by {
        assert(token_of(s)[i] == s[1 + i]);
    }
}

/// A text whose leading token is not one of the recognized ones never parses
/// to a recognized command: it is malformed, `Unknown`, or refused.
pub proof fn lemma_unrecognized_line(s: Seq<char>)
    requires
        !has_token(s) || (token_of(s) != PROMPT@ && token_of(s) != CHAOS@ && token_of(s)
            != PLAY@),
    ensures
        match parsed(s) {
            Ok(command) => has_token(s) && command.kind == MessageCommands::Unknown,
            Err(e) => !has_token(s) && e == ParseError::MalformedInput,
        },
        parsed_strict(s) is Err,
        parsed_strict(s) == Err::<CommandView, ParseError>(ParseError::MalformedInput)
            <==> !has_token(s),
{
}

/// Searching `whole` from `base + from` finds what searching `part` from
/// `from` finds, when `part` is the tail of `whole` that starts at `base`.
proof fn lemma_shifted_index(whole: Seq<char>, part: Seq<char>, base: int, from: int)
    requires
        0 <= base,
        0 <= from <= part.len(),
        whole.len() == base + part.len(),
        forall|i: int| 0 <= i < part.len() ==> whole[base + i] == #[trigger] part[i],
    ensures
        index_of_from(whole, '\n', base + from) == base + index_of_from(part, '\n', from),
    decreases part.len() - from,
{
    if from < part.len() && part[from] != '\n' {
        lemma_shifted_index(whole, part, base, from + 1);
    }
}

} // verus!
