//! The script by which a prompt is handed to the AI agent in its terminal.
use crate::text::{trim, trimmed};
use vstd::prelude::*;
use vstd::string::*;

verus! {

pub const TMUX_CMD: &'static str = "tmux";

/// The line that ends the wait for the agent.
pub const EXIT_COMMAND: &'static str = "/";

/// What is said before the sender's name.
pub const ANNOUNCEMENT: &'static str = "Сообщение от ";

pub const SPACE: &'static str = " ";

/// Seconds to wait before the prompt is announced.
pub const SECONDS_BEFORE_ANNOUNCEMENT: u64 = 2;

/// Seconds to wait between typing the prompt and sending it.
pub const SECONDS_BEFORE_ENTER: u64 = 1;

/// A key to press in the terminal.
#[derive(Clone, Copy, Debug, PartialEq, Eq, Structural)]
pub enum Key {
    Enter,
    Escape,
    CtrlC,
}

/// One step of the script.
#[derive(Debug)]
pub enum TerminalStep {
    /// Wait for so many seconds.
    Pause(u64),
    /// Say the text aloud.
    Say(String),
    /// Press the key.
    Press(Key),
    /// Type the text, without sending it.
    Type(String),
    /// Wait until the operator ends the session.
    AwaitExit,
}

pub enum TerminalStepView {
    Pause(u64),
    Say(Seq<char>),
    Press(Key),
    Type(Seq<char>),
    AwaitExit,
}

impl View for TerminalStep {
    type V = TerminalStepView;

    open spec fn view(&self) -> TerminalStepView {
        match self {
            TerminalStep::Pause(seconds) => TerminalStepView::Pause(*seconds),
            TerminalStep::Say(text) => TerminalStepView::Say(text@),
            TerminalStep::Press(key) => TerminalStepView::Press(*key),
            TerminalStep::Type(text) => TerminalStepView::Type(text@),
            TerminalStep::AwaitExit => TerminalStepView::AwaitExit,
        }
    }
}

/// What is said when `sender` hands in `prompt`.
pub open spec fn announcement_of(sender: Seq<char>, prompt: Seq<char>) -> Seq<char> {
    ANNOUNCEMENT@ + SPACE@ + sender + SPACE@ + prompt
}

/// The script that hands `prompt`, written by `sender`, to the agent.
pub open spec fn script_of(sender: Seq<char>, prompt: Seq<char>) -> Seq<TerminalStepView> {
    seq![
        TerminalStepView::Pause(SECONDS_BEFORE_ANNOUNCEMENT),
        TerminalStepView::Say(announcement_of(sender, prompt)),
        TerminalStepView::Press(Key::Escape),
        TerminalStepView::Type(prompt),
        TerminalStepView::Pause(SECONDS_BEFORE_ENTER),
        TerminalStepView::Press(Key::Enter),
        TerminalStepView::AwaitExit,
    ]
}

/// What is said when `sender` hands in `prompt`.
pub fn say_send(sender: &str, prompt: &str) -> (r: String)
    ensures
        r@ == announcement_of(sender@, prompt@),
{
    String::from_str(ANNOUNCEMENT).concat(SPACE).concat(sender).concat(SPACE).concat(prompt)
}

/// The script that hands `prompt`, written by `sender`, to the agent.
pub fn test_send_to_terminal(sender: &str, prompt: &str) -> (r: Vec<TerminalStep>)
    ensures
        r@.len() == script_of(sender@, prompt@).len(),
        forall|i: int| 0 <= i < r@.len() ==> (#[trigger] r@[i])@ == script_of(sender@, prompt@)[i],
{
    let mut steps: Vec<TerminalStep> = Vec::new();
    steps.push(TerminalStep::Pause(SECONDS_BEFORE_ANNOUNCEMENT));
    steps.push(TerminalStep::Say(say_send(sender, prompt)));
    steps.push(TerminalStep::Press(Key::Escape));
    steps.push(TerminalStep::Type(String::from_str(prompt)));
    steps.push(TerminalStep::Pause(SECONDS_BEFORE_ENTER));
    steps.push(TerminalStep::Press(Key::Enter));
    steps.push(TerminalStep::AwaitExit);
    steps
}

/// Whether a line typed by the operator ends the wait for the agent: it
/// does if it is the exit command, with or without white space around it.
pub fn wait_for_exit_command(line: &str) -> (r: bool)
    ensures
        r == (trimmed(line@) == EXIT_COMMAND@),
{
    trim(line) == String::from_str(EXIT_COMMAND)
}

} // verus!
