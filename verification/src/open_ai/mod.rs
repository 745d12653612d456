//! What the AI client is asked, and how its answer is read.
use crate::open_ai::types::{ApiMessage, ApiMessageView, ChatCompletionResponse};
use vstd::prelude::*;
use vstd::string::*;

pub mod types;

verus! {

/// Where completions are asked for.
pub const BASE_URL: &'static str = "https://api.openai.com/v1/chat/completions";

/// The model that is asked.
pub const MODEL: &'static str = "gpt-4o";

/// The role of the entry that holds the system prompt.
pub const SYSTEM: &'static str = "system";

/// What precedes the key in the authorization header.
pub const BEARER: &'static str = "Bearer ";

/// Entries of the history that are sent, unless configured otherwise.
pub const HISTORY_LENGTH: usize = 20;

/// Why a reply of the AI client could not be used.
#[derive(Clone, Copy, Debug, PartialEq, Eq, Structural)]
pub enum OpenAiError {
    /// The reply holds no choice.
    ChoiceNotFound,
}

#[derive(Debug)]
pub struct OpenAI {
    pub key: String,
    pub base_url: String,
    /// Entries of the history that are sent.
    pub history_length: usize,
}

/// The last `n` entries of `s`, or all of `s` if it has fewer.
pub open spec fn last_n<T>(s: Seq<T>, n: nat) -> Seq<T> {
    if s.len() > n {
        s.skip(s.len() - n)
    } else {
        s
    }
}

/// The entry that holds the system prompt.
pub open spec fn system_entry(prompt: Seq<char>) -> ApiMessageView {
    ApiMessageView { role: SYSTEM@, content: prompt }
}

impl OpenAI {
    pub fn new(key: String) -> (r: Self)
        ensures
            r.key@ == key@,
            r.base_url@ == BASE_URL@,
            r.history_length == HISTORY_LENGTH,
    {
        Self { key, base_url: String::from_str(BASE_URL), history_length: HISTORY_LENGTH }
    }

    /// The value of the authorization header.
    pub fn authorization(&self) -> (r: String)
        ensures
            r@ == BEARER@ + self.key@,
    {
        String::from_str(BEARER).concat(self.key.as_str())
    }

    /// The text of the first choice of a reply.
    pub fn parse_choice(chat_completion_response: &ChatCompletionResponse) -> (r: Result<
        String,
        OpenAiError,
    >)
        ensures
            match r {
                Ok(text) => chat_completion_response.choices@.len() > 0 && text@
                    == chat_completion_response.choices@[0].message.content@,
                Err(e) => chat_completion_response.choices@.len() == 0 && e
                    == OpenAiError::ChoiceNotFound,
            },
    {
        if chat_completion_response.choices.len() > 0 {
            Ok(chat_completion_response.choices[0].message.content.clone())
        } else {
            Err(OpenAiError::ChoiceNotFound)
        }
    }

    /// Makes `messages` what is sent for a request: the most recent entries
    /// of the caller's history, as many as are configured, after an entry
    /// with the system prompt.
    pub fn send_user_message(&self, messages: &mut Vec<ApiMessage>, prompt: String)
        ensures
            final(messages)@.len() == last_n(old(messages)@, self.history_length as nat).len() + 1,
            final(messages)@[0]@ == system_entry(prompt@),
            final(messages)@.skip(1) == last_n(old(messages)@, self.history_length as nat),
    {
        Self::keep_last_n(messages, self.history_length);
        messages.insert(0, ApiMessage { role: String::from_str(SYSTEM), content: prompt });
    }

    /// Keeps the last `n` entries of `v`.
    pub fn keep_last_n<T>(v: &mut Vec<T>, n: usize)
        ensures
            final(v)@ == last_n(old(v)@, n as nat),
    {
        if v.len() > n {
            let at: usize = v.len() - n;
            let mut kept = v.split_off(at);
            std::mem::swap(v, &mut kept);
        }
    }
}

} // verus!
