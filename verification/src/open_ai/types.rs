//! The shapes of what is sent to the AI client and of what comes back.
use vstd::prelude::*;
use vstd::string::*;

verus! {

#[derive(Debug)]
pub struct ChatCompletionResponse {
    pub id: String,
    pub object: String,
    pub created: i64,
    pub model: String,
    pub choices: Vec<Choice>,
    pub usage: Option<Usage>,
    pub service_tier: String,
    pub system_fingerprint: String,
}

#[derive(Debug)]
pub struct Choice {
    pub index: i32,
    pub message: Message,
    /// The log probabilities, as JSON text, if the reply holds any.
    pub logprobs: Option<String>,
    pub finish_reason: String,
}

#[derive(Debug)]
pub struct Message {
    pub role: String,
    pub content: String,
    /// The refusal, as JSON text, if the reply holds one.
    pub refusal: Option<String>,
}

#[derive(Debug)]
pub struct OutputItem {
    pub id: String,
    pub output_type: String,
    pub status: String,
    pub content: Vec<ContentItem>,
    pub role: String,
}

#[derive(Debug)]
pub struct ContentItem {
    pub content_type: String,
    /// The annotations, each as JSON text.
    pub annotations: Vec<String>,
    pub text: String,
}

#[derive(Debug)]
pub struct Reasoning {
    /// The effort, as JSON text, if the reply holds one.
    pub effort: Option<String>,
    /// The summary, as JSON text, if the reply holds one.
    pub summary: Option<String>,
}

#[derive(Debug)]
pub struct TextField {
    pub format: TextFormat,
}

#[derive(Debug)]
pub struct TextFormat {
    pub format_type: String,
}

#[derive(Debug)]
pub struct Usage {
}

#[derive(Debug)]
pub struct InputTokensDetails {
    pub cached_tokens: u32,
}

#[derive(Debug)]
pub struct OutputTokensDetails {
    pub reasoning_tokens: u32,
}

/// One entry of a conversation. The role is `system` or `user`.
#[derive(Debug)]
pub struct ApiMessage {
    pub role: String,
    pub content: String,
}

/// An entry of a conversation as a mathematical value.
pub struct ApiMessageView {
    pub role: Seq<char>,
    pub content: Seq<char>,
}

impl View for ApiMessage {
    type V = ApiMessageView;

    open spec fn view(&self) -> ApiMessageView {
        ApiMessageView { role: self.role@, content: self.content@ }
    }
}

impl Clone for ApiMessage {
    fn clone(&self) -> (r: Self)
        ensures
            r@ == self@,
    {
        ApiMessage { role: self.role.clone(), content: self.content.clone() }
    }
}

} // verus!
