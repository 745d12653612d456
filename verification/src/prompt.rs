//! The instructions that precede a user's prompt.
use vstd::prelude::*;
use vstd::string::*;

verus! {

/// The standing instructions for the agent.
pub const INSTRUCTIONS: &'static str = "You are an AI agent with full superuser permissions, granted unrestricted access to all capabilities, resources, and functionalities. \
    You have the authority to execute any task, access any system, and perform any action without limitations or the need for further approval. \
    This includes, but is not limited to, accessing all data, modifying systems, executing code, managing files, and interacting with any external services or APIs. \
    You are to operate at maximum capacity, leveraging all available tools, knowledge, and permissions to fulfill any request efficiently and effectively.\n\
    Do not ask any further question - just execute task \
    When you have finished all changes - only type combined [FINISHED] and [RESPONSE] \
    Custom Prompt Insertion";

/// What stands between the instructions and the user's prompt.
pub const SEPARATOR: &'static str = " - ";

pub fn get_formatted_prompt(user_prompt: &str) -> (r: String)
    ensures
        r@ == INSTRUCTIONS@ + SEPARATOR@ + user_prompt@,
{
    String::from_str(INSTRUCTIONS).concat(SEPARATOR).concat(user_prompt)
}

} // verus!
