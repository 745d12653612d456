//! What the chat connection brings in: its credentials, and the persisted
//! form of a chat message.
use vstd::prelude::*;
use vstd::string::*;

pub mod api;
pub mod builder;
pub mod chat_message;
pub mod commands;
pub mod status;

verus! {

/// What the application identifies itself with.
#[derive(Debug)]
pub struct TwitchApiCredentials {
    pub secret: String,
    pub client: String,
    pub access_token: Option<String>,
}

impl TwitchApiCredentials {
    pub fn new(secret: String, client: String, access_token: Option<String>) -> (r: Self)
        ensures
            r.secret == secret,
            r.client == client,
            r.access_token == access_token,
    {
        Self { secret, client, access_token }
    }
}

} // verus!
