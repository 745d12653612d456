//! Step-by-step construction of the chat connection's description.
use crate::command_framework::Framework;
use crate::twitch::api::TwitchApi;
use crate::twitch::TwitchApiCredentials;
use vstd::prelude::*;

verus! {

pub struct TwitchApiBuilder<F: Framework> {
    pub credentials: Option<TwitchApiCredentials>,
    pub framework: Option<F>,
}

impl<F: Framework> Default for TwitchApiBuilder<F> {
    fn default() -> (r: Self)
        ensures
            r.credentials is None,
            r.framework is None,
    {
        Self { credentials: None, framework: None }
    }
}

impl<F: Framework> TwitchApiBuilder<F> {
    pub fn credentials(self, credentials: TwitchApiCredentials) -> (r: Self)
        ensures
            r.credentials == Some(credentials),
            r.framework == self.framework,
    {
        Self { credentials: Some(credentials), framework: self.framework }
    }

    pub fn framework(self, framework: F) -> (r: Self)
        ensures
            r.credentials == self.credentials,
            r.framework == Some(framework),
    {
        Self { credentials: self.credentials, framework: Some(framework) }
    }

    /// The description that was put together. Credentials must have been
    /// given.
    pub fn build(self) -> (r: TwitchApi<F>)
        requires
            self.credentials is Some,
        ensures
            r.credentials == self.credentials->Some_0,
            r.framework == self.framework,
    {
        let credentials = self.credentials.unwrap();
        TwitchApi::new(credentials, self.framework)
    }

    /// The description that was put together, if credentials were given.
    pub fn try_build(self) -> (r: Option<TwitchApi<F>>)
        ensures
            r is Some <==> self.credentials is Some,
            r matches Some(api) ==> api.credentials == self.credentials->Some_0 && api.framework
                == self.framework,
    {
        match self.credentials {
            Some(credentials) => Some(TwitchApi::new(credentials, self.framework)),
            None => None,
        }
    }
}

} // verus!
