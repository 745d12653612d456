//! What the presentation surface is configured with.
use vstd::prelude::*;
use vstd::string::*;

verus! {

pub const DEFAULT_SOUND_NAME: &'static str = "samsung";

pub const DEFAULT_THEME: &'static str = "default";

pub const DEFAULT_ALERT: &'static str = "none";

pub const DEFAULT_PROMPT: &'static str = "none";

#[derive(Debug)]
pub struct WebsiteConfig {
    pub sound_name: String,
    pub theme: String,
    pub alert: String,
    /// The system prompt that precedes every history sent to the AI client.
    pub prompt: String,
    pub erase_message: bool,
}

/// A configuration as a mathematical value.
pub struct WebsiteConfigView {
    pub sound_name: Seq<char>,
    pub theme: Seq<char>,
    pub alert: Seq<char>,
    pub prompt: Seq<char>,
    pub erase_message: bool,
}

impl View for WebsiteConfig {
    type V = WebsiteConfigView;

    open spec fn view(&self) -> WebsiteConfigView {
        WebsiteConfigView {
            sound_name: self.sound_name@,
            theme: self.theme@,
            alert: self.alert@,
            prompt: self.prompt@,
            erase_message: self.erase_message,
        }
    }
}

impl Clone for WebsiteConfig {
    fn clone(&self) -> (r: Self)
        ensures
            r@ == self@,
    {
        WebsiteConfig {
            sound_name: self.sound_name.clone(),
            theme: self.theme.clone(),
            alert: self.alert.clone(),
            prompt: self.prompt.clone(),
            erase_message: self.erase_message,
        }
    }
}

/// The configuration in force before any was set.
pub open spec fn initial_config() -> WebsiteConfigView {
    WebsiteConfigView {
        sound_name: DEFAULT_SOUND_NAME@,
        theme: DEFAULT_THEME@,
        alert: DEFAULT_ALERT@,
        prompt: DEFAULT_PROMPT@,
        erase_message: false,
    }
}

impl WebsiteConfig {
    /// The configuration in force before any was set.
    pub fn init_config() -> (r: WebsiteConfig)
        ensures
            r@ == initial_config(),
    {
        WebsiteConfig {
            sound_name: String::from_str(DEFAULT_SOUND_NAME),
            theme: String::from_str(DEFAULT_THEME),
            alert: String::from_str(DEFAULT_ALERT),
            prompt: String::from_str(DEFAULT_PROMPT),
            erase_message: false,
        }
    }

    /// Takes sound, theme and alert from `config`; the prompt and the
    /// erase flag stay.
    pub fn update_config(&mut self, config: WebsiteConfig)
        ensures
            final(self)@ == (WebsiteConfigView {
                sound_name: config@.sound_name,
                theme: config@.theme,
                alert: config@.alert,
                ..old(self)@
            }),
    {
        self.sound_name = config.sound_name;
        self.theme = config.theme;
        self.alert = config.alert;
    }

    pub fn update_prompt(&mut self, prompt: &str)
        ensures
            final(self)@ == (WebsiteConfigView { prompt: prompt@, ..old(self)@ }),
    {
        self.prompt = String::from_str(prompt);
    }

    pub fn update_erase_message(&mut self, status: bool)
        ensures
            final(self)@ == (WebsiteConfigView { erase_message: status, ..old(self)@ }),
    {
        self.erase_message = status;
    }

    /// The configuration that a lookup found, or the initial one if it
    /// found none.
    pub fn get_config(found: Option<WebsiteConfig>) -> (r: WebsiteConfig)
        ensures
            r@ == match found {
                Some(config) => config@,
                None => initial_config(),
            },
    {
        match found {
            Some(config) => config,
            None => WebsiteConfig::init_config(),
        }
    }
}

} // verus!
