//! Settings and credentials, as plain values.

use crate::text::same_text;
use vstd::prelude::*;

verus! {

/// The credential that stands where none was configured.
pub open spec fn placeholder() -> Seq<char> {
    "INVALID"@
}

/// How many results a reply lists where nothing else was configured.
pub const DEFAULT_TOP_LINKS: u8 = 5;

#[derive(Debug, Clone, PartialEq, Eq, Hash)]
pub struct Credentials {
    token: String,
    saucenao_api_key: String,
    fuzzysearch_api_key: String,
}

pub struct CredentialsView {
    pub token: Seq<char>,
    pub saucenao_api_key: Seq<char>,
    pub fuzzysearch_api_key: Seq<char>,
}

impl View for Credentials {
    type V = CredentialsView;

    closed spec fn view(&self) -> CredentialsView {
        CredentialsView {
            token: self.token@,
            saucenao_api_key: self.saucenao_api_key@,
            fuzzysearch_api_key: self.fuzzysearch_api_key@,
        }
    }
}

impl Credentials {
    pub fn new(token: String, saucenao_api_key: String, fuzzysearch_api_key: String) -> (credentials:
        Self)
        ensures
            credentials@ == (CredentialsView {
                token: token@,
                saucenao_api_key: saucenao_api_key@,
                fuzzysearch_api_key: fuzzysearch_api_key@,
            }),
    {
        Credentials { token, saucenao_api_key, fuzzysearch_api_key }
    }

    pub fn token(&self) -> (token: &String)
        ensures
            token@ == self@.token,
    {
        &self.token
    }

    pub fn saucenao_api_key(&self) -> (key: &String)
        ensures
            key@ == self@.saucenao_api_key,
    {
        &self.saucenao_api_key
    }

    pub fn fuzzysearch_api_key(&self) -> (key: &String)
        ensures
            key@ == self@.fuzzysearch_api_key,
    {
        &self.fuzzysearch_api_key
    }
}

impl Default for Credentials {
    /// Credentials that hold the placeholder in every place.
    fn default() -> (credentials: Self)
        ensures
            credentials@ == (CredentialsView {
                token: placeholder(),
                saucenao_api_key: placeholder(),
                fuzzysearch_api_key: placeholder(),
            }),
    {
        Credentials {
            token: String::from_str("INVALID"),
            saucenao_api_key: String::from_str("INVALID"),
            fuzzysearch_api_key: String::from_str("INVALID"),
        }
    }
}

#[derive(Debug, Clone, Copy, PartialEq, Eq, Hash)]
pub struct Settings {
    top_links: u8,
}

pub struct SettingsView {
    pub top_links: nat,
}

impl View for Settings {
    type V = SettingsView;

    closed spec fn view(&self) -> SettingsView {
        SettingsView { top_links: self.top_links as nat }
    }
}

impl Settings {
    pub fn new(top_links: u8) -> (settings: Self)
        ensures
            settings@.top_links == top_links,
    {
        Settings { top_links }
    }

    /// How many results a reply lists at most.
    pub fn top_links(&self) -> (top_links: u8)
        ensures
            top_links == self@.top_links,
    {
        self.top_links
    }
}

impl Default for Settings {
    fn default() -> (settings: Self)
        ensures
            settings@.top_links == DEFAULT_TOP_LINKS,
    {
        Settings { top_links: DEFAULT_TOP_LINKS }
    }
}

#[derive(Debug, Clone, PartialEq, Eq, Hash)]
pub struct Config {
    credentials: Credentials,
    settings: Settings,
}

pub struct ConfigView {
    pub credentials: CredentialsView,
    pub settings: SettingsView,
}

impl View for Config {
    type V = ConfigView;

    closed spec fn view(&self) -> ConfigView {
        ConfigView { credentials: self.credentials@, settings: self.settings@ }
    }
}

impl Config {
    pub fn new(credentials: Credentials, settings: Settings) -> (config: Self)
        ensures
            config@ == (ConfigView { credentials: credentials@, settings: settings@ }),
    {
        Config { credentials, settings }
    }

    /// Where the configuration file lies: under `/config` where the build
    /// was marked as one for a container, by the word `true`, else in the
    /// working directory.
    pub fn get_path(container: Option<&str>) -> (path: &'static str)
        ensures
            path@ == Self::path_for(container),
    {
        match container {
            Some(mark) => {
                if same_text(mark, "true") {
                    "/config/config.toml"
                } else {
                    "./config.toml"
                }
            },
            None => "./config.toml",
        }
    }

    pub open spec fn path_for(container: Option<&str>) -> Seq<char> {
        match container {
            Some(mark) => if mark@ == "true"@ {
                "/config/config.toml"@
            } else {
                "./config.toml"@
            },
            None => "./config.toml"@,
        }
    }

    pub fn credentials(&self) -> (credentials: &Credentials)
        ensures
            credentials@ == self@.credentials,
    {
        &self.credentials
    }

    pub fn settings(&self) -> (settings: &Settings)
        ensures
            settings@ == self@.settings,
    {
        &self.settings
    }
}

impl Default for Config {
    fn default() -> (config: Self)
        ensures
            config@.credentials == (CredentialsView {
                token: placeholder(),
                saucenao_api_key: placeholder(),
                fuzzysearch_api_key: placeholder(),
            }),
            config@.settings.top_links == DEFAULT_TOP_LINKS,
    {
        Config { credentials: Credentials::default(), settings: Settings::default() }
    }
}

} // verus!
