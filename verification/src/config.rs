use vstd::prelude::*;
use vstd::string::StringExecFns;
use crate::activity::{is_dynamic, Buttons};
use crate::channel::Event;
use crate::media::ButtonSpec;
use crate::rules::Blacklist;

verus! {

/// Image-hosting switches as the config file holds them; either flag
/// may be absent.
#[derive(Clone, Debug, PartialEq)]
pub struct ImagesConfig {
    pub enable_images: Option<bool>,
    pub imgur_images: Option<bool>,
}

/// Image-host credentials; the client id may be absent.
#[derive(Clone, Debug, PartialEq)]
pub struct ImgurConfig {
    pub client_id: Option<String>,
}

/// Presence-application settings: the external application id and the
/// two configurable button slots, either of which may be absent.
#[derive(Clone, Debug, PartialEq)]
pub struct DiscordConfig {
    pub application_id: Option<String>,
    pub buttons: Option<Buttons>,
}

/// The worker's configuration: handed to it at start, owned by it
/// afterwards, and replaced wholesale on a successful reload.
#[derive(Clone, Debug, PartialEq)]
pub struct Config {
    pub url: String,
    pub api_key: String,
    pub usernames: Vec<String>,
    pub blacklist: Blacklist,
    pub discord: Option<DiscordConfig>,
    pub images: Option<ImagesConfig>,
    pub imgur: Option<ImgurConfig>,
}

/// An empty configuration: no connection data, no rules, no options.
/// It never passes `startup_error`.
pub open spec fn is_default_config(c: Config) -> bool {
    &&& c.url@ == Seq::<char>::empty()
    &&& c.api_key@ == Seq::<char>::empty()
    &&& c.usernames@ == Seq::<String>::empty()
    &&& c.blacklist.media_types@.len() == 0
    &&& c.blacklist.libraries@.len() == 0
    &&& c.discord is None
    &&& c.images is None
    &&& c.imgur is None
}

impl Default for Config {
    /// The empty configuration.
    fn default() -> (c: Config)
        ensures
            is_default_config(c),
    {
        Config {
            url: String::new(),
            api_key: String::new(),
            usernames: Vec::new(),
            blacklist: Blacklist { media_types: Vec::new(), libraries: Vec::new() },
            discord: Option::None,
            images: Option::None,
            imgur: Option::None,
        }
    }
}

/// A configuration without a usable username: none listed, or the
/// first one empty.
pub open spec fn username_missing(c: Config) -> bool {
    c.usernames@.len() == 0 || c.usernames@[0]@.len() == 0
}

/// The startup check: an absent api key, url or username is fatal to
/// the loop, reported once in this order, before any polling.
pub fn startup_error(config: &Config) -> (r: Option<Event>)
    ensures
        config.api_key@.len() == 0 ==> (r matches Some(Event::Error(m)) && m@
            == "Jellyfin API key not set"@),
        config.api_key@.len() > 0 && config.url@.len() == 0 ==> (r matches Some(
            Event::Error(m),
        ) && m@ == "Jellyfin URL not set"@),
        config.api_key@.len() > 0 && config.url@.len() > 0 && username_missing(*config) ==> (
        r matches Some(Event::Error(m)) && m@ == "Jellyfin Username not set"@),
        config.api_key@.len() > 0 && config.url@.len() > 0 && !username_missing(*config) ==> r
            is None,
{
    if config.api_key.as_str().is_empty() {
        Option::Some(Event::Error(String::from_str("Jellyfin API key not set")))
    } else if config.url.as_str().is_empty() {
        Option::Some(Event::Error(String::from_str("Jellyfin URL not set")))
    } else if config.usernames.len() == 0 || config.usernames[0].as_str().is_empty() {
        Option::Some(Event::Error(String::from_str("Jellyfin Username not set")))
    } else {
        Option::None
    }
}

/// The application id to register with the presence channel: the
/// configured one, or the engine's stock id.
pub fn application_id_or_default(config: &Config) -> (r: String)
    ensures
        (match config.discord {
            Some(d) => match d.application_id {
                Some(id) => r == id,
                None => r@ == "1053747938519679018"@,
            },
            None => r@ == "1053747938519679018"@,
        }),
{
    match &config.discord {
        Option::Some(d) => match &d.application_id {
            Option::Some(id) => id.clone(),
            Option::None => String::from_str("1053747938519679018"),
        },
        Option::None => String::from_str("1053747938519679018"),
    }
}

/// How a button configuration falls out of a config: the configured
/// slots, or two dynamic sentinels when none are set.
pub open spec fn buttons_defaulted(c: Config, r: Buttons) -> bool {
    match c.discord {
        Some(d) => match d.buttons {
            Some(b) => r == b,
            None => is_dynamic(r.one) && is_dynamic(r.two),
        },
        None => is_dynamic(r.one) && is_dynamic(r.two),
    }
}

/// The configured button slots, or two dynamic sentinels when none are
/// set.
pub fn buttons_or_default(config: &Config) -> (r: Buttons)
    ensures
        buttons_defaulted(*config, r),
{
    match &config.discord {
        Option::Some(d) => match &d.buttons {
            Option::Some(b) => Buttons { one: b.one.duplicate(), two: b.two.duplicate() },
            Option::None => dynamic_pair(),
        },
        Option::None => dynamic_pair(),
    }
}

/// Two dynamic sentinel slots: the stock button configuration.
pub fn dynamic_pair() -> (r: Buttons)
    ensures
        is_dynamic(r.one),
        is_dynamic(r.two),
{
    Buttons {
        one: ButtonSpec {
            name: String::from_str("dynamic"),
            url: String::from_str("dynamic"),
        },
        two: ButtonSpec {
            name: String::from_str("dynamic"),
            url: String::from_str("dynamic"),
        },
    }
}

} // verus!
