use vstd::prelude::*;
use vstd::string::StringExecFns;
use crate::activity::{is_dynamic, is_dynamic_slot, Buttons};
use crate::channel::{Command, Event};
use crate::config::{buttons_defaulted, buttons_or_default, is_default_config, Config};
use crate::media::{ButtonSpec, MediaTypeTag};
use crate::settings::{
    add_username, apply_settings, contains_name, image_options_derived, image_options_of,
    libraries_from_names, library_entry_of, remove_username, settings_applied,
    toggle_library, toggle_media_type, toggled_library_entry, toggled_media_types,
    toggled_whitelist, usernames_without, whitelist_of, ImageOptions, Library,
    WhitelistMediaTypes,
};

verus! {

/// Command-line surface of the host program: optional paths to the
/// config file and to the image-urls file.
#[derive(Clone, Debug, PartialEq)]
pub struct Args {
    pub config: Option<String>,
    pub image_urls: Option<String>,
}

/// Which settings page is open.
#[derive(Clone, Copy, Debug, PartialEq, Eq, Structural)]
pub enum Setting {
    Main,
    MediaTypes,
    Buttons,
    Users,
    Images,
    Libraries,
}

/// Which view the front-end shows.
#[derive(Clone, Copy, Debug, PartialEq, Eq, Structural)]
pub enum Panel {
    Main,
    Settings(Setting),
}

/// Everything the front-end can ask of the controller.
#[derive(Clone, Debug, PartialEq)]
pub enum Message {
    Open(Panel),
    ReloadConfig,
    Start,
    Stop,
    Update,
    UpdateUrl(String),
    UpdateApiKey(String),
    ToggleMediaType(MediaTypeTag, bool),
    ToggleCustomButtons(bool),
    UpdateButtonOneName(String),
    UpdateButtonOneUrl(String),
    UpdateButtonTwoName(String),
    UpdateButtonTwoUrl(String),
    UpdateNewUsername(String),
    AddUsername,
    RemoveUsername(String),
    Images(bool),
    Imgur(bool),
    ImgurClientId(String),
    UpdateLibraries(Vec<String>),
    ToggleLibrary(Library, bool),
    SaveSettings,
}

/// The I/O a message asks the host to perform: send a command to the
/// worker, load or save the config file, fetch the library names from
/// the media server, poll the event channel.
#[derive(Clone, Debug, PartialEq)]
pub struct Directive {
    pub send: Option<Command>,
    pub load_config: bool,
    pub save_config: bool,
    pub fetch_libraries: bool,
    pub poll_events: bool,
}

/// A directive asking for nothing.
pub open spec fn idle_directive() -> Directive {
    Directive {
        send: None,
        load_config: false,
        save_config: false,
        fetch_libraries: false,
        poll_events: false,
    }
}

fn no_io() -> (d: Directive)
    ensures
        d == idle_directive(),
{
    Directive {
        send: Option::None,
        load_config: false,
        save_config: false,
        fetch_libraries: false,
        poll_events: false,
    }
}

/// The front-end's state, as far as it is data: what is displayed, the
/// edited config, and the panel bookkeeping. The host owns the
/// channels and the windowing around it.
#[derive(Clone, Debug, PartialEq)]
pub struct Controller {
    pub status: String,
    pub error: String,
    pub config: Config,
    pub panel: Panel,
    pub whitelist_media_types: WhitelistMediaTypes,
    pub custom_buttons: bool,
    pub buttons: Buttons,
    pub image_options: ImageOptions,
    pub new_username: String,
    pub libraries: Vec<Library>,
    pub config_path: String,
}

impl Controller {
    /// The state the front-end starts in: nothing running, no error
    /// shown, the given config with its button slots, every media kind
    /// allowed.
    pub fn new(config: Config, config_path: String) -> (c: Controller)
        ensures
            c.status@ == "Not running"@,
            c.error@ == "None"@,
            c.config == config,
            c.panel == Panel::Main,
            c.whitelist_media_types == (WhitelistMediaTypes {
                movies: true,
                episodes: true,
                livetv: true,
                music: true,
                books: true,
                audiobooks: true,
            }),
            !c.custom_buttons,
            buttons_defaulted(config, c.buttons),
            !c.image_options.enabled,
            !c.image_options.imgur,
            c.image_options.imgur_client_id@ == Seq::<char>::empty(),
            c.new_username@ == Seq::<char>::empty(),
            c.libraries@ == Seq::<Library>::empty(),
            c.config_path == config_path,
    {
        let buttons = buttons_or_default(&config);
        Controller {
            status: String::from_str("Not running"),
            error: String::from_str("None"),
            config,
            panel: Panel::Main,
            whitelist_media_types: WhitelistMediaTypes {
                movies: true,
                episodes: true,
                livetv: true,
                music: true,
                books: true,
                audiobooks: true,
            },
            custom_buttons: false,
            buttons,
            image_options: ImageOptions {
                enabled: false,
                imgur: false,
                imgur_client_id: String::new(),
            },
            new_username: String::new(),
            libraries: Vec::new(),
            config_path,
        }
    }

    /// Applies one front-end message to the state and says what I/O the
    /// host must perform next. Opening the main panel re-reads the
    /// config and the library list; start, stop and reload go to the
    /// worker; saving writes the edits back; every other message edits
    /// a field.
    pub fn apply(&mut self, msg: Message) -> (d: Directive)
        ensures
            (match msg {
                Message::Open(p) => {
                    &&& *final(self) == (Controller {
                        panel: p,
                        custom_buttons: if p == Panel::Main {
                            !(is_dynamic(old(self).buttons.one) && is_dynamic(
                                old(self).buttons.two,
                            ))
                        } else {
                            old(self).custom_buttons
                        },
                        ..*old(self)
                    })
                    &&& d == (Directive {
                        send: None,
                        load_config: p == Panel::Main,
                        save_config: false,
                        fetch_libraries: p == Panel::Main,
                        poll_events: false,
                    })
                },
                Message::ReloadConfig => {
                    &&& *final(self) == *old(self)
                    &&& d == (Directive {
                        send: Some(Command::ReloadConfig),
                        load_config: true,
                        save_config: false,
                        fetch_libraries: false,
                        poll_events: false,
                    })
                },
                Message::Start => {
                    &&& *final(self) == *old(self)
                    &&& d == (Directive { send: Some(Command::Start), ..idle_directive() })
                },
                Message::Stop => {
                    &&& *final(self) == *old(self)
                    &&& d == (Directive { send: Some(Command::Stop), ..idle_directive() })
                },
                Message::Update => {
                    &&& *final(self) == *old(self)
                    &&& d == (Directive { poll_events: true, ..idle_directive() })
                },
                Message::UpdateUrl(url) => {
                    &&& *final(self) == (Controller {
                        config: (Config { url, ..old(self).config }),
                        ..*old(self)
                    })
                    &&& d == idle_directive()
                },
                Message::UpdateApiKey(api_key) => {
                    &&& *final(self) == (Controller {
                        config: (Config { api_key, ..old(self).config }),
                        ..*old(self)
                    })
                    &&& d == idle_directive()
                },
                Message::ToggleMediaType(media_type, allowed) => {
                    &&& final(self).config.blacklist.media_types@ == toggled_media_types(
                        old(self).config.blacklist.media_types@,
                        media_type,
                        allowed,
                    )
                    &&& final(self).config.blacklist.libraries == old(
                        self,
                    ).config.blacklist.libraries
                    &&& final(self).config == (Config {
                        blacklist: final(self).config.blacklist,
                        ..old(self).config
                    })
                    &&& final(self).whitelist_media_types == toggled_whitelist(
                        old(self).whitelist_media_types,
                        media_type,
                        allowed,
                    )
                    &&& *final(self) == (Controller {
                        config: final(self).config,
                        whitelist_media_types: final(self).whitelist_media_types,
                        ..*old(self)
                    })
                    &&& d == idle_directive()
                },
                Message::ToggleCustomButtons(val) => {
                    &&& *final(self) == (Controller { custom_buttons: val, ..*old(self) })
                    &&& d == idle_directive()
                },
                Message::UpdateButtonOneName(name) => {
                    &&& *final(self) == (Controller {
                        buttons: (Buttons {
                            one: (ButtonSpec { name, ..old(self).buttons.one }),
                            two: old(self).buttons.two,
                        }),
                        ..*old(self)
                    })
                    &&& d == idle_directive()
                },
                Message::UpdateButtonOneUrl(url) => {
                    &&& *final(self) == (Controller {
                        buttons: (Buttons {
                            one: (ButtonSpec { url, ..old(self).buttons.one }),
                            two: old(self).buttons.two,
                        }),
                        ..*old(self)
                    })
                    &&& d == idle_directive()
                },
                Message::UpdateButtonTwoName(name) => {
                    &&& *final(self) == (Controller {
                        buttons: (Buttons {
                            one: old(self).buttons.one,
                            two: (ButtonSpec { name, ..old(self).buttons.two }),
                        }),
                        ..*old(self)
                    })
                    &&& d == idle_directive()
                },
                Message::UpdateButtonTwoUrl(url) => {
                    &&& *final(self) == (Controller {
                        buttons: (Buttons {
                            one: old(self).buttons.one,
                            two: (ButtonSpec { url, ..old(self).buttons.two }),
                        }),
                        ..*old(self)
                    })
                    &&& d == idle_directive()
                },
                Message::UpdateNewUsername(username) => {
                    &&& *final(self) == (Controller { new_username: username, ..*old(self) })
                    &&& d == idle_directive()
                },
                Message::AddUsername => {
                    &&& (contains_name(
                        old(self).config.usernames@,
                        old(self).new_username@,
                    ) ==> final(self).config.usernames@ == old(self).config.usernames@)
                    &&& (!contains_name(
                        old(self).config.usernames@,
                        old(self).new_username@,
                    ) ==> final(self).config.usernames@ == old(self).config.usernames@.push(
                        old(self).new_username,
                    ))
                    &&& final(self).config == (Config {
                        usernames: final(self).config.usernames,
                        ..old(self).config
                    })
                    &&& final(self).new_username@ == Seq::<char>::empty()
                    &&& *final(self) == (Controller {
                        config: final(self).config,
                        new_username: final(self).new_username,
                        ..*old(self)
                    })
                    &&& d == idle_directive()
                },
                Message::RemoveUsername(pattern) => {
                    &&& final(self).config.usernames@ == usernames_without(
                        old(self).config.usernames@,
                        pattern@,
                    )
                    &&& final(self).config == (Config {
                        usernames: final(self).config.usernames,
                        ..old(self).config
                    })
                    &&& *final(self) == (Controller {
                        config: final(self).config,
                        ..*old(self)
                    })
                    &&& d == idle_directive()
                },
                Message::Images(val) => {
                    &&& *final(self) == (Controller {
                        image_options: (ImageOptions {
                            enabled: val,
                            ..old(self).image_options
                        }),
                        ..*old(self)
                    })
                    &&& d == idle_directive()
                },
                Message::Imgur(val) => {
                    &&& *final(self) == (Controller {
                        image_options: (ImageOptions {
                            imgur: val,
                            ..old(self).image_options
                        }),
                        ..*old(self)
                    })
                    &&& d == idle_directive()
                },
                Message::ImgurClientId(client_id) => {
                    &&& *final(self) == (Controller {
                        image_options: (ImageOptions {
                            imgur_client_id: client_id,
                            ..old(self).image_options
                        }),
                        ..*old(self)
                    })
                    &&& d == idle_directive()
                },
                Message::UpdateLibraries(names) => {
                    &&& final(self).libraries@ == names@.map_values(
                        |n: String|
                            library_entry_of(n, old(self).config.blacklist.libraries@),
                    )
                    &&& *final(self) == (Controller {
                        libraries: final(self).libraries,
                        ..*old(self)
                    })
                    &&& d == idle_directive()
                },
                Message::ToggleLibrary(library, val) => {
                    &&& final(self).libraries@ == old(self).libraries@.map_values(
                        |l: Library| toggled_library_entry(l, library, val),
                    )
                    &&& *final(self) == (Controller {
                        libraries: final(self).libraries,
                        ..*old(self)
                    })
                    &&& d == idle_directive()
                },
                Message::SaveSettings => {
                    &&& settings_applied(
                        old(self).config,
                        final(self).config,
                        old(self).buttons,
                        old(self).image_options,
                        old(self).libraries@,
                    )
                    &&& *final(self) == (Controller {
                        config: final(self).config,
                        ..*old(self)
                    })
                    &&& d == (Directive { save_config: true, ..idle_directive() })
                },
            }),
    {
        match msg {
            Message::Open(panel) => {
                self.panel = panel;
                let main = panel == Panel::Main;
                if main {
                    self.custom_buttons = !(is_dynamic_slot(&self.buttons.one)
                        && is_dynamic_slot(&self.buttons.two));
                }
                Directive {
                    send: Option::None,
                    load_config: main,
                    save_config: false,
                    fetch_libraries: main,
                    poll_events: false,
                }
            },
            Message::ReloadConfig => Directive {
                send: Option::Some(Command::ReloadConfig),
                load_config: true,
                save_config: false,
                fetch_libraries: false,
                poll_events: false,
            },
            Message::Start => Directive {
                send: Option::Some(Command::Start),
                load_config: false,
                save_config: false,
                fetch_libraries: false,
                poll_events: false,
            },
            Message::Stop => Directive {
                send: Option::Some(Command::Stop),
                load_config: false,
                save_config: false,
                fetch_libraries: false,
                poll_events: false,
            },
            Message::Update => Directive {
                send: Option::None,
                load_config: false,
                save_config: false,
                fetch_libraries: false,
                poll_events: true,
            },
            Message::UpdateUrl(url) => {
                self.config.url = url;
                no_io()
            },
            Message::UpdateApiKey(api_key) => {
                self.config.api_key = api_key;
                no_io()
            },
            Message::ToggleMediaType(media_type, allowed) => {
                toggle_media_type(
                    &mut self.config,
                    &mut self.whitelist_media_types,
                    media_type,
                    allowed,
                );
                no_io()
            },
            Message::ToggleCustomButtons(val) => {
                self.custom_buttons = val;
                no_io()
            },
            Message::UpdateButtonOneName(name) => {
                self.buttons.one.name = name;
                no_io()
            },
            Message::UpdateButtonOneUrl(url) => {
                self.buttons.one.url = url;
                no_io()
            },
            Message::UpdateButtonTwoName(name) => {
                self.buttons.two.name = name;
                no_io()
            },
            Message::UpdateButtonTwoUrl(url) => {
                self.buttons.two.url = url;
                no_io()
            },
            Message::UpdateNewUsername(username) => {
                self.new_username = username;
                no_io()
            },
            Message::AddUsername => {
                let name = self.new_username.clone();
                add_username(&mut self.config, &name);
                self.new_username = String::new();
                no_io()
            },
            Message::RemoveUsername(pattern) => {
                remove_username(&mut self.config, &pattern);
                no_io()
            },
            Message::Images(val) => {
                self.image_options.enabled = val;
                no_io()
            },
            Message::Imgur(val) => {
                self.image_options.imgur = val;
                no_io()
            },
            Message::ImgurClientId(client_id) => {
                self.image_options.imgur_client_id = client_id;
                no_io()
            },
            Message::UpdateLibraries(names) => {
                self.libraries = libraries_from_names(&names, &self.config.blacklist.libraries);
                no_io()
            },
            Message::ToggleLibrary(library, val) => {
                toggle_library(&mut self.libraries, &library, val);
                no_io()
            },
            Message::SaveSettings => {
                apply_settings(
                    &mut self.config,
                    &self.buttons,
                    &self.image_options,
                    &self.libraries,
                );
                Directive {
                    send: Option::None,
                    load_config: false,
                    save_config: true,
                    fetch_libraries: false,
                    poll_events: false,
                }
            },
        }
    }

    /// Takes the host's outcome of the config load a reload asked for:
    /// the loaded config, or the empty one when the file could not be
    /// read; the media-type checkboxes follow the new blacklist.
    pub fn config_reloaded(&mut self, outcome: Option<Config>)
        ensures
            (outcome matches Some(c) ==> final(self).config == c),
            (outcome is None ==> is_default_config(final(self).config)),
            final(self).whitelist_media_types == whitelist_of(
                final(self).config.blacklist.media_types@,
            ),
            *final(self) == (Controller {
                config: final(self).config,
                whitelist_media_types: final(self).whitelist_media_types,
                ..*old(self)
            }),
    {
        self.config = match outcome {
            Option::Some(c) => c,
            Option::None => Default::default(),
        };
        self.whitelist_media_types.update(&self.config);
    }

    /// Takes the host's outcome of the config load that opening the
    /// main panel asked for, and refreshes everything the panel
    /// derives from it: checkboxes, button slots and image switches.
    pub fn main_panel_loaded(&mut self, outcome: Option<Config>)
        ensures
            (outcome matches Some(c) ==> final(self).config == c),
            (outcome is None ==> is_default_config(final(self).config)),
            final(self).whitelist_media_types == whitelist_of(
                final(self).config.blacklist.media_types@,
            ),
            buttons_defaulted(final(self).config, final(self).buttons),
            image_options_derived(
                final(self).config,
                old(self).image_options,
                final(self).image_options,
            ),
            *final(self) == (Controller {
                config: final(self).config,
                whitelist_media_types: final(self).whitelist_media_types,
                buttons: final(self).buttons,
                image_options: final(self).image_options,
                ..*old(self)
            }),
    {
        self.config = match outcome {
            Option::Some(c) => c,
            Option::None => Default::default(),
        };
        self.whitelist_media_types.update(&self.config);
        self.buttons = buttons_or_default(&self.config);
        self.image_options = image_options_of(&self.config, &self.image_options);
    }

    /// Takes the host's outcome of the config save: a failure is shown
    /// as the error; a success asks the host to send the worker a
    /// reload, as the saved file is now the truth.
    pub fn save_finished(&mut self, error: Option<String>) -> (cmd: Option<Command>)
        ensures
            (error is None ==> *final(self) == *old(self) && cmd == Some(
                Command::ReloadConfig,
            )),
            (error matches Some(e) ==> final(self).error == e && *final(self) == (Controller {
                error: final(self).error,
                ..*old(self)
            }) && cmd is None),
    {
        match error {
            Option::None => Option::Some(Command::ReloadConfig),
            Option::Some(e) => {
                self.error = e;
                Option::None
            },
        }
    }

    /// Takes at most one polled worker event: the latest status and the
    /// latest error are what the front-end shows; a missed intermediate
    /// status does not matter.
    pub fn apply_event(&mut self, event: Option<Event>)
        ensures
            (event matches Some(Event::Status(s)) ==> *final(self) == (Controller {
                status: s,
                ..*old(self)
            })),
            (event matches Some(Event::Error(e)) ==> *final(self) == (Controller {
                error: e,
                ..*old(self)
            })),
            (event is None ==> *final(self) == *old(self)),
    {
        match event {
            Option::Some(Event::Status(s)) => self.status = s,
            Option::Some(Event::Error(e)) => self.error = e,
            Option::None => {},
        }
    }
}

} // verus!
