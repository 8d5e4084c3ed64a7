use vstd::prelude::*;
use crate::config::{Config, DiscordConfig, ImagesConfig, ImgurConfig};
use crate::media::MediaTypeTag;
use crate::activity::Buttons;

verus! {

/// One media-server library as the front-end lists it: shown name and
/// whether items from it may be published.
#[derive(Clone, Debug, PartialEq)]
pub struct Library {
    pub name: String,
    pub enabled: bool,
}

impl Library {
    /// A copy of this entry, equal to the original.
    pub fn duplicate(&self) -> (r: Library)
        ensures
            r == *self,
    {
        Library { name: self.name.clone(), enabled: self.enabled }
    }
}

/// The per-kind checkboxes of the media-type panel: a kind is checked
/// exactly while it is not blacklisted.
#[derive(Clone, Copy, Debug, PartialEq, Eq, Structural)]
pub struct WhitelistMediaTypes {
    pub movies: bool,
    pub episodes: bool,
    pub livetv: bool,
    pub music: bool,
    pub books: bool,
    pub audiobooks: bool,
}

impl Default for WhitelistMediaTypes {
    /// Every kind allowed.
    fn default() -> (w: WhitelistMediaTypes)
        ensures
            w.movies && w.episodes && w.livetv && w.music && w.books && w.audiobooks,
    {
        WhitelistMediaTypes {
            movies: true,
            episodes: true,
            livetv: true,
            music: true,
            books: true,
            audiobooks: true,
        }
    }
}

/// The checkbox states a media-type blacklist induces.
pub open spec fn whitelist_of(blacklisted: Seq<MediaTypeTag>) -> WhitelistMediaTypes {
    WhitelistMediaTypes {
        movies: !blacklisted.contains(MediaTypeTag::Movie),
        episodes: !blacklisted.contains(MediaTypeTag::Episode),
        livetv: !blacklisted.contains(MediaTypeTag::LiveTv),
        music: !blacklisted.contains(MediaTypeTag::Music),
        books: !blacklisted.contains(MediaTypeTag::Book),
        audiobooks: !blacklisted.contains(MediaTypeTag::AudioBook),
    }
}

impl WhitelistMediaTypes {
    /// Recomputes every checkbox from the config's blacklist.
    pub fn update(&mut self, config: &Config)
        ensures
            *final(self) == whitelist_of(config.blacklist.media_types@),
    {
        let list = &config.blacklist.media_types;
        self.movies = !crate::rules::media_type_blacklisted(MediaTypeTag::Movie, list);
        self.episodes = !crate::rules::media_type_blacklisted(MediaTypeTag::Episode, list);
        self.livetv = !crate::rules::media_type_blacklisted(MediaTypeTag::LiveTv, list);
        self.music = !crate::rules::media_type_blacklisted(MediaTypeTag::Music, list);
        self.books = !crate::rules::media_type_blacklisted(MediaTypeTag::Book, list);
        self.audiobooks = !crate::rules::media_type_blacklisted(MediaTypeTag::AudioBook, list);
    }
}

/// Image-hosting switches as the front-end edits them.
#[derive(Clone, Debug, PartialEq)]
pub struct ImageOptions {
    pub enabled: bool,
    pub imgur: bool,
    pub imgur_client_id: String,
}

/// The media-type blacklist after one checkbox toggle: allowing a kind
/// removes every occurrence, disallowing appends one.
pub open spec fn toggled_media_types(
    s: Seq<MediaTypeTag>,
    media_type: MediaTypeTag,
    allowed: bool,
) -> Seq<MediaTypeTag> {
    if allowed {
        s.filter(|x: MediaTypeTag| x != media_type)
    } else {
        s.push(media_type)
    }
}

/// The checkboxes after one toggle; `Nothing` has no checkbox.
pub open spec fn toggled_whitelist(
    w: WhitelistMediaTypes,
    media_type: MediaTypeTag,
    allowed: bool,
) -> WhitelistMediaTypes {
    match media_type {
        MediaTypeTag::Movie => WhitelistMediaTypes { movies: allowed, ..w },
        MediaTypeTag::Episode => WhitelistMediaTypes { episodes: allowed, ..w },
        MediaTypeTag::LiveTv => WhitelistMediaTypes { livetv: allowed, ..w },
        MediaTypeTag::Music => WhitelistMediaTypes { music: allowed, ..w },
        MediaTypeTag::Book => WhitelistMediaTypes { books: allowed, ..w },
        MediaTypeTag::AudioBook => WhitelistMediaTypes { audiobooks: allowed, ..w },
        MediaTypeTag::Nothing => w,
    }
}

/// One media-type checkbox toggle: the blacklist and the checkbox
/// follow each other; nothing else of the config moves.
pub fn toggle_media_type(
    config: &mut Config,
    whitelist: &mut WhitelistMediaTypes,
    media_type: MediaTypeTag,
    allowed: bool,
)
    ensures
        final(config).blacklist.media_types@ == toggled_media_types(
            old(config).blacklist.media_types@,
            media_type,
            allowed,
        ),
        final(config).blacklist.libraries == old(config).blacklist.libraries,
        *final(config) == (Config { blacklist: final(config).blacklist, ..*old(config) }),
        *final(whitelist) == toggled_whitelist(*old(whitelist), media_type, allowed),
{
    match media_type {
        MediaTypeTag::Movie => whitelist.movies = allowed,
        MediaTypeTag::Episode => whitelist.episodes = allowed,
        MediaTypeTag::LiveTv => whitelist.livetv = allowed,
        MediaTypeTag::Music => whitelist.music = allowed,
        MediaTypeTag::Book => whitelist.books = allowed,
        MediaTypeTag::AudioBook => whitelist.audiobooks = allowed,
        MediaTypeTag::Nothing => {},
    }
    if allowed {
        let mut kept: Vec<MediaTypeTag> = Vec::new();
        let mut i: usize = 0;
        proof {
            reveal(Seq::<MediaTypeTag>::filter);
            assert(toggled_media_types(
                config.blacklist.media_types@.subrange(0, 0),
                media_type,
                true,
            ) =~= Seq::<MediaTypeTag>::empty());
        }
        while i < config.blacklist.media_types.len()
            invariant
                i <= config.blacklist.media_types@.len(),
                kept@ == toggled_media_types(
                    config.blacklist.media_types@.subrange(0, i as int),
                    media_type,
                    true,
                ),
            decreases config.blacklist.media_types@.len() - i,
        {
            let entry = config.blacklist.media_types[i];
            proof {
                reveal(Seq::<MediaTypeTag>::filter);
                let s = config.blacklist.media_types@;
                assert(s.subrange(0, i as int + 1).drop_last() =~= s.subrange(0, i as int));
                assert(s.subrange(0, i as int + 1).last() == s[i as int]);
                if entry != media_type {
                    assert(toggled_media_types(s.subrange(0, i as int + 1), media_type, true)
                        =~= toggled_media_types(s.subrange(0, i as int), media_type, true).push(
                        entry,
                    ));
                } else {
                    assert(toggled_media_types(s.subrange(0, i as int + 1), media_type, true)
                        =~= toggled_media_types(s.subrange(0, i as int), media_type, true));
                }
            }
            if !(entry == media_type) {
                kept.push(entry);
            }
            i = i + 1;
        }
        proof {
            assert(config.blacklist.media_types@.subrange(
                0,
                config.blacklist.media_types@.len() as int,
            ) =~= config.blacklist.media_types@);
        }
        config.blacklist.media_types = kept;
    } else {
        config.blacklist.media_types.push(media_type);
    }
}

/// Whether the list holds a string with exactly this text.
pub open spec fn contains_name(s: Seq<String>, name: Seq<char>) -> bool {
    exists|i: int| 0 <= i < s.len() && s[i]@ == name
}

/// Whether the list holds a string with exactly this text.
pub fn name_listed(list: &Vec<String>, name: &String) -> (r: bool)
    ensures
        r == contains_name(list@, name@),
{
    let mut i: usize = 0;
    while i < list.len()
        invariant
            i <= list@.len(),
            forall|j: int| 0 <= j < i ==> list@[j]@ != name@,
        decreases list@.len() - i,
    {
        if list[i] == *name {
            assert(contains_name(list@, name@));
            return true;
        }
        i = i + 1;
    }
    false
}

/// Adds a username unless one with the same text is already listed;
/// nothing else of the config moves.
pub fn add_username(config: &mut Config, new_username: &String)
    ensures
        contains_name(old(config).usernames@, new_username@) ==> final(config).usernames@
            == old(config).usernames@,
        !contains_name(old(config).usernames@, new_username@) ==> final(config).usernames@
            == old(config).usernames@.push(*new_username),
        *final(config) == (Config { usernames: final(config).usernames, ..*old(config) }),
{
    if !name_listed(&config.usernames, new_username) {
        config.usernames.push(new_username.clone());
    }
}

/// The usernames that survive a removal: every one whose text differs.
pub open spec fn usernames_without(s: Seq<String>, pattern: Seq<char>) -> Seq<String> {
    s.filter(|u: String| u@ != pattern)
}

/// Drops every username with exactly the given text; nothing else of
/// the config moves.
pub fn remove_username(config: &mut Config, pattern: &String)
    ensures
        final(config).usernames@ == usernames_without(old(config).usernames@, pattern@),
        *final(config) == (Config { usernames: final(config).usernames, ..*old(config) }),
{
    let mut kept: Vec<String> = Vec::new();
    let mut i: usize = 0;
    proof {
        reveal(Seq::<String>::filter);
        assert(usernames_without(config.usernames@.subrange(0, 0), pattern@) =~= Seq::<
            String,
        >::empty());
    }
    while i < config.usernames.len()
        invariant
            i <= config.usernames@.len(),
            kept@ == usernames_without(config.usernames@.subrange(0, i as int), pattern@),
        decreases config.usernames@.len() - i,
    {
        proof {
            reveal(Seq::<String>::filter);
            let s = config.usernames@;
            assert(s.subrange(0, i as int + 1).drop_last() =~= s.subrange(0, i as int));
            assert(s.subrange(0, i as int + 1).last() == s[i as int]);
            if s[i as int]@ != pattern@ {
                assert(usernames_without(s.subrange(0, i as int + 1), pattern@)
                    =~= usernames_without(s.subrange(0, i as int), pattern@).push(s[i as int]));
            } else {
                assert(usernames_without(s.subrange(0, i as int + 1), pattern@)
                    =~= usernames_without(s.subrange(0, i as int), pattern@));
            }
        }
        if !(config.usernames[i] == *pattern) {
            kept.push(config.usernames[i].clone());
        }
        i = i + 1;
    }
    proof {
        assert(config.usernames@.subrange(0, config.usernames@.len() as int)
            =~= config.usernames@);
    }
    config.usernames = kept;
}

/// The list entry one library name induces: shown under its name, and
/// checked exactly while the blacklist does not hold that name.
pub open spec fn library_entry_of(name: String, blacklisted: Seq<String>) -> Library {
    Library { name, enabled: !contains_name(blacklisted, name@) }
}

/// The front-end's library list for the given names, in order.
pub fn libraries_from_names(names: &Vec<String>, blacklisted: &Vec<String>) -> (r: Vec<
    Library,
>)
    ensures
        r@ == names@.map_values(|n: String| library_entry_of(n, blacklisted@)),
{
    let ghost f = |n: String| library_entry_of(n, blacklisted@);
    let mut out: Vec<Library> = Vec::new();
    let mut i: usize = 0;
    proof {
        assert(out@ =~= names@.subrange(0, 0).map_values(f));
    }
    while i < names.len()
        invariant
            i <= names@.len(),
            f == (|n: String| library_entry_of(n, blacklisted@)),
            out@ == names@.subrange(0, i as int).map_values(f),
        decreases names@.len() - i,
    {
        let listed = name_listed(blacklisted, &names[i]);
        out.push(Library { name: names[i].clone(), enabled: !listed });
        proof {
            assert(out@ =~= names@.subrange(0, i as int + 1).map_values(f));
        }
        i = i + 1;
    }
    proof {
        assert(names@.subrange(0, names@.len() as int) =~= names@);
        assert(names@.map_values(f) =~= names@.map_values(
            |n: String| library_entry_of(n, blacklisted@),
        ));
    }
    out
}

/// One list entry after a toggle aimed at `target`: an entry equal to
/// it (same text, same current state) takes the new checkbox, any
/// other stays.
pub open spec fn toggled_library_entry(l: Library, target: Library, enabled: bool) -> Library {
    if l.name@ == target.name@ && l.enabled == target.enabled {
        Library { name: l.name, enabled }
    } else {
        l
    }
}

/// Sets the checkbox of every entry equal to the given one; all names
/// and other entries stay.
pub fn toggle_library(libraries: &mut Vec<Library>, target: &Library, enabled: bool)
    ensures
        final(libraries)@ == old(libraries)@.map_values(
            |l: Library| toggled_library_entry(l, *target, enabled),
        ),
{
    let ghost f = |l: Library| toggled_library_entry(l, *target, enabled);
    let mut out: Vec<Library> = Vec::new();
    let mut i: usize = 0;
    proof {
        assert(out@ =~= libraries@.subrange(0, 0).map_values(f));
    }
    while i < libraries.len()
        invariant
            i <= libraries@.len(),
            f == (|l: Library| toggled_library_entry(l, *target, enabled)),
            out@ == libraries@.subrange(0, i as int).map_values(f),
        decreases libraries@.len() - i,
    {
        let same = libraries[i].name == target.name && libraries[i].enabled == target.enabled;
        let entry = libraries[i].duplicate();
        if same {
            out.push(Library { name: entry.name, enabled });
        } else {
            out.push(entry);
        }
        proof {
            assert(out@ =~= libraries@.subrange(0, i as int + 1).map_values(f));
        }
        i = i + 1;
    }
    proof {
        assert(libraries@.subrange(0, libraries@.len() as int) =~= libraries@);
        assert(libraries@.map_values(f) =~= libraries@.map_values(
            |l: Library| toggled_library_entry(l, *target, enabled),
        ));
    }
    *libraries = out;
}

/// The names of the unchecked libraries, in display order: what the
/// saved blacklist will hold.
pub open spec fn disabled_library_names(libs: Seq<Library>) -> Seq<String> {
    libs.filter(|l: Library| !l.enabled).map_values(|l: Library| l.name)
}

/// What saving the front-end's edits does to the config: the two
/// button slots and the switches are written in, the library blacklist
/// is rebuilt from the unchecked entries, and everything else stays.
pub open spec fn settings_applied(
    before: Config,
    after: Config,
    buttons: Buttons,
    image_options: ImageOptions,
    libraries: Seq<Library>,
) -> bool {
    &&& (match after.discord {
        Some(d) => {
            &&& d.buttons == Some(buttons)
            &&& d.application_id == (match before.discord {
                Some(od) => od.application_id,
                None => None::<String>,
            })
        },
        None => false,
    })
    &&& after.images == Some(
        ImagesConfig {
            enable_images: Some(image_options.enabled),
            imgur_images: Some(image_options.imgur),
        },
    )
    &&& (match after.imgur {
        Some(ic) => ic.client_id matches Some(id) && id == image_options.imgur_client_id,
        None => false,
    })
    &&& after.blacklist.media_types == before.blacklist.media_types
    &&& after.blacklist.libraries@ == disabled_library_names(libraries)
    &&& after.url == before.url
    &&& after.api_key == before.api_key
    &&& after.usernames == before.usernames
}

/// Writes the front-end's edits back into the config.
pub fn apply_settings(
    config: &mut Config,
    buttons: &Buttons,
    image_options: &ImageOptions,
    libraries: &Vec<Library>,
)
    ensures
        settings_applied(*old(config), *final(config), *buttons, *image_options, libraries@),
{
    let application_id = match &config.discord {
        Option::Some(d) => match &d.application_id {
            Option::Some(id) => Option::Some(id.clone()),
            Option::None => Option::None,
        },
        Option::None => Option::None,
    };
    config.discord = Option::Some(
        DiscordConfig {
            application_id,
            buttons: Option::Some(
                Buttons { one: buttons.one.duplicate(), two: buttons.two.duplicate() },
            ),
        },
    );
    config.images = Option::Some(
        ImagesConfig {
            enable_images: Option::Some(image_options.enabled),
            imgur_images: Option::Some(image_options.imgur),
        },
    );
    config.imgur = Option::Some(
        ImgurConfig { client_id: Option::Some(image_options.imgur_client_id.clone()) },
    );

    let mut disabled: Vec<String> = Vec::new();
    let mut i: usize = 0;
    proof {
        assert(disabled_library_names(libraries@.subrange(0, 0)) =~= Seq::<String>::empty());
    }
    while i < libraries.len()
        invariant
            i <= libraries@.len(),
            disabled@ == disabled_library_names(libraries@.subrange(0, i as int)),
        decreases libraries@.len() - i,
    {
        proof {
            reveal(Seq::<Library>::filter);
            assert(libraries@.subrange(0, i as int + 1).drop_last() =~= libraries@.subrange(
                0,
                i as int,
            ));
            assert(libraries@.subrange(0, i as int + 1).last() == libraries@[i as int]);
            if !libraries@[i as int].enabled {
                assert(disabled_library_names(libraries@.subrange(0, i as int + 1))
                    =~= disabled_library_names(libraries@.subrange(0, i as int)).push(
                    libraries@[i as int].name,
                ));
            } else {
                assert(disabled_library_names(libraries@.subrange(0, i as int + 1))
                    =~= disabled_library_names(libraries@.subrange(0, i as int)));
            }
        }
        if !libraries[i].enabled {
            disabled.push(libraries[i].name.clone());
        }
        i = i + 1;
    }
    proof {
        assert(libraries@.subrange(0, libraries@.len() as int) =~= libraries@);
    }
    config.blacklist.libraries = disabled;
}

/// Whether a loaded config switches images on.
pub open spec fn images_enabled_in(c: Config) -> bool {
    match c.images {
        Some(i) => i.enable_images == Some(true),
        None => false,
    }
}

/// Whether a loaded config switches the imgur host on.
pub open spec fn imgur_enabled_in(c: Config) -> bool {
    match c.images {
        Some(i) => i.imgur_images == Some(true),
        None => false,
    }
}

/// The image switches a loaded config induces: the client id is read
/// only while imgur is on, and kept as it was otherwise.
pub open spec fn image_options_derived(c: Config, prev: ImageOptions, r: ImageOptions) -> bool {
    &&& r.enabled == images_enabled_in(c)
    &&& r.imgur == imgur_enabled_in(c)
    &&& (imgur_enabled_in(c) ==> (match c.imgur {
        Some(ic) => match ic.client_id {
            Some(id) => r.imgur_client_id == id,
            None => r.imgur_client_id@ == Seq::<char>::empty(),
        },
        None => r.imgur_client_id@ == Seq::<char>::empty(),
    }))
    &&& (!imgur_enabled_in(c) ==> r.imgur_client_id == prev.imgur_client_id)
}

/// The image switches the main panel derives from a loaded config.
pub fn image_options_of(config: &Config, prev: &ImageOptions) -> (r: ImageOptions)
    ensures
        image_options_derived(*config, *prev, r),
{
    let enabled = match &config.images {
        Option::Some(i) => match i.enable_images {
            Option::Some(e) => e,
            Option::None => false,
        },
        Option::None => false,
    };
    let imgur = match &config.images {
        Option::Some(i) => match i.imgur_images {
            Option::Some(e) => e,
            Option::None => false,
        },
        Option::None => false,
    };
    let imgur_client_id = if imgur {
        match &config.imgur {
            Option::Some(ic) => match &ic.client_id {
                Option::Some(id) => id.clone(),
                Option::None => String::new(),
            },
            Option::None => String::new(),
        }
    } else {
        prev.imgur_client_id.clone()
    };
    ImageOptions { enabled, imgur, imgur_client_id }
}

} // verus!
