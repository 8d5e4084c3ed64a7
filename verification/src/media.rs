use vstd::prelude::*;

verus! {

/// The closed set of media kinds a content snapshot can carry.
/// `Nothing` stands for "nothing currently playing" and always
/// short-circuits publication.
#[derive(Clone, Copy, Debug, PartialEq, Eq, Structural)]
pub enum MediaTypeTag {
    Movie,
    Episode,
    LiveTv,
    Music,
    Book,
    AudioBook,
    Nothing,
}

/// A name/url pair: a configured button slot or an external-service
/// link carried by a content snapshot.
#[derive(Clone, Debug, PartialEq)]
pub struct ButtonSpec {
    pub name: String,
    pub url: String,
}

/// The currently-playing item's metadata as read from the media server
/// at one poll instant.
#[derive(Clone, Debug, PartialEq)]
pub struct ContentSnapshot {
    pub media_type: MediaTypeTag,
    pub details: String,
    pub state_message: String,
    pub item_id: String,
    pub image_url: String,
    pub end_timestamp: Option<u64>,
    pub external_services: Vec<ButtonSpec>,
}

impl ContentSnapshot {
    /// A snapshot that reports nothing playing; provider errors are
    /// treated as this for the cycle in which they occur.
    pub fn idle() -> (s: Self)
        ensures
            s.media_type == MediaTypeTag::Nothing,
            s.details@ == Seq::<char>::empty(),
            s.state_message@ == Seq::<char>::empty(),
            s.item_id@ == Seq::<char>::empty(),
            s.image_url@ == Seq::<char>::empty(),
            s.end_timestamp is None,
            s.external_services@ == Seq::<ButtonSpec>::empty(),
    {
        ContentSnapshot {
            media_type: MediaTypeTag::Nothing,
            details: String::new(),
            state_message: String::new(),
            item_id: String::new(),
            image_url: String::new(),
            end_timestamp: Option::None,
            external_services: Vec::new(),
        }
    }
}

} // verus!
