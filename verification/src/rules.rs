use vstd::prelude::*;
use crate::media::{ContentSnapshot, MediaTypeTag};

verus! {

/// Exclusion rules: media kinds kept off the presence channel, and
/// library names whose items are kept off it. An empty list means no
/// rule of that kind.
#[derive(Clone, Debug, PartialEq)]
pub struct Blacklist {
    pub media_types: Vec<MediaTypeTag>,
    pub libraries: Vec<String>,
}

/// When a snapshot is publishable: something is playing, its kind is
/// not blacklisted, and the item sits in none of the blacklisted
/// libraries. `memberships[i]` answers whether the item belongs to
/// `blacklist.libraries[i]`; the caller resolves those lookups.
pub open spec fn eligible(
    content: ContentSnapshot,
    blacklist: Blacklist,
    memberships: Seq<bool>,
) -> bool {
    &&& content.media_type != MediaTypeTag::Nothing
    &&& !blacklist.media_types@.contains(content.media_type)
    &&& forall|i: int| 0 <= i < memberships.len() ==> !memberships[i]
}

/// Whether the list names this media kind.
pub fn media_type_blacklisted(media_type: MediaTypeTag, list: &Vec<MediaTypeTag>) -> (r: bool)
    ensures
        r == list@.contains(media_type),
{
    let mut i: usize = 0;
    while i < list.len()
        invariant
            i <= list@.len(),
            forall|j: int| 0 <= j < i ==> list@[j] != media_type,
        decreases list@.len() - i,
    {
        if list[i] == media_type {
            assert(list@.contains(media_type));
            return true;
        }
        i = i + 1;
    }
    false
}

/// The rule evaluator: decides whether `content` may be published under
/// `blacklist`, given the already-resolved library memberships.
pub fn is_eligible(
    content: &ContentSnapshot,
    blacklist: &Blacklist,
    memberships: &Vec<bool>,
) -> (r: bool)
    requires
        memberships@.len() == blacklist.libraries@.len(),
    ensures
        r == eligible(*content, *blacklist, memberships@),
{
    if content.media_type == MediaTypeTag::Nothing {
        return false;
    }
    if media_type_blacklisted(content.media_type, &blacklist.media_types) {
        return false;
    }
    let mut i: usize = 0;
    while i < memberships.len()
        invariant
            i <= memberships@.len(),
            forall|j: int| 0 <= j < i ==> !memberships@[j],
        decreases memberships@.len() - i,
    {
        if memberships[i] {
            return false;
        }
        i = i + 1;
    }
    true
}

/// Nothing playing is never eligible, whatever the blacklist holds.
pub proof fn lemma_none_never_eligible(
    content: ContentSnapshot,
    blacklist: Blacklist,
    memberships: Seq<bool>,
)
    requires
        content.media_type == MediaTypeTag::Nothing,
    ensures
        !eligible(content, blacklist, memberships),
{
}

/// A blacklisted kind is never eligible; with no library rules, any
/// other playing kind is.
pub proof fn lemma_media_type_blacklist_decides(
    content: ContentSnapshot,
    blacklist: Blacklist,
    memberships: Seq<bool>,
)
    ensures
        blacklist.media_types@.contains(content.media_type) ==> !eligible(
            content,
            blacklist,
            memberships,
        ),
        (content.media_type != MediaTypeTag::Nothing && !blacklist.media_types@.contains(
            content.media_type,
        ) && memberships.len() == 0) ==> eligible(content, blacklist, memberships),
{
}

} // verus!
