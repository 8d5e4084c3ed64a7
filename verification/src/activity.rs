use vstd::prelude::*;
use vstd::string::StringExecFns;
use crate::channel::Event;
use crate::media::{ButtonSpec, ContentSnapshot, MediaTypeTag};

verus! {

/// The two configured button slots, walked in order when a payload is
/// built.
#[derive(Clone, Debug, PartialEq)]
pub struct Buttons {
    pub one: ButtonSpec,
    pub two: ButtonSpec,
}

impl Buttons {
    /// Replaces both slots from a list that holds them in order.
    pub fn update(&mut self, new_buttons: Vec<ButtonSpec>)
        requires
            new_buttons@.len() >= 2,
        ensures
            final(self).one == new_buttons@[0],
            final(self).two == new_buttons@[1],
    {
        let mut rest = new_buttons;
        self.one = rest.remove(0);
        self.two = rest.remove(0);
    }
}

impl ButtonSpec {
    /// A copy of this pair, equal to the original.
    pub fn duplicate(&self) -> (r: ButtonSpec)
        ensures
            r == *self,
    {
        ButtonSpec { name: self.name.clone(), url: self.url.clone() }
    }
}

/// The reserved sentinel pair: such a slot defers its label and link to
/// the next unused external-service entry of the snapshot.
pub open spec fn is_dynamic(b: ButtonSpec) -> bool {
    b.name@ == "dynamic"@ && b.url@ == "dynamic"@
}

/// Whether this slot is the reserved sentinel pair.
pub fn is_dynamic_slot(b: &ButtonSpec) -> (r: bool)
    ensures
        r == is_dynamic(*b),
{
    let sentinel = String::from_str("dynamic");
    b.name == sentinel && b.url == sentinel
}

/// What the built payload's button list holds: slots are walked in
/// order; a dynamic slot consumes the next unused service entry, or is
/// dropped when none is left; a literal slot is kept as it stands and
/// consumes nothing.
pub open spec fn resolve_buttons(
    slots: Seq<ButtonSpec>,
    services: Seq<ButtonSpec>,
    used: int,
) -> Seq<ButtonSpec>
    decreases slots.len(),
{
    if slots.len() == 0 {
        Seq::empty()
    } else if is_dynamic(slots[0]) {
        if 0 <= used < services.len() {
            seq![services[used]] + resolve_buttons(slots.drop_first(), services, used + 1)
        } else {
            resolve_buttons(slots.drop_first(), services, used)
        }
    } else {
        seq![slots[0]] + resolve_buttons(slots.drop_first(), services, used)
    }
}

/// Walks the slots in order against the snapshot's service entries.
pub fn resolve_slots(slots: &Vec<ButtonSpec>, services: &Vec<ButtonSpec>) -> (out: Vec<
    ButtonSpec,
>)
    ensures
        out@ == resolve_buttons(slots@, services@, 0),
{
    let mut out: Vec<ButtonSpec> = Vec::new();
    let mut i: usize = 0;
    let mut used: usize = 0;
    proof {
        assert(slots@.subrange(0, slots@.len() as int) =~= slots@);
        assert(Seq::<ButtonSpec>::empty() + resolve_buttons(slots@, services@, 0)
            =~= resolve_buttons(slots@, services@, 0));
    }
    while i < slots.len()
        invariant
            i <= slots@.len(),
            used <= services@.len(),
            resolve_buttons(slots@, services@, 0) == out@ + resolve_buttons(
                slots@.subrange(i as int, slots@.len() as int),
                services@,
                used as int,
            ),
        decreases slots@.len() - i,
    {
        let ghost rest = slots@.subrange(i as int, slots@.len() as int);
        proof {
            assert(rest[0] == slots@[i as int]);
            assert(rest.drop_first() =~= slots@.subrange(i as int + 1, slots@.len() as int));
        }
        if is_dynamic_slot(&slots[i]) {
            if used < services.len() {
                out.push(services[used].duplicate());
                used = used + 1;
            }
        } else {
            out.push(slots[i].duplicate());
        }
        i = i + 1;
    }
    proof {
        assert(slots@.subrange(slots@.len() as int, slots@.len() as int) =~= Seq::<
            ButtonSpec,
        >::empty());
        assert(out@ + Seq::<ButtonSpec>::empty() =~= out@);
    }
    out
}

/// The presence payload handed to the external channel.
#[derive(Clone, Debug, PartialEq)]
pub struct ActivityPayload {
    pub details: String,
    pub state_message: String,
    pub end_timestamp: Option<u64>,
    pub image_url: String,
    pub footer: String,
    pub buttons: Vec<ButtonSpec>,
}

/// The generated payload footer for a given engine version.
pub open spec fn footer_text(version: Seq<char>) -> Seq<char> {
    "watching via Jellyfin-RPC v"@ + version
}

/// The activity builder: maps a snapshot and the configured button
/// slots into a presence payload.
pub fn build(content: &ContentSnapshot, buttons: &Buttons, version: &str) -> (p: ActivityPayload)
    ensures
        p.details == content.details,
        p.state_message == content.state_message,
        p.end_timestamp == content.end_timestamp,
        p.image_url == content.image_url,
        p.footer@ == footer_text(version@),
        p.buttons@ == resolve_buttons(
            seq![buttons.one, buttons.two],
            content.external_services@,
            0,
        ),
{
    let mut slots: Vec<ButtonSpec> = Vec::new();
    slots.push(buttons.one.duplicate());
    slots.push(buttons.two.duplicate());
    proof {
        assert(slots@ =~= seq![buttons.one, buttons.two]);
    }
    let resolved = resolve_slots(&slots, &content.external_services);
    ActivityPayload {
        details: content.details.clone(),
        state_message: content.state_message.clone(),
        end_timestamp: content.end_timestamp,
        image_url: content.image_url.clone(),
        footer: String::from_str("watching via Jellyfin-RPC v").concat(version),
        buttons: resolved,
    }
}

/// Whether the image-hosting collaborator should be asked to host this
/// snapshot's image: only when images are enabled, and never for live
/// TV, whose thumbnails are not uploaded.
pub fn wants_image_upload(media_type: MediaTypeTag, images_enabled: bool) -> (r: bool)
    ensures
        r == (images_enabled && media_type != MediaTypeTag::LiveTv),
{
    images_enabled && !(media_type == MediaTypeTag::LiveTv)
}

/// Folds the image-hosting outcome into the payload: a resolved url
/// replaces the image url; a failure keeps the original url and is
/// reported without aborting the build.
pub fn apply_image_outcome(payload: &mut ActivityPayload, outcome: Result<String, String>) -> (ev:
    Option<Event>)
    ensures
        final(payload).details == old(payload).details,
        final(payload).state_message == old(payload).state_message,
        final(payload).end_timestamp == old(payload).end_timestamp,
        final(payload).footer == old(payload).footer,
        final(payload).buttons == old(payload).buttons,
        outcome matches Ok(url) ==> final(payload).image_url == url && ev is None,
        outcome matches Err(detail) ==> final(payload).image_url == old(payload).image_url
            && ev == Some(Event::Error(detail)),
{
    match outcome {
        Ok(url) => {
            payload.image_url = url;
            Option::None
        },
        Err(detail) => Option::Some(Event::Error(detail)),
    }
}

proof fn lemma_resolve_empty_slots(services: Seq<ButtonSpec>, used: int)
    ensures
        resolve_buttons(Seq::empty(), services, used) == Seq::<ButtonSpec>::empty(),
{
}

/// Two dynamic slots consume the first two external-service entries, in
/// order.
pub proof fn lemma_dynamic_slots_consume_in_order(
    one: ButtonSpec,
    two: ButtonSpec,
    services: Seq<ButtonSpec>,
)
    requires
        is_dynamic(one),
        is_dynamic(two),
        services.len() >= 2,
    ensures
        resolve_buttons(seq![one, two], services, 0) == seq![services[0], services[1]],
{
    let s = seq![one, two];
    assert(s.drop_first() =~= seq![two]);
    assert(seq![two].drop_first() =~= Seq::<ButtonSpec>::empty());
    lemma_resolve_empty_slots(services, 2);
    assert(resolve_buttons(seq![two], services, 1) =~= seq![services[1]]);
    assert(resolve_buttons(s, services, 0) =~= seq![services[0], services[1]]);
}

/// A literal slot is kept first and consumes nothing; the dynamic slot
/// after it takes the first external-service entry.
pub proof fn lemma_literal_then_dynamic(
    one: ButtonSpec,
    two: ButtonSpec,
    services: Seq<ButtonSpec>,
)
    requires
        !is_dynamic(one),
        is_dynamic(two),
        services.len() >= 1,
    ensures
        resolve_buttons(seq![one, two], services, 0) == seq![one, services[0]],
{
    let s = seq![one, two];
    assert(s.drop_first() =~= seq![two]);
    assert(seq![two].drop_first() =~= Seq::<ButtonSpec>::empty());
    lemma_resolve_empty_slots(services, 1);
    assert(resolve_buttons(seq![two], services, 0) =~= seq![services[0]]);
    assert(resolve_buttons(s, services, 0) =~= seq![one, services[0]]);
}

/// Two literal slots come through exactly as configured, whatever the
/// snapshot's external services hold.
pub proof fn lemma_literal_slots_kept(
    one: ButtonSpec,
    two: ButtonSpec,
    services: Seq<ButtonSpec>,
)
    requires
        !is_dynamic(one),
        !is_dynamic(two),
    ensures
        resolve_buttons(seq![one, two], services, 0) == seq![one, two],
{
    let s = seq![one, two];
    assert(s.drop_first() =~= seq![two]);
    assert(seq![two].drop_first() =~= Seq::<ButtonSpec>::empty());
    lemma_resolve_empty_slots(services, 0);
    assert(resolve_buttons(seq![two], services, 0) =~= seq![two]);
    assert(resolve_buttons(s, services, 0) =~= seq![one, two]);
}

/// A dynamic slot with no external-service entry left is dropped, not
/// replaced by anything.
pub proof fn lemma_dynamic_without_service_dropped(
    one: ButtonSpec,
    two: ButtonSpec,
    services: Seq<ButtonSpec>,
)
    requires
        is_dynamic(one),
        is_dynamic(two),
        services.len() == 0,
    ensures
        resolve_buttons(seq![one, two], services, 0) == Seq::<ButtonSpec>::empty(),
{
    let s = seq![one, two];
    assert(s.drop_first() =~= seq![two]);
    assert(seq![two].drop_first() =~= Seq::<ButtonSpec>::empty());
    lemma_resolve_empty_slots(services, 0);
    assert(resolve_buttons(seq![two], services, 0) =~= Seq::<ButtonSpec>::empty());
}

} // verus!
