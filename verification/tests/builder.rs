use jellyfin_presence::activity::{
    apply_image_outcome, build, is_dynamic_slot, resolve_slots, wants_image_upload, Buttons,
};
use jellyfin_presence::channel::Event;
use jellyfin_presence::media::{ButtonSpec, ContentSnapshot, MediaTypeTag};

fn pair(name: &str, url: &str) -> ButtonSpec {
    ButtonSpec { name: name.to_string(), url: url.to_string() }
}

fn dynamic() -> ButtonSpec {
    pair("dynamic", "dynamic")
}

fn content_with_services(services: Vec<ButtonSpec>) -> ContentSnapshot {
    ContentSnapshot {
        media_type: MediaTypeTag::Movie,
        details: "A Film".to_string(),
        state_message: "00:42:00 left".to_string(),
        item_id: "id-1".to_string(),
        image_url: "https://jellyfin.example/a.png".to_string(),
        end_timestamp: Some(1_700_000_123),
        external_services: services,
    }
}

#[test]
fn sentinel_detection() {
    assert!(is_dynamic_slot(&dynamic()));
    assert!(!is_dynamic_slot(&pair("dynamic", "https://x")));
    assert!(!is_dynamic_slot(&pair("Site", "dynamic")));
    assert!(!is_dynamic_slot(&pair("Site", "https://x")));
}

#[test]
fn two_dynamic_slots_take_first_two_services() {
    let content = content_with_services(vec![
        pair("IMDb", "https://imdb.example/1"),
        pair("Trakt", "https://trakt.example/2"),
        pair("TMDb", "https://tmdb.example/3"),
    ]);
    let buttons = Buttons { one: dynamic(), two: dynamic() };
    let payload = build(&content, &buttons, "1.0.0");
    assert_eq!(
        payload.buttons,
        vec![
            pair("IMDb", "https://imdb.example/1"),
            pair("Trakt", "https://trakt.example/2"),
        ]
    );
}

#[test]
fn literal_then_dynamic_keeps_order() {
    let content = content_with_services(vec![pair("IMDb", "https://imdb.example/1")]);
    let buttons = Buttons { one: pair("Site", "https://x"), two: dynamic() };
    let payload = build(&content, &buttons, "1.0.0");
    assert_eq!(
        payload.buttons,
        vec![pair("Site", "https://x"), pair("IMDb", "https://imdb.example/1")]
    );
}

#[test]
fn literal_slots_ignore_services() {
    let content = content_with_services(vec![
        pair("IMDb", "https://imdb.example/1"),
        pair("Trakt", "https://trakt.example/2"),
    ]);
    let one = pair("Site", "https://x");
    let two = pair("Blog", "https://y");
    let buttons = Buttons { one: one.clone(), two: two.clone() };
    let payload = build(&content, &buttons, "1.0.0");
    assert_eq!(payload.buttons, vec![one, two]);
}

#[test]
fn dynamic_slot_without_service_is_dropped() {
    let content = content_with_services(vec![pair("IMDb", "https://imdb.example/1")]);
    let buttons = Buttons { one: dynamic(), two: dynamic() };
    let payload = build(&content, &buttons, "1.0.0");
    assert_eq!(payload.buttons, vec![pair("IMDb", "https://imdb.example/1")]);

    let no_services = content_with_services(vec![]);
    let payload = build(&no_services, &buttons, "1.0.0");
    assert!(payload.buttons.is_empty());
}

#[test]
fn resolve_handles_more_than_two_slots() {
    let slots = vec![dynamic(), pair("Site", "https://x"), dynamic()];
    let services = vec![
        pair("IMDb", "https://imdb.example/1"),
        pair("Trakt", "https://trakt.example/2"),
    ];
    let resolved = resolve_slots(&slots, &services);
    assert_eq!(
        resolved,
        vec![
            pair("IMDb", "https://imdb.example/1"),
            pair("Site", "https://x"),
            pair("Trakt", "https://trakt.example/2"),
        ]
    );
}

#[test]
fn payload_carries_snapshot_fields_and_footer() {
    let content = content_with_services(vec![]);
    let buttons = Buttons { one: dynamic(), two: dynamic() };
    let payload = build(&content, &buttons, "1.2.3");
    assert_eq!(payload.details, "A Film");
    assert_eq!(payload.state_message, "00:42:00 left");
    assert_eq!(payload.end_timestamp, Some(1_700_000_123));
    assert_eq!(payload.image_url, "https://jellyfin.example/a.png");
    assert_eq!(payload.footer, "watching via Jellyfin-RPC v1.2.3");
}

#[test]
fn image_upload_wanted_only_when_enabled_and_not_live_tv() {
    assert!(wants_image_upload(MediaTypeTag::Movie, true));
    assert!(!wants_image_upload(MediaTypeTag::LiveTv, true));
    assert!(!wants_image_upload(MediaTypeTag::Movie, false));
    assert!(!wants_image_upload(MediaTypeTag::LiveTv, false));
}

#[test]
fn image_outcome_success_replaces_url() {
    let content = content_with_services(vec![]);
    let buttons = Buttons { one: dynamic(), two: dynamic() };
    let mut payload = build(&content, &buttons, "1.0.0");
    let event = apply_image_outcome(
        &mut payload,
        Ok("https://imgur.example/up.png".to_string()),
    );
    assert_eq!(payload.image_url, "https://imgur.example/up.png");
    assert_eq!(event, None);
}

#[test]
fn image_outcome_failure_keeps_url_and_reports() {
    let content = content_with_services(vec![]);
    let buttons = Buttons { one: dynamic(), two: dynamic() };
    let mut payload = build(&content, &buttons, "1.0.0");
    let event = apply_image_outcome(&mut payload, Err("upload quota exceeded".to_string()));
    assert_eq!(payload.image_url, "https://jellyfin.example/a.png");
    assert_eq!(
        event,
        Some(Event::Error("upload quota exceeded".to_string()))
    );
}

#[test]
fn update_takes_first_two_buttons() {
    let mut buttons = Buttons { one: dynamic(), two: dynamic() };
    buttons.update(vec![
        pair("Site", "https://x"),
        pair("Blog", "https://y"),
        pair("Extra", "https://z"),
    ]);
    assert_eq!(buttons.one, pair("Site", "https://x"));
    assert_eq!(buttons.two, pair("Blog", "https://y"));
}
