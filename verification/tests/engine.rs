use jellyfin_presence::channel::{Command, Event};
use jellyfin_presence::config::{startup_error, Config};
use jellyfin_presence::media::{ButtonSpec, ContentSnapshot, MediaTypeTag};
use jellyfin_presence::rules::{is_eligible, Blacklist};
use jellyfin_presence::worker::{
    apply_command, backoff_delay_ms, cycle_step, snapshot_or_idle, CycleAction, WorkerState,
};

fn content(media_type: MediaTypeTag) -> ContentSnapshot {
    ContentSnapshot {
        media_type,
        details: "Some Movie".to_string(),
        state_message: "01:02:03 left".to_string(),
        item_id: "abc123".to_string(),
        image_url: "https://jellyfin.example/item.png".to_string(),
        end_timestamp: Some(1_700_000_000),
        external_services: vec![],
    }
}

fn blacklist(media_types: Vec<MediaTypeTag>) -> Blacklist {
    Blacklist { media_types, libraries: vec![] }
}

#[test]
fn nothing_playing_never_eligible() {
    let empty = blacklist(vec![]);
    let full = blacklist(vec![
        MediaTypeTag::Movie,
        MediaTypeTag::Episode,
        MediaTypeTag::Nothing,
    ]);
    assert!(!is_eligible(&content(MediaTypeTag::Nothing), &empty, &vec![]));
    assert!(!is_eligible(&content(MediaTypeTag::Nothing), &full, &vec![]));
}

#[test]
fn blacklisted_type_rejected_other_allowed() {
    let bl = blacklist(vec![MediaTypeTag::Music, MediaTypeTag::Book]);
    assert!(!is_eligible(&content(MediaTypeTag::Music), &bl, &vec![]));
    assert!(!is_eligible(&content(MediaTypeTag::Book), &bl, &vec![]));
    assert!(is_eligible(&content(MediaTypeTag::Movie), &bl, &vec![]));
    assert!(is_eligible(&content(MediaTypeTag::Episode), &bl, &vec![]));
}

#[test]
fn empty_blacklist_allows_everything_but_nothing() {
    let bl = blacklist(vec![]);
    assert!(is_eligible(&content(MediaTypeTag::LiveTv), &bl, &vec![]));
    assert!(!is_eligible(&content(MediaTypeTag::Nothing), &bl, &vec![]));
}

#[test]
fn library_membership_blocks() {
    let bl = Blacklist {
        media_types: vec![],
        libraries: vec!["Anime".to_string(), "Kids".to_string()],
    };
    assert!(!is_eligible(&content(MediaTypeTag::Movie), &bl, &vec![false, true]));
    assert!(is_eligible(&content(MediaTypeTag::Movie), &bl, &vec![false, false]));
}

#[test]
fn republish_does_not_double_transition() {
    let mut state = WorkerState::new();
    let snap = content(MediaTypeTag::Movie);

    let (action, events) = cycle_step(&mut state, &snap, true);
    assert_eq!(action, CycleAction::Publish);
    assert!(state.connected);
    assert_eq!(
        events,
        vec![Event::Status("Some Movie\n01:02:03 left".to_string())]
    );

    let (action, events) = cycle_step(&mut state, &snap, true);
    assert_eq!(action, CycleAction::Publish);
    assert!(state.connected);
    assert!(events.is_empty());
}

#[test]
fn ineligible_clears_with_listening_status() {
    let mut state = WorkerState::new();
    let snap = content(MediaTypeTag::Movie);
    cycle_step(&mut state, &snap, true);
    assert!(state.connected);

    let (action, events) = cycle_step(&mut state, &content(MediaTypeTag::Nothing), false);
    assert_eq!(action, CycleAction::Clear);
    assert!(!state.connected);
    assert_eq!(events, vec![Event::Status("Listening…".to_string())]);

    let (action, events) = cycle_step(&mut state, &content(MediaTypeTag::Nothing), false);
    assert_eq!(action, CycleAction::Idle);
    assert!(events.is_empty());
}

#[test]
fn stop_while_connected_clears_silently() {
    let mut state = WorkerState::new();
    let mut config = Config::default();
    let snap = content(MediaTypeTag::Movie);
    cycle_step(&mut state, &snap, true);
    assert!(state.connected);

    let events = apply_command(&mut state, &mut config, Command::Stop, None);
    assert_eq!(events, vec![Event::Status("Stopped".to_string())]);
    assert!(!state.enabled);
    assert!(state.connected);

    // Content remains eligible, but the paused worker tears down
    // silently: no "Listening…" status.
    let (action, events) = cycle_step(&mut state, &snap, true);
    assert_eq!(action, CycleAction::Clear);
    assert!(!state.connected);
    assert!(events.is_empty());

    // And nothing publishes until a start.
    let (action, events) = cycle_step(&mut state, &snap, true);
    assert_eq!(action, CycleAction::Idle);
    assert!(events.is_empty());

    let events = apply_command(&mut state, &mut config, Command::Start, None);
    assert_eq!(events, vec![Event::Status("Listening…".to_string())]);
    let (action, _) = cycle_step(&mut state, &snap, true);
    assert_eq!(action, CycleAction::Publish);
}

#[test]
fn reload_failure_keeps_config() {
    let mut state = WorkerState::new();
    let mut config = Config::default();
    config.url = "http://jellyfin.local".to_string();
    let before = config.clone();

    let events = apply_command(
        &mut state,
        &mut config,
        Command::ReloadConfig,
        Some(Err("config file is not valid json".to_string())),
    );
    assert_eq!(
        events,
        vec![Event::Error("config file is not valid json".to_string())]
    );
    assert_eq!(config, before);
    assert!(state.enabled);
    assert!(!state.connected);
}

#[test]
fn reload_success_replaces_config_and_clears_error() {
    let mut state = WorkerState::new();
    let mut config = Config::default();
    let mut loaded = Config::default();
    loaded.url = "http://other.local".to_string();

    let events = apply_command(
        &mut state,
        &mut config,
        Command::ReloadConfig,
        Some(Ok(loaded.clone())),
    );
    assert_eq!(
        events,
        vec![
            Event::Status("Config reloaded!".to_string()),
            Event::Error("None".to_string()),
        ]
    );
    assert_eq!(config, loaded);
}

#[test]
fn noop_command_does_nothing() {
    let mut state = WorkerState::new();
    let mut config = Config::default();
    let events = apply_command(&mut state, &mut config, Command::NoOp, None);
    assert!(events.is_empty());
    assert!(state.enabled);
    assert!(!state.connected);
}

#[test]
fn provider_error_reads_as_nothing_playing() {
    let snap = snapshot_or_idle(Err("connection refused".to_string()));
    assert_eq!(snap.media_type, MediaTypeTag::Nothing);
    let snap = snapshot_or_idle(Ok(content(MediaTypeTag::Music)));
    assert_eq!(snap.media_type, MediaTypeTag::Music);
}

#[test]
fn backoff_doubles_from_a_second_and_caps_at_a_minute() {
    assert_eq!(backoff_delay_ms(0), 1000);
    assert_eq!(backoff_delay_ms(1), 2000);
    assert_eq!(backoff_delay_ms(2), 4000);
    assert_eq!(backoff_delay_ms(3), 8000);
    assert_eq!(backoff_delay_ms(4), 16000);
    assert_eq!(backoff_delay_ms(5), 32000);
    assert_eq!(backoff_delay_ms(6), 60000);
    assert_eq!(backoff_delay_ms(40), 60000);
}

#[test]
fn startup_errors_in_order() {
    let mut config = Config::default();
    assert_eq!(
        startup_error(&config),
        Some(Event::Error("Jellyfin API key not set".to_string()))
    );

    config.api_key = "aaaabbbbcccc".to_string();
    assert_eq!(
        startup_error(&config),
        Some(Event::Error("Jellyfin URL not set".to_string()))
    );

    config.url = "http://jellyfin.local".to_string();
    assert_eq!(
        startup_error(&config),
        Some(Event::Error("Jellyfin Username not set".to_string()))
    );

    config.usernames = vec!["alice".to_string()];
    assert_eq!(startup_error(&config), None);
}

fn service(name: &str, url: &str) -> ButtonSpec {
    ButtonSpec { name: name.to_string(), url: url.to_string() }
}

#[test]
fn eligible_content_with_services_round_trip() {
    // An end-to-end slice of one cycle: poll outcome, rule check,
    // publish decision.
    let mut snap = content(MediaTypeTag::Episode);
    snap.external_services = vec![service("IMDb", "https://imdb.example/tt1")];
    let bl = blacklist(vec![MediaTypeTag::Music]);
    let eligible = is_eligible(&snap, &bl, &vec![]);
    assert!(eligible);

    let mut state = WorkerState::new();
    let (action, events) = cycle_step(&mut state, &snap, eligible);
    assert_eq!(action, CycleAction::Publish);
    assert_eq!(
        events,
        vec![Event::Status("Some Movie\n01:02:03 left".to_string())]
    );
}
