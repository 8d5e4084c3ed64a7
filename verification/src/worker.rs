use vstd::prelude::*;
use vstd::string::StringExecFns;
use crate::channel::{Command, Event};
use crate::config::Config;
use crate::media::{ContentSnapshot, MediaTypeTag};

verus! {

/// The synchronization loop's private state: `enabled` is cleared while
/// the user has paused publication; `connected` holds exactly when a
/// payload is live on the presence channel.
#[derive(Clone, Copy, Debug, PartialEq, Eq, Structural)]
pub struct WorkerState {
    pub enabled: bool,
    pub connected: bool,
}

impl WorkerState {
    /// The state a loop starts in: publishing allowed, nothing live.
    pub fn new() -> (s: WorkerState)
        ensures
            s.enabled,
            !s.connected,
    {
        WorkerState { enabled: true, connected: false }
    }
}

/// The worker state a command leaves behind: `Start` and `Stop` flip
/// `enabled`; no command touches `connected`.
pub open spec fn command_state(s: WorkerState, cmd: Command) -> WorkerState {
    match cmd {
        Command::Start => WorkerState { enabled: true, connected: s.connected },
        Command::Stop => WorkerState { enabled: false, connected: s.connected },
        Command::ReloadConfig => s,
        Command::NoOp => s,
    }
}

/// The config a command leaves behind: only a successful reload
/// replaces it.
pub open spec fn command_config(
    c: Config,
    cmd: Command,
    reload: Option<Result<Config, String>>,
) -> Config {
    match (cmd, reload) {
        (Command::ReloadConfig, Some(Ok(loaded))) => loaded,
        _ => c,
    }
}

/// Exactly the events a command's application emits.
pub open spec fn command_events_ok(
    cmd: Command,
    reload: Option<Result<Config, String>>,
    evs: Seq<Event>,
) -> bool {
    match cmd {
        Command::Start => evs.len() == 1 && (evs[0] matches Event::Status(m) && m@
            == "Listening…"@),
        Command::Stop => evs.len() == 1 && (evs[0] matches Event::Status(m) && m@
            == "Stopped"@),
        Command::ReloadConfig => match reload {
            Some(Ok(_)) => evs.len() == 2 && (evs[0] matches Event::Status(m) && m@
                == "Config reloaded!"@) && (evs[1] matches Event::Error(e) && e@ == "None"@),
            Some(Err(why)) => evs.len() == 1 && evs[0] == Event::Error(why),
            None => evs.len() == 0,
        },
        Command::NoOp => evs.len() == 0,
    }
}

/// Applies one drained command. `Stop` pauses publication and reports
/// it; `Start` resumes and reports listening; a reload outcome — the
/// caller performs the file I/O and hands it in whenever the command
/// asks for one — replaces the config on success and reports the
/// failure otherwise, keeping the previous config. A successful reload
/// also clears the displayed error with the sentinel "None".
pub fn apply_command(
    state: &mut WorkerState,
    config: &mut Config,
    cmd: Command,
    reload: Option<Result<Config, String>>,
) -> (evs: Vec<Event>)
    requires
        cmd is ReloadConfig <==> reload is Some,
    ensures
        *final(state) == command_state(*old(state), cmd),
        *final(config) == command_config(*old(config), cmd, reload),
        command_events_ok(cmd, reload, evs@),
{
    let mut evs: Vec<Event> = Vec::new();
    match cmd {
        Command::Start => {
            state.enabled = true;
            evs.push(Event::Status(String::from_str("Listening…")));
        },
        Command::Stop => {
            state.enabled = false;
            evs.push(Event::Status(String::from_str("Stopped")));
        },
        Command::ReloadConfig => {
            match reload {
                Option::Some(Ok(loaded)) => {
                    *config = loaded;
                    evs.push(Event::Status(String::from_str("Config reloaded!")));
                    evs.push(Event::Error(String::from_str("None")));
                },
                Option::Some(Err(why)) => {
                    evs.push(Event::Error(why));
                },
                Option::None => {
                    proof {
                        assert(false);
                    }
                },
            }
        },
        Command::NoOp => {},
    }
    evs
}

/// What one cycle asks of the presence publisher.
#[derive(Clone, Copy, Debug, PartialEq, Eq, Structural)]
pub enum CycleAction {
    Idle,
    Publish,
    Clear,
}

/// The worker state after one cycle with the given eligibility. A
/// paused worker always ends disconnected (its payload is torn down);
/// an enabled one is connected exactly while content is eligible.
pub open spec fn step_state(s: WorkerState, eligible: bool) -> WorkerState {
    if !s.enabled {
        WorkerState { enabled: false, connected: false }
    } else if eligible {
        WorkerState { enabled: true, connected: true }
    } else {
        WorkerState { enabled: true, connected: false }
    }
}

/// The publisher action of one cycle: publish on every eligible enabled
/// cycle (a re-publish keeps the channel's countdown fresh), clear on
/// the connected-to-ineligible edge and when a paused worker still has
/// a payload live, nothing otherwise.
pub open spec fn step_action(s: WorkerState, eligible: bool) -> CycleAction {
    if !s.enabled {
        if s.connected {
            CycleAction::Clear
        } else {
            CycleAction::Idle
        }
    } else if eligible {
        CycleAction::Publish
    } else if s.connected {
        CycleAction::Clear
    } else {
        CycleAction::Idle
    }
}

/// Exactly the events one cycle emits: the snapshot's two display lines
/// when a payload first goes live, a listening status when an enabled
/// worker clears; nothing otherwise — a paused worker clears silently,
/// and a re-publish repeats no status.
pub open spec fn step_events_ok(
    s: WorkerState,
    eligible: bool,
    content: ContentSnapshot,
    evs: Seq<Event>,
) -> bool {
    if s.enabled && eligible && !s.connected {
        evs.len() == 1 && (evs[0] matches Event::Status(m) && m@ == content.details@ + "\n"@
            + content.state_message@)
    } else if s.enabled && !eligible && s.connected {
        evs.len() == 1 && (evs[0] matches Event::Status(m) && m@ == "Listening…"@)
    } else {
        evs.len() == 0
    }
}

/// One cycle of the synchronization loop, after the command was
/// applied and eligibility evaluated. The caller carries out the
/// returned action — publish a freshly built payload, or clear — and
/// forwards the events. While the worker is paused the caller must not
/// have polled; it passes `eligible == false` and an idle snapshot.
pub fn cycle_step(state: &mut WorkerState, content: &ContentSnapshot, eligible: bool) -> (r: (
    CycleAction,
    Vec<Event>,
))
    ensures
        *final(state) == step_state(*old(state), eligible),
        r.0 == step_action(*old(state), eligible),
        step_events_ok(*old(state), eligible, *content, r.1@),
{
    let mut evs: Vec<Event> = Vec::new();
    if !state.enabled {
        let was_connected = state.connected;
        state.connected = false;
        if was_connected {
            (CycleAction::Clear, evs)
        } else {
            (CycleAction::Idle, evs)
        }
    } else if eligible {
        if !state.connected {
            let text = content.details.clone().concat("\n").concat(
                content.state_message.as_str(),
            );
            evs.push(Event::Status(text));
        }
        state.connected = true;
        (CycleAction::Publish, evs)
    } else if state.connected {
        state.connected = false;
        evs.push(Event::Status(String::from_str("Listening…")));
        (CycleAction::Clear, evs)
    } else {
        (CycleAction::Idle, evs)
    }
}

/// The provider's outcome for one poll: an error is treated as nothing
/// playing for that cycle.
pub fn snapshot_or_idle(outcome: Result<ContentSnapshot, String>) -> (s: ContentSnapshot)
    ensures
        outcome matches Ok(c) ==> s == c,
        outcome is Err ==> s.media_type == MediaTypeTag::Nothing,
{
    match outcome {
        Ok(c) => c,
        Err(_) => ContentSnapshot::idle(),
    }
}

/// Delay before the n-th reconnect attempt of the publish retry loop:
/// doubling from one second, capped at a minute.
pub open spec fn backoff_delay_spec(attempt: nat) -> nat
    decreases attempt,
{
    if attempt == 0 {
        1000
    } else if attempt >= 6 {
        60000
    } else {
        2 * backoff_delay_spec((attempt - 1) as nat)
    }
}

/// The delay, in milliseconds, before the n-th reconnect attempt.
pub fn backoff_delay_ms(attempt: u32) -> (r: u64)
    ensures
        r == backoff_delay_spec(attempt as nat),
{
    proof {
        reveal_with_fuel(backoff_delay_spec, 7);
    }
    match attempt {
        0 => 1000,
        1 => 2000,
        2 => 4000,
        3 => 8000,
        4 => 16000,
        5 => 32000,
        _ => 60000,
    }
}

/// Two consecutive cycles with an unchanged eligible snapshot both ask
/// for a publish, but the connection transition happens only once: the
/// second cycle leaves the state as it found it and repeats no status.
pub proof fn lemma_republish_single_transition(
    s: WorkerState,
    content: ContentSnapshot,
    second_evs: Seq<Event>,
)
    requires
        s.enabled,
    ensures
        (step_action(s, true) is Publish),
        step_state(s, true).connected,
        step_state(step_state(s, true), true) == step_state(s, true),
        (step_action(step_state(s, true), true) is Publish),
        step_events_ok(step_state(s, true), true, content, second_evs) ==> second_evs.len()
            == 0,
{
}

/// Stop while connected and still eligible: the stop itself reports
/// "Stopped"; the next cycle clears and disconnects without emitting a
/// listening status; no later cycle publishes until a start.
pub proof fn lemma_stop_clears_silently(
    s: WorkerState,
    content: ContentSnapshot,
    stop_evs: Seq<Event>,
    cycle_evs: Seq<Event>,
    eligible_later: bool,
)
    requires
        s.enabled,
        s.connected,
    ensures
        command_state(s, Command::Stop) == (WorkerState { enabled: false, connected: true }),
        command_events_ok(Command::Stop, None, stop_evs) ==> stop_evs.len() == 1 && (
        stop_evs[0] matches Event::Status(m) && m@ == "Stopped"@),
        (step_action(command_state(s, Command::Stop), true) is Clear),
        !step_state(command_state(s, Command::Stop), true).connected,
        step_events_ok(command_state(s, Command::Stop), true, content, cycle_evs)
            ==> cycle_evs.len() == 0,
        (step_action(step_state(command_state(s, Command::Stop), true), eligible_later)
            is Idle),
{
}

/// A failed reload keeps the config, reports exactly the failure, and
/// leaves the worker state untouched: the loop polls on with the old
/// config next cycle.
pub proof fn lemma_reload_failure_keeps_config(
    s: WorkerState,
    c: Config,
    why: String,
    evs: Seq<Event>,
)
    ensures
        command_state(s, Command::ReloadConfig) == s,
        command_config(c, Command::ReloadConfig, Some(Err(why))) == c,
        command_events_ok(Command::ReloadConfig, Some(Err(why)), evs) ==> evs.len() == 1
            && evs[0] == Event::Error(why),
{
}

} // verus!
