use vstd::prelude::*;

verus! {

/// Controller-to-worker instructions. The caller delivers them over a
/// non-blocking queue, in send order, and the worker drains at most one
/// per cycle.
#[derive(Clone, Copy, Debug, PartialEq, Eq, Structural)]
pub enum Command {
    Start,
    Stop,
    ReloadConfig,
    NoOp,
}

/// Worker-to-controller reports, emitted in the order generated. A
/// display needs only the latest of each kind.
#[derive(Clone, Debug, PartialEq)]
pub enum Event {
    Status(String),
    Error(String),
}

} // verus!
