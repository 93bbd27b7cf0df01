//! The daemon's life as a state machine. The daemon is always about to do
//! one thing, its pending step; what came of that step decides the next.
//! The caller does each step and reports the event.

use vstd::prelude::*;

verus! {

/// The stage of the daemon's life.
#[derive(Clone, Copy, Debug, PartialEq, Eq, Structural)]
pub enum Phase {
    Init,
    SingletonCheck,
    Bound,
    Serving,
    ShuttingDown,
    Terminated,
}

/// What the daemon does next.
#[derive(Clone, Copy, Debug, PartialEq, Eq, Structural)]
pub enum Step {
    /// See whether anything is at the socket path.
    LookAtPath,
    /// Try to connect to the socket that is there.
    Probe,
    /// Remove the socket file that nobody listens on.
    RemoveStale,
    /// Create the listening socket and bind it to the path.
    Bind,
    /// Have the shutdown signals set the shutdown flag.
    RegisterSignals,
    /// Read the shutdown flag and, unless it is set, accept one connection.
    Accept,
    /// Serve the accepted connection from request to response.
    Handle,
    /// Pause before the next accept.
    Wait,
    /// Remove the daemon's own socket file.
    RemoveSocket,
    /// Leave with this exit status.
    Exit(u8),
}

/// What came of the pending step.
#[derive(Clone, Copy, Debug, PartialEq, Eq, Structural)]
pub enum Event {
    /// Nothing is at the socket path.
    PathFree,
    /// A file is at the socket path.
    PathTaken,
    /// A live instance took the probe's connection.
    ProbeAnswered,
    /// Nobody took the probe's connection.
    ProbeRefused,
    /// The step was done.
    Done,
    /// The step failed.
    Failed,
    /// The shutdown flag was set.
    ShutdownSeen,
    /// A connection was accepted.
    Accepted,
    /// Accepting failed because the address is in use.
    AddressInUse,
    /// Accepting would have blocked.
    WouldBlock,
}

/// The exit status of a clean end.
pub const EXIT_CLEAN: u8 = 0;

/// The exit status of a failed start.
pub const EXIT_FAILED: u8 = 1;

/// The stage that a pending step belongs to.
pub open spec fn phase_of(step: Step) -> Phase {
    match step {
        Step::LookAtPath => Phase::Init,
        Step::Probe | Step::RemoveStale => Phase::SingletonCheck,
        Step::Bind | Step::RegisterSignals => Phase::Bound,
        Step::Accept | Step::Handle | Step::Wait => Phase::Serving,
        Step::RemoveSocket => Phase::ShuttingDown,
        Step::Exit(_) => Phase::Terminated,
    }
}

/// The step that follows `pending` when `event` came of it. An event that
/// cannot come of the pending step leaves it pending.
pub open spec fn next(pending: Step, event: Event) -> Step {
    match (pending, event) {
        (Step::LookAtPath, Event::PathFree) => Step::Bind,
        (Step::LookAtPath, Event::PathTaken) => Step::Probe,
        (Step::Probe, Event::ProbeAnswered) => Step::Exit(EXIT_CLEAN),
        (Step::Probe, Event::ProbeRefused) => Step::RemoveStale,
        (Step::RemoveStale, Event::Done) => Step::Bind,
        (Step::RemoveStale, Event::Failed) => Step::Exit(EXIT_FAILED),
        (Step::Bind, Event::Done) => Step::RegisterSignals,
        (Step::Bind, Event::Failed) => Step::Exit(EXIT_FAILED),
        (Step::RegisterSignals, Event::Done) => Step::Accept,
        (Step::RegisterSignals, Event::Failed) => Step::Exit(EXIT_FAILED),
        (Step::Accept, Event::ShutdownSeen) => Step::RemoveSocket,
        (Step::Accept, Event::Accepted) => Step::Handle,
        (Step::Accept, Event::AddressInUse) => Step::Exit(EXIT_CLEAN),
        (Step::Accept, Event::WouldBlock) => Step::Wait,
        (Step::Accept, Event::Failed) => Step::RemoveSocket,
        (Step::Handle, Event::Done) => Step::Accept,
        (Step::Handle, Event::Failed) => Step::Accept,
        (Step::Wait, Event::Done) => Step::Accept,
        (Step::RemoveSocket, Event::Done) => Step::Exit(EXIT_CLEAN),
        (Step::RemoveSocket, Event::Failed) => Step::Exit(EXIT_CLEAN),
        _ => pending,
    }
}

/// The first step of a daemon.
pub fn start() -> (step: Step)
    ensures
        step == Step::LookAtPath,
        phase_of(step) == Phase::Init,
{
    Step::LookAtPath
}

/// The stage that a pending step belongs to.
pub fn phase(step: Step) -> (p: Phase)
    ensures
        p == phase_of(step),
{
    match step {
        Step::LookAtPath => Phase::Init,
        Step::Probe => Phase::SingletonCheck,
        Step::RemoveStale => Phase::SingletonCheck,
        Step::Bind => Phase::Bound,
        Step::RegisterSignals => Phase::Bound,
        Step::Accept => Phase::Serving,
        Step::Handle => Phase::Serving,
        Step::Wait => Phase::Serving,
        Step::RemoveSocket => Phase::ShuttingDown,
        Step::Exit(_) => Phase::Terminated,
    }
}

/// Decides the daemon's next step from the pending one and what came of it.
pub fn step(pending: Step, event: Event) -> (r: Step)
    ensures
        r == next(pending, event),
{
    match pending {
        Step::LookAtPath => match event {
            Event::PathFree => Step::Bind,
            Event::PathTaken => Step::Probe,
            _ => pending,
        },
        Step::Probe => match event {
            Event::ProbeAnswered => Step::Exit(EXIT_CLEAN),
            Event::ProbeRefused => Step::RemoveStale,
            _ => pending,
        },
        Step::RemoveStale => match event {
            Event::Done => Step::Bind,
            Event::Failed => Step::Exit(EXIT_FAILED),
            _ => pending,
        },
        Step::Bind => match event {
            Event::Done => Step::RegisterSignals,
            Event::Failed => Step::Exit(EXIT_FAILED),
            _ => pending,
        },
        Step::RegisterSignals => match event {
            Event::Done => Step::Accept,
            Event::Failed => Step::Exit(EXIT_FAILED),
            _ => pending,
        },
        Step::Accept => match event {
            Event::ShutdownSeen => Step::RemoveSocket,
            Event::Accepted => Step::Handle,
            Event::AddressInUse => Step::Exit(EXIT_CLEAN),
            Event::WouldBlock => Step::Wait,
            Event::Failed => Step::RemoveSocket,
            _ => pending,
        },
        Step::Handle => match event {
            Event::Done => Step::Accept,
            Event::Failed => Step::Accept,
            _ => pending,
        },
        Step::Wait => match event {
            Event::Done => Step::Accept,
            _ => pending,
        },
        Step::RemoveSocket => match event {
            Event::Done => Step::Exit(EXIT_CLEAN),
            Event::Failed => Step::Exit(EXIT_CLEAN),
            _ => pending,
        },
        Step::Exit(_) => pending,
    }
}

/// How far a stage is along the daemon's life.
pub open spec fn rank(p: Phase) -> nat {
    match p {
        Phase::Init => 0,
        Phase::SingletonCheck => 1,
        Phase::Bound => 2,
        Phase::Serving => 3,
        Phase::ShuttingDown => 4,
        Phase::Terminated => 5,
    }
}

/// A second daemon that finds a live one leaves at once with status 0: no
/// step lies between the answered probe and the exit, so the socket file of
/// the live daemon is not removed.
pub proof fn second_instance_yields()
    ensures
        next(Step::LookAtPath, Event::PathTaken) == Step::Probe,
        next(Step::Probe, Event::ProbeAnswered) == Step::Exit(EXIT_CLEAN),
{
}

/// The daemon never goes back to an earlier stage, and once it has
/// terminated it stays so, with the same exit status.
pub proof fn life_goes_forward(pending: Step, event: Event)
    ensures
        rank(phase_of(pending)) <= rank(phase_of(next(pending, event))),
        phase_of(pending) == Phase::Terminated ==> next(pending, event) == pending,
{
}

/// Only a failed start ends the daemon with a status other than 0: a daemon
/// that serves ends cleanly, whatever happens to its connections.
pub proof fn only_a_failed_start_is_fatal(pending: Step, event: Event)
    requires
        !(pending is Exit),
        next(pending, event) is Exit,
    ensures
        next(pending, event) == Step::Exit(EXIT_FAILED) <==> event == Event::Failed && (phase_of(
            pending,
        ) == Phase::SingletonCheck || phase_of(pending) == Phase::Bound),
        next(pending, event) != Step::Exit(EXIT_FAILED) ==> next(pending, event) == Step::Exit(
            EXIT_CLEAN,
        ),
{
}

/// The socket file is removed before every exit from serving but the one
/// that yields to another instance.
pub proof fn serving_ends_by_cleanup(pending: Step, event: Event)
    requires
        phase_of(pending) == Phase::Serving,
        phase_of(next(pending, event)) != Phase::Serving,
    ensures
        next(pending, event) == Step::RemoveSocket || (event == Event::AddressInUse && next(
            pending,
            event,
        ) == Step::Exit(EXIT_CLEAN)),
{
}

} // verus!
