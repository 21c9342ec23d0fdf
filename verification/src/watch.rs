//! The watcher's decisions: one build first, then one rebuild for every
//! filesystem event that is more than a read.
//!
//! The host runs a rebuild on the thread that brings the event and brings no
//! further event before the rebuild has ended, so events queue at the host
//! and none is lost while a rebuild runs.

use vstd::prelude::*;

verus! {

/// What a filesystem event reports.
#[derive(Clone, Copy, Debug, PartialEq, Eq, Structural)]
pub enum EventKind {
    /// A file was opened, read or closed.
    Access,
    /// A file or directory came into being.
    Create,
    /// A file or directory changed.
    Modify,
    /// A file or directory went away.
    Remove,
    /// Anything else.
    Other,
}

/// Where the watcher stands.
#[derive(Clone, Copy, Debug, PartialEq, Eq, Structural)]
pub enum Phase {
    /// Nothing has happened yet.
    Idle,
    /// The first build runs.
    Starting,
    /// The watches on the content and template roots are being registered.
    Registering,
    /// A rebuild runs while the watches are still being registered: an event
    /// has come from a watch that stood already.
    Catching,
    /// The watcher waits for filesystem events.
    Watching,
    /// A rebuild runs.
    Rebuilding,
    /// The watcher has given up.
    Stopped,
}

/// What the host reports.
#[derive(Clone, Copy, Debug, PartialEq, Eq, Structural)]
pub enum Signal {
    /// Work is to start.
    Start,
    /// The server's worker has been started.
    Launched,
    /// The server's worker has tried to bind its listener.
    Bound { ok: bool },
    /// The build that was asked for has ended.
    Built { ok: bool },
    /// Registering the watches has ended.
    Registered { ok: bool },
    /// A filesystem event has come in.
    Changed(EventKind),
}

/// Why the process cannot go on.
#[derive(Clone, Copy, Debug, PartialEq, Eq, Structural)]
pub enum Fatal {
    /// A build failed.
    BuildFailed,
    /// A filesystem watch could not be registered.
    WatchSetupError,
    /// The HTTP listener could not be bound.
    BindError,
}

/// What is asked of the host.
#[derive(Clone, Copy, Debug, PartialEq, Eq, Structural)]
pub enum Command {
    /// Start the server on a worker of its own, then signal `Launched`; the
    /// worker signals `Bound` once it has tried to bind.
    Listen,
    /// Build the site, then signal `Built`.
    Build,
    /// Register the recursive watches, then signal `Registered`.
    Register,
    /// Wait for the next signal.
    Wait,
    /// End the process.
    Abort(Fatal),
}

/// Whether an event of this kind causes a rebuild: every kind but a read.
pub open spec fn triggers_rebuild(kind: EventKind) -> bool {
    kind != EventKind::Access
}

/// The watcher's step. A signal that the phase does not wait for changes
/// nothing.
pub open spec fn watch_step(phase: Phase, signal: Signal) -> (Phase, Command) {
    match (phase, signal) {
        (Phase::Idle, Signal::Start) => (Phase::Starting, Command::Build),
        (Phase::Starting, Signal::Built { ok: true }) => (Phase::Registering, Command::Register),
        (Phase::Starting, Signal::Built { ok: false }) => (
            Phase::Stopped,
            Command::Abort(Fatal::BuildFailed),
        ),
        (Phase::Registering, Signal::Registered { ok: true }) => (Phase::Watching, Command::Wait),
        (Phase::Registering, Signal::Registered { ok: false }) => (
            Phase::Stopped,
            Command::Abort(Fatal::WatchSetupError),
        ),
        (Phase::Registering, Signal::Changed(kind)) => if triggers_rebuild(kind) {
            (Phase::Catching, Command::Build)
        } else {
            (Phase::Registering, Command::Wait)
        },
        (Phase::Catching, Signal::Built { ok: true }) => (Phase::Registering, Command::Wait),
        (Phase::Catching, Signal::Built { ok: false }) => (
            Phase::Stopped,
            Command::Abort(Fatal::BuildFailed),
        ),
        (Phase::Catching, Signal::Registered { ok: true }) => (Phase::Rebuilding, Command::Wait),
        (Phase::Catching, Signal::Registered { ok: false }) => (
            Phase::Stopped,
            Command::Abort(Fatal::WatchSetupError),
        ),
        (Phase::Watching, Signal::Changed(kind)) => if triggers_rebuild(kind) {
            (Phase::Rebuilding, Command::Build)
        } else {
            (Phase::Watching, Command::Wait)
        },
        (Phase::Rebuilding, Signal::Built { ok: true }) => (Phase::Watching, Command::Wait),
        (Phase::Rebuilding, Signal::Built { ok: false }) => (
            Phase::Stopped,
            Command::Abort(Fatal::BuildFailed),
        ),
        _ => (phase, Command::Wait),
    }
}

impl EventKind {
    /// Whether an event of this kind causes a rebuild.
    pub fn triggers_rebuild(&self) -> (rebuild: bool)
        ensures
            rebuild == triggers_rebuild(*self),
    {
        match self {
            EventKind::Access => false,
            _ => true,
        }
    }
}

/// Once a watch may stand, an event causes a rebuild unless it is a read,
/// and a read changes nothing: so it is while the watcher waits, and while
/// it still registers its watches.
pub proof fn lemma_only_reads_are_ignored(kind: EventKind)
    ensures
        kind != EventKind::Access ==> watch_step(Phase::Watching, Signal::Changed(kind)) == (
            Phase::Rebuilding,
            Command::Build,
        ),
        kind != EventKind::Access ==> watch_step(Phase::Registering, Signal::Changed(kind)) == (
            Phase::Catching,
            Command::Build,
        ),
        kind == EventKind::Access ==> watch_step(Phase::Watching, Signal::Changed(kind)) == (
            Phase::Watching,
            Command::Wait,
        ),
        kind == EventKind::Access ==> watch_step(Phase::Registering, Signal::Changed(kind)) == (
            Phase::Registering,
            Command::Wait,
        ),
        forall|phase: Phase|
            kind == EventKind::Access ==> watch_step(phase, Signal::Changed(kind)) == (
                phase,
                Command::Wait,
            ),
{
}

} // verus!
