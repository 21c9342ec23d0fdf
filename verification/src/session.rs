//! Serve mode: the server on a worker of its own, and the watcher beside it.

use crate::server::start_step;
use crate::watch::{watch_step, Command, Fatal, Phase, Signal};
use vstd::prelude::*;

verus! {

/// Where the server's listener stands.
#[derive(Clone, Copy, Debug, PartialEq, Eq, Structural)]
pub enum Listener {
    /// The server has not been started.
    Down,
    /// The server's worker is starting and has not reported on its listener.
    Binding,
    /// The listener is bound.
    Up,
    /// The listener could not be bound.
    Failed,
}

/// Where serve mode stands.
#[derive(Clone, Copy, Debug, PartialEq, Eq, Structural)]
pub struct Session {
    /// The server's listener.
    pub listener: Listener,
    /// The watcher.
    pub watcher: Phase,
}

/// The step of serve mode. The server is started first and the watcher
/// right after it, without waiting for the listener. A listener that cannot
/// be bound ends the process. The watcher's signals go to the watcher while
/// the server is starting or up. Any other signal changes nothing.
pub open spec fn session_step(session: Session, signal: Signal) -> (Session, Command) {
    match signal {
        Signal::Start => {
            let next = start_step(session.listener);
            (Session { listener: next.0, watcher: session.watcher }, next.1)
        },
        Signal::Launched => if session.listener == Listener::Binding {
            let next = watch_step(session.watcher, Signal::Start);
            (Session { listener: session.listener, watcher: next.0 }, next.1)
        } else {
            (session, Command::Wait)
        },
        Signal::Bound { ok } => if session.listener == Listener::Binding {
            if ok {
                (Session { listener: Listener::Up, watcher: session.watcher }, Command::Wait)
            } else {
                (
                    Session { listener: Listener::Failed, watcher: Phase::Stopped },
                    Command::Abort(Fatal::BindError),
                )
            }
        } else {
            (session, Command::Wait)
        },
        _ => if session.listener == Listener::Binding || session.listener == Listener::Up {
            let next = watch_step(session.watcher, signal);
            (Session { listener: session.listener, watcher: next.0 }, next.1)
        } else {
            (session, Command::Wait)
        },
    }
}

impl Session {
    /// Serve mode before anything has happened.
    pub fn new() -> (session: Session)
        ensures
            session == (Session { listener: Listener::Down, watcher: Phase::Idle }),
    {
        Session { listener: Listener::Down, watcher: Phase::Idle }
    }
}

} // verus!
