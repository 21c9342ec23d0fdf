use sss::server::Server;
use sss::session::{Listener, Session};
use sss::watch::{Command, EventKind, Fatal, Phase, Signal};
use sss::{serve, Builder};

const KINDS: [EventKind; 5] = [
    EventKind::Access,
    EventKind::Create,
    EventKind::Modify,
    EventKind::Remove,
    EventKind::Other,
];

const PHASES: [Phase; 7] = [
    Phase::Idle,
    Phase::Starting,
    Phase::Registering,
    Phase::Catching,
    Phase::Watching,
    Phase::Rebuilding,
    Phase::Stopped,
];

#[test]
fn access_events_never_cause_a_rebuild() {
    assert!(!EventKind::Access.triggers_rebuild());
    for phase in PHASES {
        let (next, command) = Builder::watch(phase, Signal::Changed(EventKind::Access));
        assert_eq!(next, phase);
        assert_eq!(command, Command::Wait);
    }
}

#[test]
fn every_other_event_causes_a_rebuild() {
    for kind in KINDS {
        if kind == EventKind::Access {
            continue;
        }
        assert!(kind.triggers_rebuild());
        assert_eq!(
            Builder::watch(Phase::Watching, Signal::Changed(kind)),
            (Phase::Rebuilding, Command::Build)
        );
    }
}

#[test]
fn watcher_builds_first_then_registers_then_waits() {
    assert_eq!(Builder::watch(Phase::Idle, Signal::Start), (Phase::Starting, Command::Build));
    assert_eq!(
        Builder::watch(Phase::Starting, Signal::Built { ok: true }),
        (Phase::Registering, Command::Register)
    );
    assert_eq!(
        Builder::watch(Phase::Registering, Signal::Registered { ok: true }),
        (Phase::Watching, Command::Wait)
    );
    assert_eq!(
        Builder::watch(Phase::Rebuilding, Signal::Built { ok: true }),
        (Phase::Watching, Command::Wait)
    );
}

#[test]
fn watcher_gives_up_on_a_failed_build() {
    assert_eq!(
        Builder::watch(Phase::Starting, Signal::Built { ok: false }),
        (Phase::Stopped, Command::Abort(Fatal::BuildFailed))
    );
    assert_eq!(
        Builder::watch(Phase::Rebuilding, Signal::Built { ok: false }),
        (Phase::Stopped, Command::Abort(Fatal::BuildFailed))
    );
}

#[test]
fn watcher_gives_up_on_a_failed_registration() {
    assert_eq!(
        Builder::watch(Phase::Registering, Signal::Registered { ok: false }),
        (Phase::Stopped, Command::Abort(Fatal::WatchSetupError))
    );
}

#[test]
fn watcher_rebuilds_once_for_each_event_of_a_burst() {
    let mut phase = Phase::Watching;
    let mut builds = 0;
    for kind in [EventKind::Modify, EventKind::Access, EventKind::Modify, EventKind::Create] {
        let (next, command) = Builder::watch(phase, Signal::Changed(kind));
        phase = next;
        if command == Command::Build {
            builds += 1;
            let (next, command) = Builder::watch(phase, Signal::Built { ok: true });
            assert_eq!(command, Command::Wait);
            phase = next;
        }
    }
    assert_eq!(builds, 3);
    assert_eq!(phase, Phase::Watching);
}

#[test]
fn watcher_ignores_signals_out_of_turn() {
    assert_eq!(Builder::watch(Phase::Idle, Signal::Built { ok: false }), (Phase::Idle, Command::Wait));
    assert_eq!(
        Builder::watch(Phase::Starting, Signal::Changed(EventKind::Modify)),
        (Phase::Starting, Command::Wait)
    );
    assert_eq!(
        Builder::watch(Phase::Rebuilding, Signal::Changed(EventKind::Modify)),
        (Phase::Rebuilding, Command::Wait)
    );
    assert_eq!(Builder::watch(Phase::Watching, Signal::Start), (Phase::Watching, Command::Wait));
    assert_eq!(Builder::watch(Phase::Watching, Signal::Launched), (Phase::Watching, Command::Wait));
    assert_eq!(
        Builder::watch(Phase::Watching, Signal::Bound { ok: false }),
        (Phase::Watching, Command::Wait)
    );
    for signal in [Signal::Start, Signal::Built { ok: true }, Signal::Changed(EventKind::Remove)] {
        assert_eq!(Builder::watch(Phase::Stopped, signal), (Phase::Stopped, Command::Wait));
    }
}

#[test]
fn server_is_started_once() {
    assert_eq!(Server::start(Listener::Down), (Listener::Binding, Command::Listen));
    assert_eq!(Server::start(Listener::Binding), (Listener::Binding, Command::Wait));
    assert_eq!(Server::start(Listener::Up), (Listener::Up, Command::Wait));
    assert_eq!(Server::start(Listener::Failed), (Listener::Failed, Command::Wait));
}

#[test]
fn serve_starts_the_server_then_the_watcher() {
    let session = Session::new();
    assert_eq!(session, Session { listener: Listener::Down, watcher: Phase::Idle });
    let (session, command) = serve(session, Signal::Start);
    assert_eq!(command, Command::Listen);
    assert_eq!(session, Session { listener: Listener::Binding, watcher: Phase::Idle });
    let (session, command) = serve(session, Signal::Launched);
    assert_eq!(command, Command::Build);
    assert_eq!(session, Session { listener: Listener::Binding, watcher: Phase::Starting });
    let (session, command) = serve(session, Signal::Bound { ok: true });
    assert_eq!(command, Command::Wait);
    assert_eq!(session, Session { listener: Listener::Up, watcher: Phase::Starting });
    let (session, command) = serve(session, Signal::Built { ok: true });
    assert_eq!(command, Command::Register);
    let (session, command) = serve(session, Signal::Registered { ok: true });
    assert_eq!(command, Command::Wait);
    assert_eq!(session, Session { listener: Listener::Up, watcher: Phase::Watching });
    let (session, command) = serve(session, Signal::Changed(EventKind::Access));
    assert_eq!(command, Command::Wait);
    let (session, command) = serve(session, Signal::Changed(EventKind::Modify));
    assert_eq!(command, Command::Build);
    assert_eq!(session, Session { listener: Listener::Up, watcher: Phase::Rebuilding });
}

#[test]
fn serve_gives_up_when_the_listener_cannot_be_bound() {
    let (session, _) = serve(Session::new(), Signal::Start);
    let (session, _) = serve(session, Signal::Launched);
    let (session, command) = serve(session, Signal::Bound { ok: false });
    assert_eq!(command, Command::Abort(Fatal::BindError));
    assert_eq!(session, Session { listener: Listener::Failed, watcher: Phase::Stopped });
    let (session, command) = serve(session, Signal::Built { ok: true });
    assert_eq!(command, Command::Wait);
    assert_eq!(session, Session { listener: Listener::Failed, watcher: Phase::Stopped });
}

#[test]
fn serve_gives_up_on_a_failed_build() {
    let (session, _) = serve(Session::new(), Signal::Start);
    let (session, _) = serve(session, Signal::Launched);
    let (session, command) = serve(session, Signal::Built { ok: false });
    assert_eq!(command, Command::Abort(Fatal::BuildFailed));
    assert_eq!(session.watcher, Phase::Stopped);
}

#[test]
fn serve_leaves_the_watcher_alone_before_the_server_is_started() {
    let session = Session::new();
    for signal in [
        Signal::Launched,
        Signal::Bound { ok: false },
        Signal::Built { ok: false },
        Signal::Registered { ok: false },
        Signal::Changed(EventKind::Modify),
    ] {
        assert_eq!(serve(session, signal), (session, Command::Wait));
    }
}

#[test]
fn event_during_registration_causes_a_rebuild() {
    for kind in KINDS {
        let expected = if kind == EventKind::Access {
            (Phase::Registering, Command::Wait)
        } else {
            (Phase::Catching, Command::Build)
        };
        assert_eq!(Builder::watch(Phase::Registering, Signal::Changed(kind)), expected);
    }
    assert_eq!(
        Builder::watch(Phase::Catching, Signal::Built { ok: true }),
        (Phase::Registering, Command::Wait)
    );
    assert_eq!(
        Builder::watch(Phase::Catching, Signal::Registered { ok: true }),
        (Phase::Rebuilding, Command::Wait)
    );
    assert_eq!(
        Builder::watch(Phase::Catching, Signal::Built { ok: false }),
        (Phase::Stopped, Command::Abort(Fatal::BuildFailed))
    );
    assert_eq!(
        Builder::watch(Phase::Catching, Signal::Registered { ok: false }),
        (Phase::Stopped, Command::Abort(Fatal::WatchSetupError))
    );
}

#[test]
fn registration_and_an_early_rebuild_end_in_either_order() {
    let (phase, _) = Builder::watch(Phase::Registering, Signal::Changed(EventKind::Create));
    let (phase, _) = Builder::watch(phase, Signal::Registered { ok: true });
    assert_eq!(Builder::watch(phase, Signal::Built { ok: true }), (Phase::Watching, Command::Wait));
    let (phase, _) = Builder::watch(Phase::Registering, Signal::Changed(EventKind::Create));
    let (phase, _) = Builder::watch(phase, Signal::Built { ok: true });
    assert_eq!(
        Builder::watch(phase, Signal::Registered { ok: true }),
        (Phase::Watching, Command::Wait)
    );
}
