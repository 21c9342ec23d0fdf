//! A static-site build pipeline with its decisions verified: how a content
//! tree maps to an output tree, how front matter is cut out of a Markdown
//! source, which filesystem events cause a rebuild, and how a request path is
//! resolved against the output tree.

pub mod builder;
pub mod engine;
pub mod entry;
pub mod error;
pub mod front_matter;
pub mod markdown;
pub mod metadata;
pub mod path;
pub mod server;
pub mod session;
pub mod text;
pub mod transform;
pub mod watch;

pub use builder::{BuildReport, Builder, OutputFile, Progress, SourceFile, Walk};
pub use error::{BuildError, ErrorKind};
pub use server::Server;

use builder::{failure_kind, is_build_of, is_progress, Answer};
use session::{session_step, Listener, Session};
use vstd::prelude::*;
use watch::{Command, Fatal, Phase, Signal};

verus! {

/// One step of a build: the walk goes on from `walk` with the engine's
/// `answer`, up to the next page for the engine, the first source that
/// fails, or the end.
pub fn build(walk: Walk, answer: Option<Result<String, tera::Error>>) -> (progress: Progress)
    ensures
        is_progress(walk, answer, progress),
        progress matches Progress::Done(report) ==> exists|answers: Seq<Answer>|
            is_build_of(walk.sources(), answers, report.outputs@, failure_kind(report.failure)),
{
    Builder::build(walk, answer)
}

/// One step of serve mode: what to do, and where serve mode stands then,
/// once `signal` has come in `session`.
pub fn serve(session: Session, signal: Signal) -> (next: (Session, Command))
    ensures
        next == session_step(session, signal),
{
    let serving = match session.listener {
        Listener::Binding => true,
        Listener::Up => true,
        _ => false,
    };
    match signal {
        Signal::Start => {
            let (listener, command) = Server::start(session.listener);
            (Session { listener, watcher: session.watcher }, command)
        },
        Signal::Launched => match session.listener {
            Listener::Binding => {
                let (watcher, command) = Builder::watch(session.watcher, Signal::Start);
                (Session { listener: session.listener, watcher }, command)
            },
            _ => (session, Command::Wait),
        },
        Signal::Bound { ok } => match session.listener {
            Listener::Binding => if ok {
                (Session { listener: Listener::Up, watcher: session.watcher }, Command::Wait)
            } else {
                (
                    Session { listener: Listener::Failed, watcher: Phase::Stopped },
                    Command::Abort(Fatal::BindError),
                )
            },
            _ => (session, Command::Wait),
        },
        _ => if serving {
            let (watcher, command) = Builder::watch(session.watcher, signal);
            (Session { listener: session.listener, watcher }, command)
        } else {
            (session, Command::Wait)
        },
    }
}

} // verus!
