//! The server's decisions: which file answers a request path.
//!
//! A request path is tried as it is first. Where no file answers to it, the
//! path with `.html` in place of its extension, or added where it has none,
//! is tried. Where no file answers to that either, the request is not found.
//! A request path that starts at the root or has a segment `..` is not found
//! without a try, so no step names a file outside the output root.

use crate::builder::{is_build_of, transformed, Answer, FileView, OutputFile, SourceFile};
use crate::entry::{
    html_extension, kind_of, lemma_markdown_goes_to_html, output_path, FileKind,
};
use crate::error::ErrorKind;
use crate::path::{
    extension, is_extension_dot, lemma_name_end, lemma_name_end_is,
    lemma_with_extension_stays_inside, replace_extension, stays_inside, stays_inside_of, stem,
    stem_len, trimmed, with_extension,
};
use crate::session::Listener;
use crate::watch::Command;
use vstd::prelude::*;
use vstd::string::StringExecFns;

verus! {

/// Which candidates of a request have been tried and found missing.
#[derive(Clone, Copy, Debug, PartialEq, Eq, Structural)]
pub enum Tried {
    /// None yet.
    Nothing,
    /// The path as it was requested.
    Literal,
    /// The path as it was requested, and the path with `.html`.
    Both,
}

/// What the server does next for a request. Paths are relative to the output
/// root.
#[derive(Clone, Debug)]
pub enum Step {
    /// Hand this path to static file serving, which sets the content type
    /// by the extension and resolves directory indexes and byte ranges.
    Static(String),
    /// Serve the file at this path as HTML.
    Html(String),
    /// Answer `404 Not Found`.
    NotFound,
}

/// A step, as values.
pub enum StepView {
    /// Hand this path to static file serving.
    Static(Seq<char>),
    /// Serve the file at this path as HTML.
    Html(Seq<char>),
    /// Answer `404 Not Found`.
    NotFound,
}

impl View for Step {
    type V = StepView;

    open spec fn view(&self) -> StepView {
        match self {
            Step::Static(path) => StepView::Static(path@),
            Step::Html(path) => StepView::Html(path@),
            Step::NotFound => StepView::NotFound,
        }
    }
}

/// The path that is tried where the requested path names no file.
pub open spec fn html_path(request: Seq<char>) -> Seq<char> {
    with_extension(request, html_extension())
}

/// The next step for `request` once `tried` has been found missing. A
/// request that would lead outside the output root is not found, whatever
/// has been tried.
pub open spec fn serve_step(request: Seq<char>, tried: Tried) -> StepView {
    if !stays_inside(request) {
        StepView::NotFound
    } else {
        match tried {
            Tried::Nothing => StepView::Static(request),
            Tried::Literal => StepView::Html(html_path(request)),
            Tried::Both => StepView::NotFound,
        }
    }
}

/// The path that a step names, if it names one.
pub open spec fn step_path(step: StepView) -> Option<Seq<char>> {
    match step {
        StepView::Static(path) => Some(path),
        StepView::Html(path) => Some(path),
        StepView::NotFound => None,
    }
}

/// No step names a file outside the output root.
pub proof fn lemma_steps_stay_inside(request: Seq<char>, tried: Tried)
    ensures
        step_path(serve_step(request, tried)) matches Some(path) ==> stays_inside(path),
{
    if stays_inside(request) {
        lemma_with_extension_stays_inside(request, html_extension());
    }
}

/// How a request is answered in the end, where `tree` holds the paths that
/// name a file of the output tree.
pub open spec fn resolution(request: Seq<char>, tree: Set<Seq<char>>) -> StepView {
    if !stays_inside(request) {
        StepView::NotFound
    } else if tree.contains(request) {
        StepView::Static(request)
    } else if tree.contains(html_path(request)) {
        StepView::Html(html_path(request))
    } else {
        StepView::NotFound
    }
}

/// The first step whose file is in the tree, taken in the order `Nothing`,
/// `Literal`, `Both`, is the resolution of the request.
pub proof fn lemma_steps_resolve(request: Seq<char>, tree: Set<Seq<char>>)
    ensures
        !stays_inside(request) ==> resolution(request, tree) == StepView::NotFound,
        tree.contains(request) ==> resolution(request, tree) == serve_step(
            request,
            Tried::Nothing,
        ),
        !tree.contains(request) && tree.contains(html_path(request)) ==> resolution(request, tree)
            == serve_step(request, Tried::Literal),
        !tree.contains(request) && !tree.contains(html_path(request)) ==> resolution(
            request,
            tree,
        ) == serve_step(request, Tried::Both),
{
}

/// The page of a Markdown source answers the request for the source's path
/// without `.md`, where what is left has no extension of its own: the path
/// that is tried second is the one that the build wrote the page to.
pub proof fn lemma_request_finds_page(source: Seq<char>)
    requires
        kind_of(source) == FileKind::Markdown,
        extension(stem(source)) is None,
    ensures
        html_path(stem(source)) == output_path(source),
        html_path(output_path(source)) == output_path(source),
{
    lemma_name_end(source);
    let name = trimmed(source);
    let request = stem(source);
    assert(is_extension_dot(name, stem_len(name)));
    lemma_name_end_is(request, request.len() as int);
    assert(trimmed(request) == request);
    assert(request.take(request.len() as int) == request);
    lemma_markdown_goes_to_html(source);
    let output = output_path(source);
    lemma_name_end_is(output, output.len() as int);
    assert(trimmed(output) == output);
}

/// The paths of the files that a build wrote.
pub open spec fn written_paths(outputs: Seq<OutputFile>) -> Set<Seq<char>> {
    Set::new(|path: Seq<char>| exists|i: int| 0 <= i < outputs.len() && outputs[i]@.path == path)
}

/// After a build that came through, the page of each Markdown source is what
/// a request for the source's path without `.md` resolves to, where what is
/// left stays inside the output root, has no extension of its own and names
/// no file itself.
pub proof fn lemma_built_page_is_served(
    sources: Seq<SourceFile>,
    answers: Seq<Answer>,
    outputs: Seq<OutputFile>,
    at: int,
)
    requires
        is_build_of(sources, answers, outputs, None),
        0 <= at < sources.len(),
        kind_of(sources[at]@.path) == FileKind::Markdown,
        stays_inside(stem(sources[at]@.path)),
        extension(stem(sources[at]@.path)) is None,
        !written_paths(outputs).contains(stem(sources[at]@.path)),
    ensures
        outputs[at]@.path == output_path(sources[at]@.path),
        resolution(stem(sources[at]@.path), written_paths(outputs)) == StepView::Html(
            outputs[at]@.path,
        ),
{
    let source = sources[at]@.path;
    lemma_request_finds_page(source);
    assert(transformed(sources[at]@, answers[at]) == Ok::<FileView, ErrorKind>(outputs[at]@));
    assert(written_paths(outputs).contains(outputs[at]@.path));
}

/// Starting the server: a server that is down is started, and asked to
/// listen; one that has been started is left alone.
pub open spec fn start_step(listener: Listener) -> (Listener, Command) {
    if listener == Listener::Down {
        (Listener::Binding, Command::Listen)
    } else {
        (listener, Command::Wait)
    }
}

/// Static site server.
pub struct Server {}

impl Server {
    /// Starts the server unless it has been started: where the listener
    /// stands then, and what to do.
    pub fn start(listener: Listener) -> (next: (Listener, Command))
        ensures
            next == start_step(listener),
    {
        match listener {
            Listener::Down => (Listener::Binding, Command::Listen),
            _ => (listener, Command::Wait),
        }
    }

    /// The next step for the request path `request`, relative to the output
    /// root, once `tried` has been found missing.
    pub fn serve(request: &str, tried: Tried) -> (step: Step)
        ensures
            step@ == serve_step(request@, tried),
            step_path(step@) matches Some(path) ==> stays_inside(path),
    {
        proof {
            lemma_steps_stay_inside(request@, tried);
        }
        if !stays_inside_of(request) {
            return Step::NotFound;
        }
        match tried {
            Tried::Nothing => Step::Static(String::from_str(request)),
            Tried::Literal => {
                proof {
                    reveal_strlit("html");
                    assert("html"@ == html_extension());
                }
                Step::Html(replace_extension(request, "html"))
            },
            Tried::Both => Step::NotFound,
        }
    }
}

} // verus!
