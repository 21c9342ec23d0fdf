//! The build walk: every content file, in the order given, up to the first
//! that fails.
//!
//! The walk stops at each page that the template engine has to render and
//! hands the page to its host. The host has the engine render it and goes on
//! with the engine's answer.

use crate::engine::{context_fields, context_of, empty_context};
use crate::entry::{html_extension, kind_of, output_path, ContentEntry, FileKind};
use crate::error::{BuildError, ErrorKind};
use crate::front_matter::{
    body_of, has_front_matter, is_front_matter, lemma_front_matter_unique, metadata_of, Span,
};
use crate::markdown::markdown_html;
use crate::metadata::{template_of, yaml_fields, Fields};
use crate::path::with_extension;
use crate::transform::{
    page_template, prepare, task_of, variables_of, JobView, RenderJob, Task, TaskView,
};
use crate::watch::{watch_step, Command, Fatal, Phase, Signal};
use vstd::prelude::*;
use vstd::string::StrSliceExecFns;
use vstd::utf8::{decode_utf8, encode_utf8, valid_utf8};

verus! {

/// A file as values: its path relative to the root of its tree, and its
/// bytes.
pub struct FileView {
    /// The path, relative to the root of the tree.
    pub path: Seq<char>,
    /// The bytes of the file.
    pub contents: Seq<u8>,
}

/// A file of the content tree.
#[derive(Clone, Debug)]
pub struct SourceFile {
    /// The path, relative to the content root.
    pub path: String,
    /// The bytes of the file.
    pub contents: Vec<u8>,
}

/// A file of the output tree.
#[derive(Clone, Debug)]
pub struct OutputFile {
    /// The path, relative to the output root.
    pub path: String,
    /// The bytes of the file.
    pub contents: Vec<u8>,
}

impl View for SourceFile {
    type V = FileView;

    open spec fn view(&self) -> FileView {
        FileView { path: self.path@, contents: self.contents@ }
    }
}

impl View for OutputFile {
    type V = FileView;

    open spec fn view(&self) -> FileView {
        FileView { path: self.path@, contents: self.contents@ }
    }
}

/// How a build walk ended.
#[derive(Debug)]
pub struct BuildReport {
    /// The outputs of the sources that came before the first failure, in the
    /// order of the sources. They are written even where the build failed.
    pub outputs: Vec<OutputFile>,
    /// Why the walk stopped early, if it did.
    pub failure: Option<BuildError>,
}

/// What the engine answered for one page: the rendered text, or `None` where
/// it refused the page.
pub type Answer = Option<Seq<char>>;

/// What transforming `source` yields where the engine, if the source needs
/// it, answers `answer`.
pub open spec fn transformed(source: FileView, answer: Answer) -> Result<FileView, ErrorKind> {
    match task_of(kind_of(source.path), source.contents) {
        Err(kind) => Err(kind),
        Ok(TaskView::Copy(bytes)) => Ok(
            FileView { path: output_path(source.path), contents: bytes },
        ),
        Ok(TaskView::Render(_)) => match answer {
            Some(text) => Ok(FileView { path: output_path(source.path), contents: encode_utf8(text) }),
            None => Err(ErrorKind::RenderError),
        },
    }
}

/// `outputs` and `failure` are how the walk over `sources` ends where the
/// engine gives, for the source at each index, the answer at that index: an
/// output for every source before the first that fails, and that one's
/// failure.
pub open spec fn is_build_of(
    sources: Seq<SourceFile>,
    answers: Seq<Answer>,
    outputs: Seq<OutputFile>,
    failure: Option<ErrorKind>,
) -> bool {
    &&& answers.len() == sources.len()
    &&& outputs.len() <= sources.len()
    &&& forall|i: int|
        0 <= i < outputs.len() ==> transformed(sources[i]@, answers[i]) == Ok::<
            FileView,
            ErrorKind,
        >(#[trigger] outputs[i]@)
    &&& match failure {
        None => outputs.len() == sources.len(),
        Some(kind) => outputs.len() < sources.len() && transformed(
            sources[outputs.len() as int]@,
            answers[outputs.len() as int],
        ) == Err::<FileView, ErrorKind>(kind),
    }
}

/// What the host hands to a step of the walk, as values: the rendered text,
/// or `None` where the engine refused the page or the host brings no answer.
pub open spec fn given(answer: Option<Result<String, tera::Error>>) -> Answer {
    match answer {
        Some(Ok(text)) => Some(text@),
        _ => None,
    }
}

/// `output` is an output of `source`, whatever the engine answered.
pub open spec fn is_output_of(source: FileView, output: FileView) -> bool {
    exists|answer: Answer| transformed(source, answer) == Ok::<FileView, ErrorKind>(output)
}

/// The kind of a failure, if there is one.
pub open spec fn failure_kind(failure: Option<BuildError>) -> Option<ErrorKind> {
    match failure {
        Some(e) => Some(e.kind()),
        None => None,
    }
}

/// A Markdown source with front matter that names a base template gives,
/// whatever text the engine answers, an output at the path of the source
/// with `.html` for `.md`, which holds the engine's answer. The page that the
/// engine is given extends the named base template, fills its `content`
/// block with the HTML made of the body, and has every field of the
/// metadata as a variable.
pub proof fn lemma_markdown_page(source: FileView, m: Span, fields: Fields, rendered: Seq<char>)
    requires
        kind_of(source.path) == FileKind::Markdown,
        valid_utf8(source.contents),
        is_front_matter(source.contents, m),
        yaml_fields(decode_utf8(metadata_of(source.contents, m))) == Some(fields),
        template_of(fields) is Some,
    ensures
        task_of(FileKind::Markdown, source.contents) == Ok::<TaskView, ErrorKind>(
            TaskView::Render(
                JobView {
                    template: page_template(
                        template_of(fields).unwrap(),
                        markdown_html(decode_utf8(body_of(source.contents, m)), true),
                    ),
                    fields: Some(fields),
                },
            ),
        ),
        transformed(source, Some(rendered)) == Ok::<FileView, ErrorKind>(
            FileView {
                path: with_extension(source.path, html_extension()),
                contents: encode_utf8(rendered),
            },
        ),
{
    lemma_front_matter_unique(
        source.contents,
        m,
        choose|b: Span| is_front_matter(source.contents, b),
    );
}

/// A Markdown source without front matter fails with `MissingMetadata`
/// whatever the engine would answer, so a build never gets past it: it
/// writes no output for it and fails, with `MissingMetadata` where every
/// source before it came through.
pub proof fn lemma_missing_metadata_stops_build(
    sources: Seq<SourceFile>,
    answers: Seq<Answer>,
    outputs: Seq<OutputFile>,
    failure: Option<ErrorKind>,
    at: int,
)
    requires
        is_build_of(sources, answers, outputs, failure),
        0 <= at < sources.len(),
        kind_of(sources[at]@.path) == FileKind::Markdown,
        valid_utf8(sources[at]@.contents),
        !has_front_matter(sources[at]@.contents),
    ensures
        forall|answer: Answer|
            transformed(sources[at]@, answer) == Err::<FileView, ErrorKind>(
                ErrorKind::MissingMetadata,
            ),
        outputs.len() <= at,
        failure is Some,
        outputs.len() == at ==> failure == Some(ErrorKind::MissingMetadata),
{
    if at < outputs.len() {
        assert(transformed(sources[at]@, answers[at]) == Ok::<FileView, ErrorKind>(outputs[at]@));
    }
}

/// A Markdown source whose metadata parses but names no base template, or
/// names it by something that is not text, fails with `MissingTypeField`
/// whatever the engine would answer, and a build never gets past it.
pub proof fn lemma_missing_type_stops_build(
    sources: Seq<SourceFile>,
    answers: Seq<Answer>,
    outputs: Seq<OutputFile>,
    failure: Option<ErrorKind>,
    at: int,
    m: Span,
    fields: Fields,
)
    requires
        is_build_of(sources, answers, outputs, failure),
        0 <= at < sources.len(),
        kind_of(sources[at]@.path) == FileKind::Markdown,
        valid_utf8(sources[at]@.contents),
        is_front_matter(sources[at]@.contents, m),
        yaml_fields(decode_utf8(metadata_of(sources[at]@.contents, m))) == Some(fields),
        template_of(fields) is None,
    ensures
        forall|answer: Answer|
            transformed(sources[at]@, answer) == Err::<FileView, ErrorKind>(
                ErrorKind::MissingTypeField,
            ),
        outputs.len() <= at,
        failure is Some,
        outputs.len() == at ==> failure == Some(ErrorKind::MissingTypeField),
{
    lemma_front_matter_unique(
        sources[at]@.contents,
        m,
        choose|b: Span| is_front_matter(sources[at]@.contents, b),
    );
    if at < outputs.len() {
        assert(transformed(sources[at]@, answers[at]) == Ok::<FileView, ErrorKind>(outputs[at]@));
    }
}

/// A passthrough file never fails, and its output has the path and the
/// bytes of its source.
pub proof fn lemma_passthrough_is_identical(
    sources: Seq<SourceFile>,
    answers: Seq<Answer>,
    outputs: Seq<OutputFile>,
    failure: Option<ErrorKind>,
    at: int,
)
    requires
        is_build_of(sources, answers, outputs, failure),
        0 <= at < sources.len(),
        kind_of(sources[at]@.path) == FileKind::Passthrough,
    ensures
        at != outputs.len(),
        at < outputs.len() ==> outputs[at]@ == sources[at]@,
{
    if at < outputs.len() {
        assert(transformed(sources[at]@, answers[at]) == Ok::<FileView, ErrorKind>(outputs[at]@));
    }
}

/// Building is idempotent: two builds of the same sources to which the
/// engine gives the same answers write the same files with the same bytes,
/// in the same order, and end alike.
pub proof fn lemma_build_is_idempotent(
    sources: Seq<SourceFile>,
    answers: Seq<Answer>,
    first: Seq<OutputFile>,
    first_failure: Option<ErrorKind>,
    second: Seq<OutputFile>,
    second_failure: Option<ErrorKind>,
)
    requires
        is_build_of(sources, answers, first, first_failure),
        is_build_of(sources, answers, second, second_failure),
    ensures
        first.len() == second.len(),
        forall|i: int| 0 <= i < first.len() ==> first[i]@ == second[i]@,
        first_failure == second_failure,
{
    if first.len() < second.len() {
        assert(transformed(sources[first.len() as int]@, answers[first.len() as int]) == Ok::<
            FileView,
            ErrorKind,
        >(second[first.len() as int]@));
    }
    if second.len() < first.len() {
        assert(transformed(sources[second.len() as int]@, answers[second.len() as int]) == Ok::<
            FileView,
            ErrorKind,
        >(first[second.len() as int]@));
    }
    assert forall|i: int| 0 <= i < first.len() implies first[i]@ == second[i]@ by {
        assert(transformed(sources[i]@, answers[i]) == Ok::<FileView, ErrorKind>(first[i]@));
        assert(transformed(sources[i]@, answers[i]) == Ok::<FileView, ErrorKind>(second[i]@));
    }
}

/// Every output that stands written when a step stops is an output of its
/// source.
proof fn lemma_walked_outputs(
    walk: Walk,
    answer: Option<Result<String, tera::Error>>,
    outputs: Seq<OutputFile>,
    i: int,
)
    requires
        walk.inv(),
        walked(walk, answer, outputs),
        0 <= i < outputs.len(),
    ensures
        is_output_of(walk.sources()[i]@, outputs[i]@),
{
    if i < walk.outputs().len() {
        assert(outputs[i] == outputs.take(walk.outputs().len() as int)[i]);
        assert(is_output_of(walk.sources()[i]@, walk.outputs()[i]@));
    } else {
        assert(transformed(walk.sources()[i]@, counted(walk, answer, i)) == Ok::<
            FileView,
            ErrorKind,
        >(outputs[i]@));
    }
}

/// Where a step ends the walk, what stands written and the failure are
/// those of a build.
proof fn lemma_walk_is_build(
    walk: Walk,
    answer: Option<Result<String, tera::Error>>,
    outputs: Seq<OutputFile>,
    failure: Option<ErrorKind>,
)
    requires
        walk.inv(),
        walked(walk, answer, outputs),
        match failure {
            None => outputs.len() == walk.sources().len(),
            Some(kind) => outputs.len() < walk.sources().len() && transformed(
                walk.sources()[outputs.len() as int]@,
                counted(walk, answer, outputs.len() as int),
            ) == Err::<FileView, ErrorKind>(kind),
        },
    ensures
        exists|answers: Seq<Answer>| is_build_of(walk.sources(), answers, outputs, failure),
{
    let sources = walk.sources();
    let answers = Seq::new(
        sources.len(),
        |i: int|
            if 0 <= i < outputs.len() {
                choose|a: Answer| transformed(sources[i]@, a) == Ok::<FileView, ErrorKind>(outputs[i]@)
            } else {
                counted(walk, answer, i)
            },
    );
    assert forall|i: int| 0 <= i < outputs.len() implies transformed(sources[i]@, answers[i])
        == Ok::<FileView, ErrorKind>(#[trigger] outputs[i]@) by {
        lemma_walked_outputs(walk, answer, outputs, i);
    }
    assert(is_build_of(sources, answers, outputs, failure));
}

/// A build walk on its way: the sources, the outputs of those that the walk
/// has passed, and whether the walk waits for the engine's answer on the
/// page of the next source.
pub struct Walk {
    sources: Vec<SourceFile>,
    outputs: Vec<OutputFile>,
    waiting: Option<ContentEntry>,
}

/// Where a step of the walk stops.
pub enum Progress {
    /// The engine has to render this page. The walk goes on with its answer.
    Render(Walk, RenderJob),
    /// The walk has ended.
    Done(BuildReport),
}

impl Walk {
    /// The sources of the walk.
    pub closed spec fn sources(&self) -> Seq<SourceFile> {
        self.sources@
    }

    /// The outputs of the sources that the walk has passed.
    pub closed spec fn outputs(&self) -> Seq<OutputFile> {
        self.outputs@
    }

    /// The walk waits for the engine's answer on the page of its next source.
    pub closed spec fn waiting(&self) -> bool {
        self.waiting is Some
    }

    #[verifier::type_invariant]
    spec fn inv(&self) -> bool {
        &&& self.outputs@.len() <= self.sources@.len()
        &&& forall|i: int|
            0 <= i < self.outputs@.len() ==> is_output_of(
                self.sources@[i]@,
                #[trigger] self.outputs@[i]@,
            )
        &&& self.waiting matches Some(entry) ==> {
            &&& self.outputs@.len() < self.sources@.len()
            &&& entry.output@ == output_path(self.sources@[self.outputs@.len() as int]@.path)
            &&& task_of(
                kind_of(self.sources@[self.outputs@.len() as int]@.path),
                self.sources@[self.outputs@.len() as int]@.contents,
            ) matches Ok(TaskView::Render(_))
        }
    }

    /// A walk over `sources` that has not started.
    pub fn new(sources: Vec<SourceFile>) -> (walk: Walk)
        ensures
            walk.sources() == sources@,
            walk.outputs().len() == 0,
            !walk.waiting(),
    {
        Walk { sources, outputs: Vec::new(), waiting: None }
    }
}

/// The answer that counts for the source at `i` in the step that starts at
/// `walk`: the given one for the page that the walk waits for, none for any
/// other source.
pub open spec fn counted(
    walk: Walk,
    answer: Option<Result<String, tera::Error>>,
    i: int,
) -> Answer {
    if walk.waiting() && i == walk.outputs().len() {
        given(answer)
    } else {
        None
    }
}

/// `outputs` is what stands written when the step from `walk` stops: what
/// stood written before, and the output of every source that the step has
/// passed.
pub open spec fn walked(
    walk: Walk,
    answer: Option<Result<String, tera::Error>>,
    outputs: Seq<OutputFile>,
) -> bool {
    &&& walk.outputs().len() <= outputs.len() <= walk.sources().len()
    &&& outputs.take(walk.outputs().len() as int) == walk.outputs()
    &&& forall|i: int|
        walk.outputs().len() <= i < outputs.len() ==> transformed(
            walk.sources()[i]@,
            counted(walk, answer, i),
        ) == Ok::<FileView, ErrorKind>(#[trigger] outputs[i]@)
}

/// `progress` is where the step from `walk` with `answer` stops. The step
/// takes the answer for the page that the walk waits for, passes every
/// source that needs no engine, and stops at the first source that fails, at
/// the next page for the engine, or at the end. A walk that waits and gets
/// no answer asks for the same page again; an answer that the walk does not
/// wait for is left aside.
pub open spec fn is_progress(
    walk: Walk,
    answer: Option<Result<String, tera::Error>>,
    progress: Progress,
) -> bool {
    match progress {
        Progress::Render(next, job) => {
            let at = next.outputs().len() as int;
            &&& next.sources() == walk.sources()
            &&& next.waiting()
            &&& walked(walk, answer, next.outputs())
            &&& at < walk.sources().len()
            &&& task_of(kind_of(walk.sources()[at]@.path), walk.sources()[at]@.contents) == Ok::<
                TaskView,
                ErrorKind,
            >(TaskView::Render(job@))
            &&& walk.waiting() && answer is Some ==> at > walk.outputs().len()
        },
        Progress::Done(report) => {
            let at = report.outputs@.len() as int;
            &&& walked(walk, answer, report.outputs@)
            &&& match report.failure {
                None => at == walk.sources().len(),
                Some(e) => {
                    &&& at < walk.sources().len()
                    &&& transformed(walk.sources()[at]@, counted(walk, answer, at)) == Err::<
                        FileView,
                        ErrorKind,
                    >(e.kind())
                    &&& walk.waiting() && at == walk.outputs().len() ==> answer is Some
                },
            }
        },
    }
}

/// Static site generator.
pub struct Builder {}

impl Builder {
    /// Makes the context that the page of `job` is rendered with: its
    /// variables are the fields of the metadata, each with its value, and no
    /// others.
    pub fn context(job: &RenderJob) -> (made: Result<tera::Context, tera::Error>)
        ensures
            made matches Ok(context) && context_fields(context) == variables_of(job@),
    {
        match &job.front_matter {
            Some(front) => context_of(front.mapping()),
            None => Ok(empty_context()),
        }
    }

    /// Turns the engine's answer for the page of `entry` into the entry's
    /// output.
    pub fn finish(entry: ContentEntry, answer: Result<String, tera::Error>) -> (outcome: Result<
        OutputFile,
        BuildError,
    >)
        ensures
            match answer {
                Ok(text) => outcome matches Ok(file) && file.path@ == entry.output@
                    && file.contents@ == encode_utf8(text@),
                Err(e) => outcome matches Err(BuildError::RenderError(r)) && r == e,
            },
    {
        match answer {
            Ok(text) => Ok(OutputFile { path: entry.output, contents: text.as_str().as_bytes_vec() }),
            Err(e) => Err(BuildError::RenderError(e)),
        }
    }

    /// One step of the build walk. It starts with `Walk::new` and no answer,
    /// and goes on, as long as a step stops at a page for the engine, with
    /// the walk of that step and the engine's answer for the page. Where the
    /// walk has ended, the report is the one of a build in which the engine
    /// gave these answers.
    pub fn build(walk: Walk, answer: Option<Result<String, tera::Error>>) -> (progress: Progress)
        ensures
            is_progress(walk, answer, progress),
            progress matches Progress::Done(report) ==> exists|answers: Seq<Answer>|
                is_build_of(walk.sources(), answers, report.outputs@, failure_kind(report.failure)),
    {
        proof {
            use_type_invariant(&walk);
        }
        let ghost start = walk;
        let ghost asked = answer;
        let ghost first = walk.outputs@.len() as int;
        let sources = walk.sources;
        let mut outputs = walk.outputs;
        match (walk.waiting, answer) {
            (Some(entry), Some(answer)) => match Builder::finish(entry, answer) {
                Ok(file) => {
                    outputs.push(file);
                    proof {
                        assert(outputs@.take(first) == start.outputs());
                        assert(transformed(sources@[first]@, counted(start, asked, first)) == Ok::<
                            FileView,
                            ErrorKind,
                        >(outputs@[first]@));
                    }
                },
                Err(e) => {
                    let report = BuildReport { outputs, failure: Some(e) };
                    proof {
                        assert(report.outputs@.take(first) == start.outputs());
                        lemma_walk_is_build(start, asked, report.outputs@, Some(e.kind()));
                    }
                    return Progress::Done(report);
                },
            },
            _ => {
                assert(outputs@.take(first) == start.outputs());
            },
        }
        let mut index: usize = outputs.len();
        while index < sources.len()
            invariant
                start == walk,
                asked == answer,
                sources@ == start.sources(),
                first == start.outputs().len(),
                index == outputs@.len(),
                walked(start, asked, outputs@),
                start.waiting() && asked is Some ==> index > first,
                start.inv(),
            decreases sources@.len() - index,
        {
            let ghost before = outputs@;
            let entry = ContentEntry::new(sources[index].path.as_str());
            assert(counted(start, asked, index as int) == None::<Seq<char>>);
            match prepare(entry.kind, sources[index].contents.as_slice()) {
                Err(e) => {
                    let report = BuildReport { outputs, failure: Some(e) };
                    proof {
                        lemma_walk_is_build(start, asked, report.outputs@, Some(e.kind()));
                    }
                    return Progress::Done(report);
                },
                Ok(Task::Copy(contents)) => {
                    outputs.push(OutputFile { path: entry.output, contents });
                    proof {
                        assert(outputs@.take(first) == before.take(first));
                        assert forall|i: int| first <= i < outputs@.len() implies transformed(
                            sources@[i]@,
                            counted(start, asked, i),
                        ) == Ok::<FileView, ErrorKind>(#[trigger] outputs@[i]@) by {
                            if i < index {
                                assert(outputs@[i] == before[i]);
                            }
                        }
                    }
                },
                Ok(Task::Render(job)) => {
                    proof {
                        assert forall|i: int| 0 <= i < outputs@.len() implies is_output_of(
                            sources@[i]@,
                            #[trigger] outputs@[i]@,
                        ) by {
                            lemma_walked_outputs(start, asked, outputs@, i);
                        }
                    }
                    let next = Walk { sources, outputs, waiting: Some(entry) };
                    return Progress::Render(next, job);
                },
            }
            index = index + 1;
        }
        let report = BuildReport { outputs, failure: None };
        proof {
            lemma_walk_is_build(start, asked, report.outputs@, None);
        }
        Progress::Done(report)
    }

    /// One step of the watcher: what to do, and where the watcher stands
    /// then, once `signal` has come in `phase`.
    pub fn watch(phase: Phase, signal: Signal) -> (next: (Phase, Command))
        ensures
            next == watch_step(phase, signal),
    {
        match (phase, signal) {
            (Phase::Idle, Signal::Start) => (Phase::Starting, Command::Build),
            (Phase::Starting, Signal::Built { ok }) => if ok {
                (Phase::Registering, Command::Register)
            } else {
                (Phase::Stopped, Command::Abort(Fatal::BuildFailed))
            },
            (Phase::Registering, Signal::Registered { ok }) => if ok {
                (Phase::Watching, Command::Wait)
            } else {
                (Phase::Stopped, Command::Abort(Fatal::WatchSetupError))
            },
            (Phase::Registering, Signal::Changed(kind)) => if kind.triggers_rebuild() {
                (Phase::Catching, Command::Build)
            } else {
                (Phase::Registering, Command::Wait)
            },
            (Phase::Catching, Signal::Built { ok }) => if ok {
                (Phase::Registering, Command::Wait)
            } else {
                (Phase::Stopped, Command::Abort(Fatal::BuildFailed))
            },
            (Phase::Catching, Signal::Registered { ok }) => if ok {
                (Phase::Rebuilding, Command::Wait)
            } else {
                (Phase::Stopped, Command::Abort(Fatal::WatchSetupError))
            },
            (Phase::Watching, Signal::Changed(kind)) => if kind.triggers_rebuild() {
                (Phase::Rebuilding, Command::Build)
            } else {
                (Phase::Watching, Command::Wait)
            },
            (Phase::Rebuilding, Signal::Built { ok }) => if ok {
                (Phase::Watching, Command::Wait)
            } else {
                (Phase::Stopped, Command::Abort(Fatal::BuildFailed))
            },
            (phase, _) => (phase, Command::Wait),
        }
    }
}

} // verus!
