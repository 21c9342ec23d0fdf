//! What has to be done with one content file, up to the call of the
//! template engine.

use crate::entry::FileKind;
use crate::error::{BuildError, ErrorKind};
use crate::front_matter::{body_of, front_matter, metadata_of, split_front_matter};
use crate::markdown::{markdown_html, markdown_to_html};
use crate::metadata::{no_fields, parsed_metadata, template_of, Fields, FrontMatter};
use crate::text::decode_text;
use vstd::prelude::*;
use vstd::slice::slice_to_vec;
use vstd::string::StringExecFns;
use vstd::string::StringSliceAdditionalSpecFns;
use vstd::utf8::{decode_utf8, encode_utf8_decode_utf8, valid_utf8};

verus! {

/// A page for the template engine: the text of a template, and the metadata
/// that it reads as its variables. Without metadata it reads none.
pub struct RenderJob {
    /// The text of the template.
    pub template: String,
    /// The metadata of the page.
    pub front_matter: Option<FrontMatter>,
}

/// What is left to do with a content file once it has been read.
pub enum Task {
    /// Write these bytes.
    Copy(Vec<u8>),
    /// Render this page and write what the engine returns.
    Render(RenderJob),
}

/// A page for the template engine, as values.
pub struct JobView {
    /// The text of the template.
    pub template: Seq<char>,
    /// The fields of the metadata.
    pub fields: Option<Fields>,
}

/// A task, as values.
pub enum TaskView {
    /// Write these bytes.
    Copy(Seq<u8>),
    /// Render this page and write what the engine returns.
    Render(JobView),
}

impl View for RenderJob {
    type V = JobView;

    open spec fn view(&self) -> JobView {
        JobView {
            template: self.template@,
            fields: match self.front_matter {
                Some(front) => Some(front@),
                None => None,
            },
        }
    }
}

impl View for Task {
    type V = TaskView;

    open spec fn view(&self) -> TaskView {
        match self {
            Task::Copy(bytes) => TaskView::Copy(bytes@),
            Task::Render(job) => TaskView::Render(job@),
        }
    }
}

/// The variables that the page of a job reads: the fields of its metadata.
pub open spec fn variables_of(job: JobView) -> Fields {
    match job.fields {
        Some(fields) => fields,
        None => no_fields(),
    }
}

/// The template of a Markdown page: it extends the base template `base` and
/// fills that template's `content` block with `html`.
pub open spec fn page_template(base: Seq<char>, html: Seq<char>) -> Seq<char> {
    "{% extends \""@ + base + ".html\" %}\n{% block content %}\n"@ + html
        + "\n{% endblock content %}"@
}

/// The task that a Markdown source gives.
pub open spec fn markdown_task(contents: Seq<u8>) -> Result<TaskView, ErrorKind> {
    match front_matter(contents) {
        None => Err(ErrorKind::MissingMetadata),
        Some(m) => match parsed_metadata(decode_utf8(metadata_of(contents, m))) {
            Err(kind) => Err(kind),
            Ok(fields) => Ok(
                TaskView::Render(
                    JobView {
                        template: page_template(
                            template_of(fields).unwrap(),
                            markdown_html(decode_utf8(body_of(contents, m)), true),
                        ),
                        fields: Some(fields),
                    },
                ),
            ),
        },
    }
}

/// The task that a file of kind `kind` with these contents gives, or why
/// there is none.
pub open spec fn task_of(kind: FileKind, contents: Seq<u8>) -> Result<TaskView, ErrorKind> {
    match kind {
        FileKind::Passthrough => Ok(TaskView::Copy(contents)),
        FileKind::Template => if valid_utf8(contents) {
            Ok(TaskView::Render(JobView { template: decode_utf8(contents), fields: None }))
        } else {
            Err(ErrorKind::IOError)
        },
        FileKind::Markdown => if valid_utf8(contents) {
            markdown_task(contents)
        } else {
            Err(ErrorKind::IOError)
        },
    }
}

/// Builds the template of a Markdown page.
pub fn make_page_template(base: &str, html: &str) -> (template: String)
    ensures
        template@ == page_template(base@, html@),
{
    let mut template = String::from_str("{% extends \"");
    template.append(base);
    template.append(".html\" %}\n{% block content %}\n");
    template.append(html);
    template.append("\n{% endblock content %}");
    template
}

/// Reads a Markdown source up to the page that the engine has to render.
pub fn prepare_markdown(text: &str) -> (made: Result<RenderJob, BuildError>)
    ensures
        match markdown_task(text.spec_bytes()) {
            Ok(task) => made matches Ok(job) && TaskView::Render(job@) == task,
            Err(kind) => made matches Err(e) && e.kind() == kind,
        },
{
    let (metadata, body) = match split_front_matter(text) {
        Some(parts) => parts,
        None => {
            return Err(BuildError::MissingMetadata);
        },
    };
    proof {
        encode_utf8_decode_utf8(metadata@);
        encode_utf8_decode_utf8(body@);
    }
    let front = match FrontMatter::parse(metadata) {
        Ok(front) => front,
        Err(e) => {
            return Err(e);
        },
    };
    let html = markdown_to_html(body, true);
    let template = make_page_template(front.template(), html.as_str());
    Ok(RenderJob { template, front_matter: Some(front) })
}

/// Decides what is to be done with a content file of kind `kind`.
pub fn prepare(kind: FileKind, contents: &[u8]) -> (made: Result<Task, BuildError>)
    ensures
        match task_of(kind, contents@) {
            Ok(task) => made matches Ok(t) && t@ == task,
            Err(kind) => made matches Err(e) && e.kind() == kind,
        },
{
    match kind {
        FileKind::Passthrough => Ok(Task::Copy(slice_to_vec(contents))),
        FileKind::Template => match decode_text(contents) {
            Some(text) => {
                proof {
                    encode_utf8_decode_utf8(text@);
                }
                Ok(Task::Render(RenderJob { template: String::from_str(text), front_matter: None }))
            },
            None => Err(BuildError::IOError),
        },
        FileKind::Markdown => match decode_text(contents) {
            Some(text) => match prepare_markdown(text) {
                Ok(job) => Ok(Task::Render(job)),
                Err(e) => Err(e),
            },
            None => Err(BuildError::IOError),
        },
    }
}

} // verus!
