//! Content entries: what kind of file a source path names and where its
//! output goes.

use crate::path::{
    extension, extension_of, is_extension_dot, lemma_extension_dot_unique, lemma_name_end,
    lemma_name_end_is, replace_extension, stem, stem_len, trimmed, with_extension,
};
use vstd::prelude::*;
use vstd::string::StringExecFns;

verus! {

/// How a content file is turned into its output.
#[derive(Clone, Copy, Debug, PartialEq, Eq, Structural)]
pub enum FileKind {
    /// Markdown with front matter, rendered into a base template.
    Markdown,
    /// HTML that is itself a template, rendered with an empty context.
    Template,
    /// Anything else, copied byte for byte.
    Passthrough,
}

/// The extension of Markdown sources.
pub open spec fn markdown_extension() -> Seq<char> {
    seq!['m', 'd']
}

/// The extension of template sources and of every rendered page.
pub open spec fn html_extension() -> Seq<char> {
    seq!['h', 't', 'm', 'l']
}

/// The kind of the file at `path`, decided by its extension alone.
pub open spec fn kind_of(path: Seq<char>) -> FileKind {
    if extension(path) == Some(markdown_extension()) {
        FileKind::Markdown
    } else if extension(path) == Some(html_extension()) {
        FileKind::Template
    } else {
        FileKind::Passthrough
    }
}

/// Where the output of the source at `path` goes, relative to the output
/// root: the same relative path, with `.md` rewritten to `.html`.
pub open spec fn output_path(path: Seq<char>) -> Seq<char> {
    if kind_of(path) == FileKind::Markdown {
        with_extension(path, html_extension())
    } else {
        path
    }
}

/// The output of a Markdown source is an HTML file: its extension is `html`,
/// and what stood before `.md` stands before `.html`.
pub proof fn lemma_markdown_goes_to_html(path: Seq<char>)
    requires
        kind_of(path) == FileKind::Markdown,
    ensures
        extension(output_path(path)) == Some(html_extension()),
        stem(output_path(path)) == stem(path),
        output_path(path) == stem(path) + seq!['.'] + html_extension(),
{
    lemma_name_end(path);
    let name = trimmed(path);
    let dot = stem_len(name);
    let output = output_path(path);
    assert(is_extension_dot(name, dot));
    lemma_name_end_is(output, output.len() as int);
    assert(trimmed(output) == output);
    assert(is_extension_dot(output, dot));
    lemma_extension_dot_unique(output, dot, stem_len(output));
    assert(output.skip(dot + 1) == html_extension());
    assert(output.take(dot) == name.take(dot));
}

/// One file of the content tree, as seen by a build walk.
#[derive(Clone, Debug)]
pub struct ContentEntry {
    /// Path of the source, relative to the content root.
    pub source: String,
    /// How the source is transformed.
    pub kind: FileKind,
    /// Path of the output, relative to the output root.
    pub output: String,
}

impl ContentEntry {
    /// The entry is the one that `ContentEntry::new` builds for its source.
    pub open spec fn wf(&self) -> bool {
        &&& self.kind == kind_of(self.source@)
        &&& self.output@ == output_path(self.source@)
    }

    /// Classifies the source at `source` and derives its output path.
    pub fn new(source: &str) -> (entry: ContentEntry)
        ensures
            entry.source@ == source@,
            entry.wf(),
    {
        let kind = FileKind::of(source);
        let output = match kind {
            FileKind::Markdown => {
                proof {
                    reveal_strlit("html");
                    assert("html"@ == html_extension());
                }
                replace_extension(source, "html")
            },
            _ => String::from_str(source),
        };
        ContentEntry { source: String::from_str(source), kind, output }
    }
}

impl FileKind {
    /// The kind of the file at `path`.
    pub fn of(path: &str) -> (kind: FileKind)
        ensures
            kind == kind_of(path@),
    {
        proof {
            reveal_strlit("md");
            reveal_strlit("html");
            assert("md"@ == markdown_extension());
            assert("html"@ == html_extension());
        }
        match extension_of(path) {
            Some(ext) => {
                if ext == String::from_str("md") {
                    FileKind::Markdown
                } else if ext == String::from_str("html") {
                    FileKind::Template
                } else {
                    FileKind::Passthrough
                }
            },
            None => FileKind::Passthrough,
        }
    }
}

} // verus!
