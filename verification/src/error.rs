//! Why a build stops.

use vstd::prelude::*;

verus! {

/// The YAML parser's own error. Nothing is known of what it holds.
#[verifier::external_type_specification]
#[verifier::external_body]
pub struct ExYamlError(serde_yaml_ng::Error);

/// The template engine's own error. Nothing is known of what it holds.
#[verifier::external_type_specification]
#[verifier::external_body]
pub struct ExEngineError(tera::Error);

/// The ways in which transforming a content file fails, without what the
/// parser or the engine reported.
#[derive(Clone, Copy, Debug, PartialEq, Eq, Structural)]
pub enum ErrorKind {
    /// A Markdown source holds no front matter.
    MissingMetadata,
    /// The metadata is not a YAML mapping with text keys.
    InvalidMetadata,
    /// The metadata has no `type`, or its `type` is not text.
    MissingTypeField,
    /// The template engine refused the page.
    RenderError,
    /// A source that has to be text could not be read as text.
    IOError,
}

/// A failed transformation, with the parser's or the engine's report.
#[derive(Debug)]
pub enum BuildError {
    /// A Markdown source holds no front matter.
    MissingMetadata,
    /// The metadata is not a YAML mapping with text keys.
    InvalidMetadata(serde_yaml_ng::Error),
    /// The metadata has no `type`, or its `type` is not text.
    MissingTypeField,
    /// The template engine refused the page.
    RenderError(tera::Error),
    /// A source that has to be text could not be read as text.
    IOError,
}

impl BuildError {
    /// Which of the failures this is.
    pub open spec fn spec_kind(&self) -> ErrorKind {
        match self {
            BuildError::MissingMetadata => ErrorKind::MissingMetadata,
            BuildError::InvalidMetadata(_) => ErrorKind::InvalidMetadata,
            BuildError::MissingTypeField => ErrorKind::MissingTypeField,
            BuildError::RenderError(_) => ErrorKind::RenderError,
            BuildError::IOError => ErrorKind::IOError,
        }
    }

    /// Which of the failures this is.
    #[verifier::when_used_as_spec(spec_kind)]
    pub fn kind(&self) -> (kind: ErrorKind)
        ensures
            kind == self.spec_kind(),
    {
        match self {
            BuildError::MissingMetadata => ErrorKind::MissingMetadata,
            BuildError::InvalidMetadata(_) => ErrorKind::InvalidMetadata,
            BuildError::MissingTypeField => ErrorKind::MissingTypeField,
            BuildError::RenderError(_) => ErrorKind::RenderError,
            BuildError::IOError => ErrorKind::IOError,
        }
    }
}

} // verus!
