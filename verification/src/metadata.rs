//! The metadata of a Markdown source: a YAML mapping that names, under
//! `type`, the base template of the page.

use crate::error::{BuildError, ErrorKind};
use crate::text::text_of;
use vstd::prelude::*;

verus! {

/// A mapping from text keys to loosely typed values, as the YAML parser
/// fills it and the template engine reads it.
#[verifier::external_type_specification]
#[verifier::external_body]
#[verifier::reject_recursive_types(K)]
#[verifier::reject_recursive_types(V)]
pub struct ExMapping<K, V>(tera::Map<K, V>);

/// A loosely typed value of such a mapping.
#[verifier::external_type_specification]
#[verifier::external_body]
pub struct ExValue(tera::Value);

/// One value of a mapping, as values.
pub struct Field {
    /// The value written as JSON, in the compact form in which `serde_json`
    /// writes a value. It tells values of every type apart.
    pub json: Seq<char>,
    /// The text of the value where the value is a string, `None` where it is
    /// of another type.
    pub text: Option<Seq<char>>,
}

/// What a mapping holds: each key with its value.
pub type Fields = Map<Seq<char>, Field>;

/// No fields at all.
pub open spec fn no_fields() -> Fields {
    Map::empty()
}

/// The fields of a mapping.
pub uninterp spec fn mapping_fields(mapping: tera::Map<String, tera::Value>) -> Map<
    Seq<char>,
    Field,
>;

/// The fields of the mapping that `text` is in YAML, or `None` where `text`
/// is not the YAML of a mapping with text keys.
pub uninterp spec fn yaml_fields(text: Seq<char>) -> Option<Map<Seq<char>, Field>>;

/// Parses YAML through `serde_yaml_ng::from_str`, into a mapping with text
/// keys. Whether that succeeds, and the fields of the mapping then, depend
/// on the text alone.
#[verifier::external_body]
pub(crate) fn parse_mapping(text: &str) -> (parsed: Result<
    tera::Map<String, tera::Value>,
    serde_yaml_ng::Error,
>)
    ensures
        match parsed {
            Ok(mapping) => yaml_fields(text@) == Some(mapping_fields(mapping)),
            Err(_) => yaml_fields(text@) is None,
        },
{
    serde_yaml_ng::from_str(text)
}

/// Looks `key` up through the mapping's `get`: `None` where the mapping has
/// no such key, the value's text where the value is a string, and
/// `Some(None)` where it is of another type.
#[verifier::external_body]
pub(crate) fn mapping_get(mapping: &tera::Map<String, tera::Value>, key: &str) -> (found: Option<
    Option<String>,
>)
    ensures
        found is Some <==> mapping_fields(*mapping).contains_key(key@),
        found matches Some(value) ==> text_of(value) == mapping_fields(*mapping)[key@].text,
{
    match mapping.get(key) {
        Some(tera::Value::String(text)) => Some(Some(text.clone())),
        Some(_) => Some(None),
        None => None,
    }
}

/// The key under which the metadata names the base template.
pub open spec fn type_key() -> Seq<char> {
    seq!['t', 'y', 'p', 'e']
}

/// The base template that `fields` name, if they name one.
pub open spec fn template_of(fields: Fields) -> Option<Seq<char>> {
    if fields.contains_key(type_key()) {
        fields[type_key()].text
    } else {
        None
    }
}

/// What parsing the metadata `text` yields: its fields, or the failure.
pub open spec fn parsed_metadata(text: Seq<char>) -> Result<Fields, ErrorKind> {
    match yaml_fields(text) {
        None => Err(ErrorKind::InvalidMetadata),
        Some(fields) => match template_of(fields) {
            None => Err(ErrorKind::MissingTypeField),
            Some(_) => Ok(fields),
        },
    }
}

/// The metadata of one page.
pub struct FrontMatter {
    mapping: tera::Map<String, tera::Value>,
    template: String,
}

impl View for FrontMatter {
    type V = Fields;

    closed spec fn view(&self) -> Fields {
        mapping_fields(self.mapping)
    }
}

impl FrontMatter {
    /// The name of the base template.
    pub closed spec fn template_name(&self) -> Seq<char> {
        self.template@
    }

    /// The fields name the base template that the metadata holds.
    pub open spec fn wf(&self) -> bool {
        template_of(self@) == Some(self.template_name())
    }

    /// Wraps a parsed mapping, which has to name a base template under `type`.
    pub fn from_mapping(mapping: tera::Map<String, tera::Value>) -> (made: Result<
        FrontMatter,
        BuildError,
    >)
        ensures
            match template_of(mapping_fields(mapping)) {
                Some(name) => made matches Ok(front) && front@ == mapping_fields(mapping)
                    && front.template_name() == name && front.wf(),
                None => made matches Err(BuildError::MissingTypeField),
            },
    {
        proof {
            reveal_strlit("type");
            assert("type"@ == type_key());
        }
        match mapping_get(&mapping, "type") {
            Some(Some(template)) => Ok(FrontMatter { mapping, template }),
            _ => Err(BuildError::MissingTypeField),
        }
    }

    /// Parses the metadata of a page.
    pub fn parse(text: &str) -> (made: Result<FrontMatter, BuildError>)
        ensures
            match parsed_metadata(text@) {
                Ok(fields) => made matches Ok(front) && front@ == fields && front.wf(),
                Err(kind) => made matches Err(e) && e.kind() == kind,
            },
    {
        match parse_mapping(text) {
            Ok(mapping) => FrontMatter::from_mapping(mapping),
            Err(e) => Err(BuildError::InvalidMetadata(e)),
        }
    }

    /// The name of the base template.
    pub fn template(&self) -> (name: &str)
        ensures
            name@ == self.template_name(),
    {
        self.template.as_str()
    }

    /// The whole mapping, as the template engine takes it.
    pub fn mapping(&self) -> (mapping: &tera::Map<String, tera::Value>)
        ensures
            mapping_fields(*mapping) == self@,
    {
        &self.mapping
    }
}

} // verus!
