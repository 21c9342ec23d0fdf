//! The variables of a page, in the form in which the `tera` template engine
//! takes them.
//!
//! The library makes the context of a page and leaves the rendering to its
//! host. The engine's renderer does not return from every page: a remainder
//! that overflows or a number too large for it stops the process, and a page
//! that includes itself never ends. Which pages those are depends on every
//! template that the engine holds, so the library has no call of the
//! renderer and takes the engine's answer from the host.

use crate::metadata::{mapping_fields, no_fields, Field};
use vstd::prelude::*;

verus! {

/// The variables that a template can read.
#[verifier::external_type_specification]
#[verifier::external_body]
pub struct ExContext(tera::Context);

/// The variables of a context: each name with its value.
pub uninterp spec fn context_fields(context: tera::Context) -> Map<Seq<char>, Field>;

/// A context without variables, through `tera::Context::new`.
#[verifier::external_body]
pub(crate) fn empty_context() -> (made: tera::Context)
    ensures
        context_fields(made) == no_fields(),
{
    tera::Context::new()
}

/// A context through `tera::Context::from_serialize`. The engine turns the
/// mapping into a JSON object, which never fails for a mapping with text
/// keys, and takes the entries of that object as the variables.
#[verifier::external_body]
pub(crate) fn context_of(mapping: &tera::Map<String, tera::Value>) -> (made: Result<
    tera::Context,
    tera::Error,
>)
    ensures
        made is Ok,
        made matches Ok(context) ==> context_fields(context) == mapping_fields(*mapping),
{
    tera::Context::from_serialize(mapping)
}

} // verus!
