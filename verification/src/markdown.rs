//! Markdown to HTML, by the `comrak` crate.

use vstd::prelude::*;

verus! {

/// The HTML that comrak makes of the Markdown `text`, with its footnote
/// extension switched on or off and every other option at its default.
pub uninterp spec fn markdown_html(text: Seq<char>, footnotes: bool) -> Seq<char>;

/// Renders Markdown through `comrak::markdown_to_html`, under options that
/// differ from comrak's defaults in the footnote extension alone. The result
/// depends on the text and on that switch only, so it has a name.
#[verifier::external_body]
pub(crate) fn markdown_to_html(text: &str, footnotes: bool) -> (html: String)
    ensures
        html@ == markdown_html(text@, footnotes),
{
    let mut options = comrak::Options::default();
    options.extension.footnotes = footnotes;
    comrak::markdown_to_html(text, &options)
}

} // verus!
