//! Markdown conversion, through the external converter.

use vstd::prelude::*;

verus! {

/// The HTML that the markdown converter produces for a given text: a
/// fixed function of the text alone.
pub uninterp spec fn html_of(md: Seq<char>) -> Seq<char>;

/// Relies on pulldown_cmark: `Parser::new_ext` with all extensions over
/// the given text, drained into `html::push_html`, yields HTML that
/// depends on the text alone; an empty text yields no events and so an
/// empty string.
#[verifier::external_body]
pub fn to_html(md: &str) -> (r: String)
    ensures
        r@ == html_of(md@),
        md@.len() == 0 ==> r@.len() == 0,
{
    let mut out = String::new();
    let parser = pulldown_cmark::Parser::new_ext(md, pulldown_cmark::Options::all());
    pulldown_cmark::html::push_html(&mut out, parser);
    out
}

} // verus!
