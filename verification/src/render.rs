//! Markdown to HTML.

use vstd::prelude::*;

verus! {

/// The HTML that `pulldown_cmark` emits for a markdown text when it is parsed
/// with no extension enabled. It depends on the text alone.
pub uninterp spec fn markdown_html(markdown: Seq<char>) -> Seq<char>;

/// Calls `pulldown_cmark::Parser::new` on `markdown` and hands the events to
/// `pulldown_cmark::html::push_html`, which writes their HTML behind what
/// `out` already holds. Trusted: `out` keeps its old text as a prefix, and
/// what follows it is the HTML of `markdown`, whatever `out` held before.
#[verifier::external_body]
fn push_html(out: &mut String, markdown: &str)
    ensures
        final(out)@ == old(out)@ + markdown_html(markdown@),
{
    pulldown_cmark::html::push_html(out, pulldown_cmark::Parser::new(markdown));
}

/// Renders a markdown text as HTML.
pub fn render_markdown(markdown: &str) -> (html: String)
    ensures
        html@ == markdown_html(markdown@),
{
    let mut html_output = String::new();
    push_html(&mut html_output, markdown);
    html_output
}

/// Rendering is a function of the text: equal inputs give equal HTML.
pub proof fn lemma_rendering_is_deterministic(first: Seq<char>, second: Seq<char>)
    requires
        first == second,
    ensures
        markdown_html(first) == markdown_html(second),
{
}

} // verus!
