//! Markdown rendering: raw-HTML passthrough and tables are always on,
//! heading anchors are toggled per call. Rendering is deterministic in the
//! source text and the anchor flag, so its result is named by `html_of`.

use vstd::prelude::*;

verus! {

/// The HTML that the markdown renderer produces for a source text, with or
/// without heading anchors.
pub uninterp spec fn html_of(md: Seq<char>, anchors: bool) -> Seq<char>;

/// Relies on comrak::markdown_to_html: pure rendering, a function of the
/// source text and the options alone; raw HTML and tables enabled, heading
/// ids enabled exactly when `anchors` is set.
#[verifier::external_body]
pub fn render_markdown(md: &str, anchors: bool) -> (r: String)
    ensures
        r@ == html_of(md@, anchors),
{
    let mut options = comrak::Options::default();
    options.render.unsafe_ = true;
    options.extension.table = true;
    if anchors {
        options.extension.header_ids = Some(String::new());
    }
    comrak::markdown_to_html(md, &options)
}

} // verus!
