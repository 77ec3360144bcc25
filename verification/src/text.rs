//! Text conversions delegated to external collaborators: markdown-to-HTML
//! conversion, fixed-pattern substitution, and the dimension strip applied
//! to a rendered diagram. Each is deterministic in its text arguments, so
//! its result is named by an uninterpreted spec function and every caller's
//! contract is stated over that name.

use vstd::prelude::*;

verus! {

/// The HTML produced for a markdown text by the conversion configured for
/// this site (strikethrough, math, footnotes, tables, task lists, GFM, and
/// pluses-delimited metadata blocks enabled).
pub uninterp spec fn html_of(text: Seq<char>) -> Seq<char>;

/// The text with every occurrence of a pattern replaced by a substitute.
pub uninterp spec fn replaced_of(text: Seq<char>, pat: Seq<char>, sub: Seq<char>) -> Seq<char>;

/// A rendered diagram with its fixed root dimension declaration removed,
/// so that it scales to its container.
pub uninterp spec fn svg_dims_stripped_of(text: Seq<char>) -> Seq<char>;

/// Relies on pulldown_cmark's Parser::new_ext and html::push_html: converts
/// markdown to HTML; with the fixed option set the result depends on the
/// text alone.
#[verifier::external_body]
pub fn markdown_to_html(text: &String) -> (r: String)
    ensures
        r@ == html_of(text@),
{
    let mut options = pulldown_cmark::Options::empty();
    options.insert(pulldown_cmark::Options::ENABLE_PLUSES_DELIMITED_METADATA_BLOCKS);
    options.insert(pulldown_cmark::Options::ENABLE_STRIKETHROUGH);
    options.insert(pulldown_cmark::Options::ENABLE_MATH);
    options.insert(pulldown_cmark::Options::ENABLE_FOOTNOTES);
    options.insert(pulldown_cmark::Options::ENABLE_GFM);
    options.insert(pulldown_cmark::Options::ENABLE_TABLES);
    options.insert(pulldown_cmark::Options::ENABLE_TASKLISTS);
    let parser = pulldown_cmark::Parser::new_ext(text, options);
    let mut body = String::new();
    pulldown_cmark::html::push_html(&mut body, parser);
    body
}

/// Relies on str::replace: every non-overlapping occurrence of the pattern,
/// left to right, is replaced by the substitute; a text without the pattern
/// comes back unchanged.
#[verifier::external_body]
pub fn replace_all(text: &String, pat: &str, sub: &str) -> (r: String)
    ensures
        r@ == replaced_of(text@, pat@, sub@),
{
    text.replace(pat, sub)
}

/// Relies on str::starts_with: true exactly when the text begins with the
/// given character.
#[verifier::external_body]
pub fn starts_with_char(text: &String, c: char) -> (r: bool)
    ensures
        r == (text@.len() > 0 && text@[0] == c),
{
    text.starts_with(c)
}

/// Relies on regex's Regex::replace with a fixed, valid pattern: the first
/// root dimension declaration `svg width="..." height="..."` is replaced by
/// `svg`; the result depends on the text alone.
#[verifier::external_body]
pub fn strip_svg_dimensions(text: &String) -> (r: String)
    ensures
        r@ == svg_dims_stripped_of(text@),
{
    let re = regex::Regex::new(r#"svg width="[0-9\.]+" height="[0-9\.]+""#).unwrap();
    re.replace(text, "svg").to_string()
}

} // verus!
