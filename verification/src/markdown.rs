//! Normalization of embedded documentation markup into canonical text.
//!
//! Raw documentation strings may carry HTML markup. Normalizing converts
//! them once, at the decode boundary, into canonical markdown text held by
//! [`Markdown`]; a `Markdown` value is therefore always canonical, and
//! normalizing it again returns it unchanged. Normalization never fails:
//! malformed markup degrades to a best-effort plain-text rendering.

use vstd::prelude::*;

verus! {

/// The canonical markdown rendering of a character sequence; determined by
/// the input characters alone.
pub uninterp spec fn html_to_md(s: Seq<char>) -> Seq<char>;

/// Relies on `html2md::parse_html`: it parses the given text as HTML and
/// renders it as markdown, a total conversion whose result depends on the
/// input characters alone.
#[verifier::external_body]
fn parse_html(s: &str) -> (r: String)
    ensures
        r@ == html_to_md(s@),
{
    html2md::parse_html(s)
}

/// Canonical documentation text, produced by normalizing raw markup once.
#[derive(Debug, PartialEq)]
pub struct Markdown(pub String);

impl View for Markdown {
    type V = Seq<char>;

    open spec fn view(&self) -> Seq<char> {
        self.0@
    }
}

impl Markdown {
    /// Normalizes raw documentation text: embedded HTML markup becomes
    /// canonical markdown text.
    pub fn from(s: String) -> (r: Markdown)
        ensures
            r@ == html_to_md(s@),
    {
        Markdown(parse_html(s.as_str()))
    }

    /// Normalization is idempotent: a `Markdown` already holds canonical
    /// text, so normalizing it again returns it unchanged.
    pub fn normalize(&self) -> (r: Markdown)
        ensures
            r == *self,
    {
        Markdown(self.0.clone())
    }

    /// The canonical text.
    pub fn as_str(&self) -> (r: &str)
        ensures
            r@ == self@,
    {
        self.0.as_str()
    }
}

} // verus!
