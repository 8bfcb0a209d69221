//! URLs as this library reads them: the raw text and the query component.
//!
//! Scheme, host and path are never interpreted by the dispatcher; only the
//! query component is semantically used, and the raw text is kept for
//! diagnostics.

use vstd::prelude::*;

verus! {

/// What the `url` crate finds in a URL string: `None` when the string is not
/// a valid URL, otherwise the query component, if one is present (a present
/// query may be the empty string).
pub uninterp spec fn url_query_of(s: Seq<char>) -> Option<Option<Seq<char>>>;

/// The view of an optional text value.
pub open spec fn opt_text_view(o: Option<String>) -> Option<Seq<char>> {
    match o {
        Some(t) => Some(t@),
        None => None,
    }
}

/// A URL value: the raw text and its query component.
pub struct UrlValue {
    /// The URL text, kept only for diagnostics.
    pub raw: String,
    /// The query component: present (possibly empty) or absent.
    pub query: Option<String>,
}

/// The mathematical model of a [`UrlValue`].
pub struct UrlSpec {
    pub raw: Seq<char>,
    pub query: Option<Seq<char>>,
}

impl View for UrlValue {
    type V = UrlSpec;

    open spec fn view(&self) -> UrlSpec {
        UrlSpec { raw: self.raw@, query: opt_text_view(self.query) }
    }
}

/// Relies on `url::Url::parse` and `url::Url::query`: the parse outcome and
/// the query component are functions of the input string alone.
#[verifier::external_body]
fn parse_query(s: &str) -> (r: Option<Option<String>>)
    ensures
        r is None <==> url_query_of(s@) is None,
        r matches Some(q) ==> url_query_of(s@) == Some(opt_text_view(q)),
{
    match url::Url::parse(s) {
        Ok(u) => Some(u.query().map(|q| q.to_string())),
        Err(_) => None,
    }
}

impl UrlValue {
    /// Reads a URL from text: `None` when the text is not a valid URL,
    /// otherwise the URL value whose query component is the one the text
    /// carries.
    pub fn parse(s: &str) -> (r: Option<UrlValue>)
        ensures
            r is None <==> url_query_of(s@) is None,
            r matches Some(u) ==> u@.raw == s@ && url_query_of(s@) == Some(u@.query),
    {
        match parse_query(s) {
            Some(query) => Some(UrlValue { raw: String::from_str(s), query }),
            None => None,
        }
    }
}

} // verus!
