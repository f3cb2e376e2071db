//! Turns link text found on a page into absolute URLs.

use vstd::prelude::*;
use vstd::string::StringExecFns;

verus! {

/// The serialization of the URL that `url::Url::parse` reads from `s`, or
/// `None` where `s` is no absolute URL.
pub uninterp spec fn parsed_url(s: Seq<char>) -> Option<Seq<char>>;

/// The serialization of the URL that `url::Url::join` yields for `path`
/// against the URL serialized as `base`, or `None` where either fails to parse.
pub uninterp spec fn joined_url(base: Seq<char>, path: Seq<char>) -> Option<Seq<char>>;

/// `s` is a legal absolute URL in normal form: it parses, and parsing gives it
/// back unchanged.
pub open spec fn is_absolute_url(s: Seq<char>) -> bool {
    parsed_url(s) == Some(s)
}

/// The text of the base location for a bare host: the host under `http`.
pub open spec fn base_text(domain: Seq<char>) -> Seq<char> {
    "http://"@ + domain
}

/// Relies on `url::Url::parse`, and on `url::Url`'s own invariant (checked by
/// its `check_invariants`) that a URL's serialization parses back to itself.
#[verifier::external_body]
fn parse_url(s: &str) -> (r: Option<String>)
    ensures
        r is None <==> parsed_url(s@) is None,
        r matches Some(t) ==> parsed_url(s@) == Some(t@) && is_absolute_url(t@),
{
    url::Url::parse(s).ok().map(String::from)
}

/// Relies on `url::Url::join` of `path` onto the URL that `url::Url::parse`
/// reads back from `base`, and on `url::Url`'s invariant that a URL's
/// serialization parses back to itself.
#[verifier::external_body]
fn join_url(base: &str, path: &str) -> (r: Option<String>)
    ensures
        r is None <==> joined_url(base@, path@) is None,
        r matches Some(t) ==> joined_url(base@, path@) == Some(t@) && is_absolute_url(t@),
{
    match url::Url::parse(base) {
        Ok(b) => b.join(path).ok().map(String::from),
        Err(_) => None,
    }
}

/// An absolute URL, held as its serialization.
#[derive(Debug, PartialEq, Eq)]
pub struct ResolvedUrl {
    text: String,
}

impl View for ResolvedUrl {
    type V = Seq<char>;

    closed spec fn view(&self) -> Seq<char> {
        self.text@
    }
}

impl ResolvedUrl {
    #[verifier::type_invariant]
    spec fn inv(self) -> bool {
        is_absolute_url(self.text@)
    }

    /// The URL's text, which is always a legal absolute URL in normal form.
    pub fn as_str(&self) -> (r: &str)
        ensures
            r@ == self@,
            is_absolute_url(r@),
    {
        proof {
            use_type_invariant(self);
        }
        self.text.as_str()
    }
}

impl Clone for ResolvedUrl {
    fn clone(&self) -> (r: Self)
        ensures
            r@ == self@,
    {
        proof {
            use_type_invariant(self);
        }
        ResolvedUrl { text: self.text.clone() }
    }
}

/// Why link text could not be turned into a URL.
#[derive(Clone, Debug, PartialEq, Eq)]
pub enum LinkError {
    /// The host does not form a base location; carries the host text.
    InvalidBase(String),
    /// The link does not resolve against the base; carries the link text.
    Malformed(String),
}

/// The base location of a bare host, `http://<domain>`, or `None` where that
/// text is no URL.
pub fn base_location(domain: &str) -> (r: Option<ResolvedUrl>)
    ensures
        r is None <==> parsed_url(base_text(domain@)) is None,
        r matches Some(b) ==> parsed_url(base_text(domain@)) == Some(b@),
{
    let text = String::from_str("http://").concat(domain);
    match parse_url(text.as_str()) {
        Some(t) => Some(ResolvedUrl { text: t }),
        None => None,
    }
}

/// Resolves `path` against `base` by the usual rules for relative references:
/// an absolute `path` replaces the base. Where `path` does not resolve, the
/// error carries it verbatim.
pub fn resolve(base: &ResolvedUrl, path: &str) -> (r: Result<ResolvedUrl, String>)
    ensures
        match joined_url(base@, path@) {
            Some(t) => r matches Ok(u) && u@ == t,
            None => r matches Err(p) && p@ == path@,
        },
        r matches Ok(u) ==> is_absolute_url(u@),
{
    match join_url(base.as_str(), path) {
        Some(t) => Ok(ResolvedUrl { text: t }),
        None => Err(String::from_str(path)),
    }
}

/// Resolves `path` against the base location of `domain`.
pub fn build_url(domain: &str, path: &str) -> (r: Result<ResolvedUrl, LinkError>)
    ensures
        match parsed_url(base_text(domain@)) {
            None => r matches Err(LinkError::InvalidBase(d)) && d@ == domain@,
            Some(b) => match joined_url(b, path@) {
                Some(t) => r matches Ok(u) && u@ == t,
                None => r matches Err(LinkError::Malformed(p)) && p@ == path@,
            },
        },
{
    match base_location(domain) {
        None => Err(LinkError::InvalidBase(String::from_str(domain))),
        Some(base) => match resolve(&base, path) {
            Ok(u) => Ok(u),
            Err(p) => Err(LinkError::Malformed(p)),
        },
    }
}

} // verus!
