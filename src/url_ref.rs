//! Generic URL references, parsed and joined by the `url` crate.

use vstd::prelude::*;

verus! {

/// A URL as the `url` crate parsed it, kept as plain values.
#[derive(Debug)]
pub struct UrlRef {
    /// The scheme, lower-cased, without the `:`.
    pub scheme: String,
    /// The host, if the URL has one.
    pub host: Option<String>,
    /// The explicit port, if any (a scheme's default port is never kept).
    pub port: Option<u16>,
    /// The path component.
    pub path: String,
    /// The whole serialization of the URL.
    pub text: String,
}

/// The mathematical value of a [`UrlRef`].
pub ghost struct UrlView {
    pub scheme: Seq<char>,
    pub host: Option<Seq<char>>,
    pub port: Option<u16>,
    pub path: Seq<char>,
    pub text: Seq<char>,
}

pub open spec fn opt_str_view(s: Option<String>) -> Option<Seq<char>> {
    match s {
        Some(h) => Some(h@),
        None => None,
    }
}

impl View for UrlRef {
    type V = UrlView;

    open spec fn view(&self) -> UrlView {
        UrlView {
            scheme: self.scheme@,
            host: opt_str_view(self.host),
            port: self.port,
            path: self.path@,
            text: self.text@,
        }
    }
}

impl Clone for UrlRef {
    fn clone(&self) -> (r: UrlRef)
        ensures
            r@ == self@,
    {
        let host = match &self.host {
            Some(h) => Some(h.clone()),
            None => None,
        };
        UrlRef {
            scheme: self.scheme.clone(),
            host,
            port: self.port,
            path: self.path.clone(),
            text: self.text.clone(),
        }
    }
}

pub open spec fn opt_url_view(u: Option<UrlRef>) -> Option<UrlView> {
    match u {
        Some(v) => Some(v@),
        None => None,
    }
}

/// What `url::Url::parse` makes of a text: `None` where it fails.
pub uninterp spec fn url_parse_of(s: Seq<char>) -> Option<UrlView>;

/// What `url::Url::join` makes of a relative text against the URL that the
/// base text parses to: `None` where either step fails.
pub uninterp spec fn url_join_of(base: Seq<char>, rel: Seq<char>) -> Option<UrlView>;

/// Relies on `url::Url::parse` for an absolute URL, and on the accessors
/// `scheme`, `host_str`, `port`, `path` and `as_str` of the `Url` it returns.
#[verifier::external_body]
fn parse_url(s: &str) -> (r: Option<UrlRef>)
    ensures
        opt_url_view(r) == url_parse_of(s@),
{
    match url::Url::parse(s) {
        Ok(u) => Some(UrlRef {
            scheme: u.scheme().to_string(),
            host: u.host_str().map(|h| h.to_string()),
            port: u.port(),
            path: u.path().to_string(),
            text: u.as_str().to_string(),
        }),
        Err(_) => None,
    }
}

/// Relies on `url::Url::join`: the relative text merged onto the base URL by
/// the standard URL rules. The base text is turned into a `Url` with
/// `url::Url::parse` first; the result is read with the same accessors as in
/// `parse_url`.
#[verifier::external_body]
fn join_url(base: &str, rel: &str) -> (r: Option<UrlRef>)
    ensures
        opt_url_view(r) == url_join_of(base@, rel@),
{
    match url::Url::parse(base).and_then(|b| b.join(rel)) {
        Ok(u) => Some(UrlRef {
            scheme: u.scheme().to_string(),
            host: u.host_str().map(|h| h.to_string()),
            port: u.port(),
            path: u.path().to_string(),
            text: u.as_str().to_string(),
        }),
        Err(_) => None,
    }
}

/// How a link target resolves: as an absolute URL of any scheme where it is
/// one, else joined onto the base's full text.
pub open spec fn resolve_spec(base: Seq<char>, target: Seq<char>) -> Option<UrlView> {
    match url_parse_of(target) {
        Some(u) => Some(u),
        None => url_join_of(base, target),
    }
}

impl UrlRef {
    /// Parses an absolute URL of any scheme.
    pub fn parse(s: &str) -> (r: Option<UrlRef>)
        ensures
            opt_url_view(r) == url_parse_of(s@),
    {
        parse_url(s)
    }

    /// Resolves a link target against this URL: kept as it stands where it
    /// is an absolute URL, else joined onto this URL.
    pub fn resolve(&self, target: &str) -> (r: Option<UrlRef>)
        ensures
            opt_url_view(r) == resolve_spec(self.text@, target@),
    {
        match parse_url(target) {
            Some(u) => Some(u),
            None => join_url(self.text.as_str(), target),
        }
    }
}

} // verus!
