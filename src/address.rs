//! NEX addresses: host, port and selector of a fetchable target.

use vstd::prelude::*;

use crate::text::push_char;
use crate::url_ref::{resolve_spec, url_parse_of, UrlRef, UrlView};

verus! {

/// The port used where an address names none.
pub const DEFAULT_PORT: u16 = 1900;

/// The scheme token of the protocol.
pub open spec fn nex_scheme() -> Seq<char> {
    seq!['n', 'e', 'x']
}

/// The selector sent where an address has an empty path.
pub open spec fn root_selector() -> Seq<char> {
    seq!['/']
}

/// A text could not be taken as a NEX address.
#[derive(Debug, PartialEq, Eq, Structural)]
pub struct TryFromStringError;

/// A validated NEX address.
#[derive(Debug)]
pub struct NexUrl {
    host: String,
    port: u16,
    selector: String,
}

/// The mathematical value of a [`NexUrl`].
pub ghost struct AddressView {
    pub host: Seq<char>,
    pub port: u16,
    pub selector: Seq<char>,
}

impl View for NexUrl {
    type V = AddressView;

    closed spec fn view(&self) -> AddressView {
        AddressView { host: self.host@, port: self.port, selector: self.selector@ }
    }
}

impl Clone for NexUrl {
    fn clone(&self) -> (r: NexUrl)
        ensures
            r@ == self@,
    {
        NexUrl { host: self.host.clone(), port: self.port, selector: self.selector.clone() }
    }
}

/// The NEX address that a parsed URL stands for: only a URL of the protocol's
/// own scheme with a non-empty host is one. The port defaults to
/// [`DEFAULT_PORT`], an empty path to `/`.
pub open spec fn nex_of(u: UrlView) -> Option<AddressView> {
    if u.scheme == nex_scheme() && u.host is Some && u.host->0.len() > 0 {
        Some(
            AddressView {
                host: u.host->0,
                port: match u.port {
                    Some(p) => p,
                    None => DEFAULT_PORT,
                },
                selector: if u.path.len() == 0 {
                    root_selector()
                } else {
                    u.path
                },
            },
        )
    } else {
        None
    }
}

/// The NEX address that a text stands for, if any.
pub open spec fn parse_spec(s: Seq<char>) -> Option<AddressView> {
    match url_parse_of(s) {
        Some(u) => nex_of(u),
        None => None,
    }
}

/// Every text that parses as an address and names no port gets the default
/// port.
pub proof fn default_port_law(s: Seq<char>)
    requires
        url_parse_of(s) matches Some(u) && u.port is None,
        parse_spec(s) is Some,
    ensures
        parse_spec(s)->0.port == DEFAULT_PORT,
{
}

/// A text that does not parse as a URL of the protocol's own scheme is no
/// address.
pub proof fn other_scheme_law(s: Seq<char>)
    requires
        !(url_parse_of(s) matches Some(u) && u.scheme == nex_scheme()),
    ensures
        parse_spec(s) is None,
{
}

/// Resolving the text of an absolute URL against any base gives that URL
/// back, so that the address it stands for is the one its text parses to.
pub proof fn resolve_absolute_law(base: Seq<char>, target: Seq<char>)
    requires
        url_parse_of(target) is Some,
    ensures
        resolve_spec(base, target) == url_parse_of(target),
        nex_of(resolve_spec(base, target)->0) == parse_spec(target),
{
}

pub open spec fn result_view(r: Result<NexUrl, TryFromStringError>) -> Option<AddressView> {
    match r {
        Ok(a) => Some(a@),
        Err(_) => None,
    }
}

fn is_nex_scheme(s: &String) -> (r: bool)
    ensures
        r == (s@ == nex_scheme()),
{
    let t = s.as_str();
    if t.unicode_len() != 3 {
        return false;
    }
    let r = t.get_char(0) == 'n' && t.get_char(1) == 'e' && t.get_char(2) == 'x';
    assert(r ==> s@ =~= nex_scheme());
    r
}

impl NexUrl {
    /// The host to connect to.
    pub fn host(&self) -> (r: &str)
        ensures
            r@ == self@.host,
    {
        self.host.as_str()
    }

    /// The port to connect to.
    pub fn port(&self) -> (r: u16)
        ensures
            r == self@.port,
    {
        self.port
    }

    /// The selector sent as the request line.
    pub fn selector(&self) -> (r: &str)
        ensures
            r@ == self@.selector,
    {
        self.selector.as_str()
    }

    /// The NEX address of a parsed URL; an error where its scheme is not the
    /// protocol's or it has no host.
    pub fn from_url(u: &UrlRef) -> (r: Result<NexUrl, TryFromStringError>)
        ensures
            result_view(r) == nex_of(u@),
    {
        if !is_nex_scheme(&u.scheme) {
            return Err(TryFromStringError);
        }
        match &u.host {
            None => Err(TryFromStringError),
            Some(h) if h.as_str().unicode_len() == 0 => Err(TryFromStringError),
            Some(h) => {
                let port = match u.port {
                    Some(p) => p,
                    None => DEFAULT_PORT,
                };
                let selector = if u.path.as_str().unicode_len() == 0 {
                    let mut s = String::new();
                    push_char(&mut s, '/');
                    assert(s@ =~= root_selector());
                    s
                } else {
                    u.path.clone()
                };
                Ok(NexUrl { host: h.clone(), port, selector })
            },
        }
    }

    /// Parses an address text of the form `nex://host[:port][/path]`.
    pub fn parse(s: &str) -> (r: Result<NexUrl, TryFromStringError>)
        ensures
            result_view(r) == parse_spec(s@),
    {
        match UrlRef::parse(s) {
            Some(u) => NexUrl::from_url(&u),
            None => Err(TryFromStringError),
        }
    }
}

impl<'a> TryFrom<&'a str> for NexUrl {
    type Error = TryFromStringError;

    fn try_from(value: &'a str) -> (r: Result<NexUrl, TryFromStringError>)
        ensures
            result_view(r) == parse_spec(value@),
    {
        NexUrl::parse(value)
    }
}

impl<'a> vstd::std_specs::convert::TryFromSpecImpl<&'a str> for NexUrl {
    open spec fn obeys_try_from_spec() -> bool {
        false
    }

    open spec fn try_from_spec(v: &'a str) -> Result<NexUrl, TryFromStringError> {
        arbitrary()
    }
}

} // verus!
