//! Opaque references to remote federated objects, and the domain
//! (authority) of a reference, which the anti-spoofing check compares.

use vstd::prelude::*;

use crate::text::str_eq;

verus! {

/// An opaque, dereferenceable identifier for a remote object (an actor,
/// a collection, a post or comment). Its identity is the canonical
/// identifier string alone, never fetched content; values are created at
/// decode time and immutable afterwards.
#[derive(Clone, Debug, PartialEq, Eq)]
pub struct RemoteRef {
    /// The canonical identifier: a URL in its textual form.
    pub url: String,
}

impl View for RemoteRef {
    type V = Seq<char>;

    open spec fn view(&self) -> Seq<char> {
        self.url@
    }
}

impl RemoteRef {
    /// Two references denote the same remote object exactly when their
    /// canonical identifier strings are equal.
    pub fn same_ref(&self, other: &RemoteRef) -> (r: bool)
        ensures
            r == (self@ == other@),
    {
        str_eq(self.url.as_str(), other.url.as_str())
    }
}

/// The view of an optional remote reference.
pub open spec fn opt_ref_view(o: Option<RemoteRef>) -> Option<Seq<char>> {
    match o {
        Some(r) => Some(r@),
        None => None,
    }
}

/// The domain a URL text carries: `Some` of the host name when the text
/// parses as a URL whose host is a domain name, `None` otherwise (an IP
/// address host, a URL without a host, or text that is no URL at all).
/// Computed by the `url` crate; a function of the text alone.
pub uninterp spec fn domain_of(url: Seq<char>) -> Option<Seq<char>>;

/// Relies on `url::Url::parse` and `url::Url::domain`: parsing is a pure
/// function of the text, and `domain` returns the parsed host exactly
/// when that host is a domain name rather than an IP address or absent.
#[verifier::external_body]
pub fn parse_domain(url: &str) -> (r: Option<String>)
    ensures
        r is Some <==> domain_of(url@) is Some,
        (match r {
            Some(d) => domain_of(url@) == Some(d@),
            None => domain_of(url@) is None,
        }),
{
    match url::Url::parse(url) {
        Ok(u) => u.domain().map(|d| d.to_string()),
        Err(_) => None,
    }
}

/// Equality of two optional strings, compared character-exactly.
pub fn opt_str_eq(a: &Option<String>, b: &Option<String>) -> (r: bool)
    ensures
        r == (crate::text::opt_str_view(*a) == crate::text::opt_str_view(*b)),
{
    match (a, b) {
        (Some(x), Some(y)) => str_eq(x.as_str(), y.as_str()),
        (None, None) => true,
        _ => false,
    }
}

} // verus!
