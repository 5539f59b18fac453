//! The boundary to the URL parser. A URL string is parsed once, by
//! `url::Url::parse`, and everything the policy reads is brought over as
//! plain values in [`UrlParts`]. Parsing is a deterministic function of the
//! input string alone, so its result is given names — uninterpreted spec
//! functions — that the validator's contracts are stated over.

use vstd::prelude::*;

use crate::policy::IpLit;

verus! {

/// What the URL parser found, as plain values: the scheme as the parser
/// normalized it (lowercase), the host exactly as the parser serializes it
/// (IPv6 addresses between `[` and `]` brackets), the host's value when it
/// is a literal IP address, the explicit port if any (a port equal to the
/// scheme's default counts as absent), and the parser's serialization of the
/// whole URL.
pub struct UrlParts {
    pub scheme: String,
    pub host_str: Option<String>,
    pub ip: Option<IpLit>,
    pub port: Option<u16>,
    pub serialization: String,
}

/// Whether `url::Url::parse` accepts the string as an absolute URL.
pub uninterp spec fn url_parse_ok(s: Seq<char>) -> bool;

/// The scheme of the parsed URL, as the parser normalized it.
pub uninterp spec fn url_scheme(s: Seq<char>) -> Seq<char>;

/// The host of the parsed URL as the parser serializes it, if present.
pub uninterp spec fn url_host_str(s: Seq<char>) -> Option<Seq<char>>;

/// The host of the parsed URL as a literal IP value, when it is one.
pub uninterp spec fn url_ip(s: Seq<char>) -> Option<IpLit>;

/// The explicit port of the parsed URL, if it carries one.
pub uninterp spec fn url_port(s: Seq<char>) -> Option<u16>;

/// The parser's serialization of the parsed URL.
pub uninterp spec fn url_serialization(s: Seq<char>) -> Seq<char>;

/// The view of an optional owned string.
pub open spec fn opt_view(o: Option<String>) -> Option<Seq<char>> {
    match o {
        Some(s) => Some(s@),
        None => None,
    }
}

/// Relies on `url::Url::parse` and the accessors of the parsed URL:
/// `scheme`, `host_str`, `host`, `port` and `as_str`. Parsing is
/// deterministic, so the pieces of its result equal the named spec
/// functions; on failure the parser's message is returned, prefixed as the
/// gateway reports invalid URLs. `url::Host` distinguishes domain hosts
/// from literal IPv4/IPv6 hosts, whose integer values `u32`/`u128` carry.
#[verifier::external_body]
pub(crate) fn parse_url_parts(s: &str) -> (r: Result<UrlParts, String>)
    ensures
        r is Ok <==> url_parse_ok(s@),
        r matches Ok(p) ==> {
            &&& p.scheme@ == url_scheme(s@)
            &&& opt_view(p.host_str) == url_host_str(s@)
            &&& p.ip == url_ip(s@)
            &&& p.port == url_port(s@)
            &&& p.serialization@ == url_serialization(s@)
        },
{
    match url::Url::parse(s) {
        Ok(u) => Ok(UrlParts {
            scheme: u.scheme().to_string(),
            host_str: u.host_str().map(|h| h.to_string()),
            ip: match u.host() {
                Some(url::Host::Ipv4(a)) => Some(IpLit::V4(u32::from(a))),
                Some(url::Host::Ipv6(a)) => Some(IpLit::V6(u128::from(a))),
                _ => None,
            },
            port: u.port(),
            serialization: u.as_str().to_string(),
        }),
        Err(e) => Err(format!("Invalid URL: {e}")),
    }
}

} // verus!
