//! The URL validator: parses a URL string and judges it against the
//! security policy, in order — parse, scheme, host presence, metadata host
//! literal, literal-IP ranges, explicit port. Each check is a hard
//! rejection. A symbolic hostname is not resolved here: the residual risk
//! that it resolves to a private address at connect time is an accepted,
//! documented trade-off of the design.

use vstd::prelude::*;

use crate::errors::GatewayError;
use crate::policy::IpLit;
use crate::policy::Verdict;
use crate::policy::blocked_ip_label;
use crate::policy::ip_blocked;
use crate::policy::is_allowed_scheme;
use crate::policy::is_blocked_host_literal;
use crate::policy::is_blocked_port;
use crate::policy::policy_verdict;
use crate::policy::port_is_blocked;
use crate::urlparse::UrlParts;
use crate::urlparse::parse_url_parts;
use crate::urlparse::url_host_str;
use crate::urlparse::url_ip;
use crate::urlparse::url_parse_ok;
use crate::urlparse::url_port;
use crate::urlparse::url_scheme;
use crate::urlparse::url_serialization;

verus! {

/// String equality by view, for comparing parsed parts with policy strings.
pub(crate) fn str_eq(a: &str, b: &str) -> (r: bool)
    ensures
        r == (a@ == b@),
{
    let sa: String = a.to_owned();
    let sb: String = b.to_owned();
    sa == sb
}

/// How the validator judges a URL string: malformed input is rejected
/// outright, anything else by the policy on its parsed parts.
pub open spec fn validate_outcome(s: Seq<char>) -> Verdict {
    if !url_parse_ok(s) {
        Verdict::RejectMalformed
    } else {
        policy_verdict(url_scheme(s), url_host_str(s), url_ip(s), url_port(s))
    }
}

/// The error `validate_url` returns names the verdict on its input and
/// carries the offending part: the scheme, the host, the IP with its
/// matching range, or the port.
pub open spec fn error_matches_outcome(e: GatewayError, s: Seq<char>) -> bool {
    match validate_outcome(s) {
        Verdict::Accept => false,
        Verdict::RejectMalformed => e matches GatewayError::InvalidUrl(_),
        Verdict::RejectScheme => e matches GatewayError::DisallowedScheme(sch) && sch@
            == url_scheme(s),
        Verdict::RejectNoHost => e matches GatewayError::NoHost,
        Verdict::RejectMetadataHost => e matches GatewayError::BlockedMetadataHost(h) && Some(h@)
            == url_host_str(s),
        Verdict::RejectPrivateIp => e matches GatewayError::BlockedPrivateIp(i, rg) && Some(i)
            == url_ip(s) && rg@ == blocked_ip_label(i),
        Verdict::RejectPort => e matches GatewayError::BlockedPort(p) && Some(p) == url_port(s),
    }
}

/// A successfully parsed, policy-approved URL. Values of this type are only
/// constructed by [`validate_url`], so holding one is proof that its source
/// string passed every check of the policy.
pub struct ValidatedUrl {
    url: String,
    src: Ghost<Seq<char>>,
}

impl ValidatedUrl {
    /// The wrapped URL, as the parser serialized it.
    pub closed spec fn url_view(&self) -> Seq<char> {
        self.url@
    }

    /// The string the validator was given.
    pub closed spec fn source(&self) -> Seq<char> {
        self.src@
    }

    /// A validated URL exists only for a source string the policy accepts,
    /// and wraps exactly that string's parsed serialization.
    pub closed spec fn wf(&self) -> bool {
        &&& validate_outcome(self.src@) == Verdict::Accept
        &&& self.url@ == url_serialization(self.src@)
    }

    /// The validated URL as a string slice, ready to be dispatched.
    pub fn as_str(&self) -> (r: &str)
        ensures
            r@ == self.url_view(),
    {
        self.url.as_str()
    }

    /// Consumes the wrapper and hands out the validated URL string.
    pub fn into_string(self) -> (r: String)
        ensures
            r@ == self.url_view(),
    {
        self.url
    }
}

/// Checks a literal IP host against the fixed denylist of CIDR ranges; on a
/// hit, the error names the first matching range.
pub fn check_ip_allowed(ip: &IpLit) -> (r: Result<(), GatewayError>)
    ensures
        r is Ok <==> !ip_blocked(*ip),
        r matches Err(e) ==> e matches GatewayError::BlockedPrivateIp(i, rg) && i == *ip && rg@
            == blocked_ip_label(*ip),
{
    match *ip {
        IpLit::V4(a) => {
            if a >> 24u32 == 0x0A {
                Err(GatewayError::BlockedPrivateIp(*ip, "10.0.0.0/8".to_owned()))
            } else if a >> 20u32 == 0xAC1 {
                Err(GatewayError::BlockedPrivateIp(*ip, "172.16.0.0/12".to_owned()))
            } else if a >> 16u32 == 0xC0A8 {
                Err(GatewayError::BlockedPrivateIp(*ip, "192.168.0.0/16".to_owned()))
            } else if a >> 24u32 == 0x7F {
                Err(GatewayError::BlockedPrivateIp(*ip, "127.0.0.0/8".to_owned()))
            } else if a >> 16u32 == 0xA9FE {
                Err(GatewayError::BlockedPrivateIp(*ip, "169.254.0.0/16".to_owned()))
            } else if a >> 22u32 == 0x191 {
                Err(GatewayError::BlockedPrivateIp(*ip, "100.64.0.0/10".to_owned()))
            } else if a >> 8u32 == 0xC63364 {
                Err(GatewayError::BlockedPrivateIp(*ip, "198.51.100.0/24".to_owned()))
            } else if a >> 8u32 == 0xCB0071 {
                Err(GatewayError::BlockedPrivateIp(*ip, "203.0.113.0/24".to_owned()))
            } else {
                Ok(())
            }
        },
        IpLit::V6(a) => {
            if a == 1 {
                Err(GatewayError::BlockedPrivateIp(*ip, "::1/128".to_owned()))
            } else if a >> 121u128 == 0x7E {
                Err(GatewayError::BlockedPrivateIp(*ip, "fc00::/7".to_owned()))
            } else if a >> 118u128 == 0x3FA {
                Err(GatewayError::BlockedPrivateIp(*ip, "fe80::/10".to_owned()))
            } else {
                Ok(())
            }
        },
    }
}

/// Parses a URL string and judges it against the whole policy. On success
/// the parsed URL is handed back wrapped as validated; every rejection
/// reports which check failed and what it saw.
pub fn validate_url(url: &str) -> (r: Result<ValidatedUrl, GatewayError>)
    ensures
        ({
            let v = validate_outcome(url@);
            match r {
                Ok(vu) => {
                    &&& v == Verdict::Accept
                    &&& vu.wf()
                    &&& vu.source() == url@
                    &&& vu.url_view() == url_serialization(url@)
                },
                Err(e) => v != Verdict::Accept && error_matches_outcome(e, url@),
            }
        }),
{
    let parts = match parse_url_parts(url) {
        Ok(p) => p,
        Err(m) => {
            return Err(GatewayError::InvalidUrl(m));
        },
    };
    let UrlParts { scheme, host_str, ip, port, serialization } = parts;

    if !(str_eq(scheme.as_str(), "http") || str_eq(scheme.as_str(), "https")) {
        return Err(GatewayError::DisallowedScheme(scheme));
    }

    let host = match host_str {
        Some(h) => h,
        None => {
            return Err(GatewayError::NoHost);
        },
    };

    if str_eq(host.as_str(), "169.254.169.254") || str_eq(host.as_str(), "metadata.google.internal")
        || str_eq(host.as_str(), "fd00:ec2::254") || str_eq(host.as_str(), "100.100.100.200") {
        return Err(GatewayError::BlockedMetadataHost(host));
    }

    if let Some(i) = ip {
        match check_ip_allowed(&i) {
            Ok(()) => (),
            Err(e) => {
                return Err(e);
            },
        }
    }

    if let Some(p) = port {
        if port_is_blocked(p) {
            return Err(GatewayError::BlockedPort(p));
        }
    }

    Ok(ValidatedUrl { url: serialization, src: Ghost(url@) })
}

/// A URL whose scheme is not `http` or `https` is never accepted: on a
/// well-formed URL the verdict is exactly the scheme rejection.
pub proof fn lemma_rejects_disallowed_scheme(s: Seq<char>)
    requires
        !is_allowed_scheme(url_scheme(s)),
    ensures
        validate_outcome(s) != Verdict::Accept,
        url_parse_ok(s) ==> validate_outcome(s) == Verdict::RejectScheme,
{
}

/// A URL whose host is a literal IP in any blocked CIDR range is never
/// accepted, whatever its scheme or port.
pub proof fn lemma_rejects_blocked_ip(s: Seq<char>)
    requires
        url_ip(s) matches Some(i) && ip_blocked(i),
    ensures
        validate_outcome(s) != Verdict::Accept,
{
}

/// A URL whose host is one of the blocked metadata literals is never
/// accepted, even when the literal is a symbolic name no CIDR check sees.
pub proof fn lemma_rejects_metadata_host(s: Seq<char>)
    requires
        url_host_str(s) matches Some(h) && is_blocked_host_literal(h),
    ensures
        validate_outcome(s) != Verdict::Accept,
{
}

/// A URL with an explicit blocked port is never accepted, however public
/// and well-formed the rest of it is.
pub proof fn lemma_rejects_blocked_port(s: Seq<char>)
    requires
        url_port(s) matches Some(p) && is_blocked_port(p),
    ensures
        validate_outcome(s) != Verdict::Accept,
{
}

/// Completeness of the validator: a well-formed http/https URL whose host
/// is present, is no metadata literal, is no blocked literal IP, and whose
/// explicit port (if any) is not blocked, is accepted.
pub proof fn lemma_accepts_public(s: Seq<char>)
    requires
        url_parse_ok(s),
        is_allowed_scheme(url_scheme(s)),
        url_host_str(s) matches Some(h) && !is_blocked_host_literal(h),
        url_ip(s) matches Some(i) ==> !ip_blocked(i),
        url_port(s) matches Some(p) ==> !is_blocked_port(p),
    ensures
        validate_outcome(s) == Verdict::Accept,
{
}

/// A string the parser refuses — the empty string among them — is always
/// judged malformed, never anything else.
pub proof fn lemma_rejects_malformed(s: Seq<char>)
    requires
        !url_parse_ok(s),
    ensures
        validate_outcome(s) == Verdict::RejectMalformed,
{
}

} // verus!
