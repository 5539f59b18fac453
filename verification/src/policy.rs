//! The fixed security policy: allowed schemes and methods, blocked host
//! literals, blocked CIDR ranges, blocked ports, and the resource limits of
//! the two executors. Everything here is pure; the policy tables are spec
//! functions mirrored exactly by the executable checks that use them.

use vstd::prelude::*;

verus! {

/// Redirect cap of the general request executor.
pub const REDIRECT_LIMIT: usize = 5;

/// Overall timeout of the general request executor, in seconds.
pub const TIMEOUT_SECS: u64 = 30;

/// Response-body ceiling of the general request executor: 10 MB.
pub const MAX_BODY_BYTES: usize = 10 * 1024 * 1024;

/// Redirect cap of the specification fetcher.
pub const SPEC_REDIRECT_LIMIT: usize = 3;

/// Timeout of the specification fetcher, in seconds.
pub const SPEC_TIMEOUT_SECS: u64 = 15;

/// Body ceiling of the specification fetcher: 5 MB.
pub const MAX_SPEC_BYTES: usize = 5 * 1024 * 1024;

/// A host that parsed as a literal IP address, as a plain integer value:
/// an IPv4 address as its 32-bit value, an IPv6 address as its 128-bit value.
#[derive(Clone, Copy, Debug, PartialEq, Eq, Structural)]
pub enum IpLit {
    V4(u32),
    V6(u128),
}

/// Only `http` and `https` may leave the gateway.
pub open spec fn is_allowed_scheme(s: Seq<char>) -> bool {
    s == "http"@ || s == "https"@
}

/// The fixed denylist of cloud-metadata host literals, compared as exact
/// strings against the host as the URL parser serializes it.
pub open spec fn is_blocked_host_literal(h: Seq<char>) -> bool {
    ||| h == "169.254.169.254"@
    ||| h == "metadata.google.internal"@
    ||| h == "fd00:ec2::254"@
    ||| h == "100.100.100.200"@
}

/// The fixed denylist of dangerous ports.
pub open spec fn is_blocked_port(p: u16) -> bool {
    ||| p == 22
    ||| p == 23
    ||| p == 25
    ||| p == 110
    ||| p == 143
    ||| p == 3306
    ||| p == 5432
    ||| p == 6379
    ||| p == 27017
}

/// Membership of an IPv4 address in the blocked CIDR ranges. Each disjunct
/// compares the address's leading prefix bits, which is exactly membership
/// in the corresponding block (see `lemma_v4_prefix_is_range`):
/// `10.0.0.0/8`, `172.16.0.0/12`, `192.168.0.0/16`, `127.0.0.0/8`,
/// `169.254.0.0/16`, `100.64.0.0/10`, `198.51.100.0/24`, `203.0.113.0/24`.
pub open spec fn in_blocked_v4_range(ip: u32) -> bool {
    ||| ip >> 24 == 0x0Au32
    ||| ip >> 20 == 0xAC1u32
    ||| ip >> 16 == 0xC0A8u32
    ||| ip >> 24 == 0x7Fu32
    ||| ip >> 16 == 0xA9FEu32
    ||| ip >> 22 == 0x191u32
    ||| ip >> 8 == 0xC63364u32
    ||| ip >> 8 == 0xCB0071u32
}

/// Membership of an IPv6 address in the blocked CIDR ranges:
/// `::1/128` (loopback), `fc00::/7` (unique local), `fe80::/10` (link-local).
pub open spec fn in_blocked_v6_range(ip: u128) -> bool {
    ||| ip == 1u128
    ||| ip >> 121 == 0x7Eu128
    ||| ip >> 118 == 0x3FAu128
}

/// A literal IP host is blocked when it lies in any blocked CIDR range.
pub open spec fn ip_blocked(ip: IpLit) -> bool {
    match ip {
        IpLit::V4(a) => in_blocked_v4_range(a),
        IpLit::V6(a) => in_blocked_v6_range(a),
    }
}

/// The CIDR notation of the blocked range an IPv4 address falls in, in the
/// order the ranges are tried; the empty string when it is in none.
pub open spec fn blocked_v4_label(ip: u32) -> Seq<char> {
    if ip >> 24 == 0x0Au32 {
        "10.0.0.0/8"@
    } else if ip >> 20 == 0xAC1u32 {
        "172.16.0.0/12"@
    } else if ip >> 16 == 0xC0A8u32 {
        "192.168.0.0/16"@
    } else if ip >> 24 == 0x7Fu32 {
        "127.0.0.0/8"@
    } else if ip >> 16 == 0xA9FEu32 {
        "169.254.0.0/16"@
    } else if ip >> 22 == 0x191u32 {
        "100.64.0.0/10"@
    } else if ip >> 8 == 0xC63364u32 {
        "198.51.100.0/24"@
    } else if ip >> 8 == 0xCB0071u32 {
        "203.0.113.0/24"@
    } else {
        Seq::empty()
    }
}

/// The CIDR notation of the blocked range an IPv6 address falls in.
pub open spec fn blocked_v6_label(ip: u128) -> Seq<char> {
    if ip == 1u128 {
        "::1/128"@
    } else if ip >> 121 == 0x7Eu128 {
        "fc00::/7"@
    } else if ip >> 118 == 0x3FAu128 {
        "fe80::/10"@
    } else {
        Seq::empty()
    }
}

/// The CIDR notation of the blocked range a literal IP falls in.
pub open spec fn blocked_ip_label(ip: IpLit) -> Seq<char> {
    match ip {
        IpLit::V4(a) => blocked_v4_label(a),
        IpLit::V6(a) => blocked_v6_label(a),
    }
}

/// The allowed HTTP methods, checked after upper-casing.
pub open spec fn is_allowed_method(m: Seq<char>) -> bool {
    ||| m == "GET"@
    ||| m == "POST"@
    ||| m == "PUT"@
    ||| m == "PATCH"@
    ||| m == "DELETE"@
    ||| m == "HEAD"@
    ||| m == "OPTIONS"@
}

/// A character legal in a header name: the RFC 7230 token characters
/// `! # $ % & ' * + - . ^ _ ` | ~`, digits and ASCII letters. This is the
/// exact set the wire protocol accepts for names; anything else (spaces,
/// control characters, separators) could corrupt or split the header line.
pub open spec fn is_header_name_char(c: char) -> bool {
    let u = c as u32;
    ||| u == 33
    ||| (35 <= u && u <= 39)
    ||| u == 42
    ||| u == 43
    ||| u == 45
    ||| u == 46
    ||| (48 <= u && u <= 57)
    ||| (65 <= u && u <= 90)
    ||| (94 <= u && u <= 96)
    ||| (97 <= u && u <= 122)
    ||| u == 124
    ||| u == 126
}

/// A character legal in a header value: horizontal tab or anything at or
/// above the space that is not DELETE. In particular no carriage return or
/// line feed, so a value can never inject a second header line.
pub open spec fn is_header_value_char(c: char) -> bool {
    let u = c as u32;
    u == 9 || (u >= 32 && u != 127)
}

/// A syntactically legal header name: nonempty, token characters only.
pub open spec fn header_name_ok(s: Seq<char>) -> bool {
    s.len() > 0 && forall|i: int| 0 <= i < s.len() ==> is_header_name_char(#[trigger] s[i])
}

/// A syntactically legal header value.
pub open spec fn header_value_ok(s: Seq<char>) -> bool {
    forall|i: int| 0 <= i < s.len() ==> is_header_value_char(#[trigger] s[i])
}

/// A header pair passes when both its name and its value are legal.
pub open spec fn header_pair_ok(p: (String, String)) -> bool {
    header_name_ok(p.0@) && header_value_ok(p.1@)
}

/// Every header pair of a request passes.
pub open spec fn headers_ok(hs: Seq<(String, String)>) -> bool {
    forall|i: int| 0 <= i < hs.len() ==> header_pair_ok(#[trigger] hs[i])
}

/// How the validator judges the parsed parts of a URL, checked in order:
/// scheme, host presence, metadata host literal, literal IP ranges, port.
#[derive(PartialEq, Eq, Structural)]
pub enum Verdict {
    Accept,
    RejectMalformed,
    RejectScheme,
    RejectNoHost,
    RejectMetadataHost,
    RejectPrivateIp,
    RejectPort,
}

/// The validation policy on the parsed parts of a URL: the scheme as the
/// parser normalized it, the host exactly as the parser serializes it (IPv6
/// hosts between brackets), the literal IP value if the host is one, and the
/// explicit port if the URL carries one.
pub open spec fn policy_verdict(
    scheme: Seq<char>,
    host: Option<Seq<char>>,
    ip: Option<IpLit>,
    port: Option<u16>,
) -> Verdict {
    if !is_allowed_scheme(scheme) {
        Verdict::RejectScheme
    } else {
        match host {
            None => Verdict::RejectNoHost,
            Some(h) => {
                if is_blocked_host_literal(h) {
                    Verdict::RejectMetadataHost
                } else if ip matches Some(i) && ip_blocked(i) {
                    Verdict::RejectPrivateIp
                } else if port matches Some(p) && is_blocked_port(p) {
                    Verdict::RejectPort
                } else {
                    Verdict::Accept
                }
            },
        }
    }
}

/// The prefix comparisons of `in_blocked_v4_range` are exactly membership in
/// the eight IPv4 CIDR blocks of the policy, written as address ranges.
pub proof fn lemma_v4_prefix_is_range(ip: u32)
    ensures
        (ip >> 24 == 0x0Au32) <==> (0x0A000000u32 <= ip <= 0x0AFFFFFFu32),
        (ip >> 20 == 0xAC1u32) <==> (0xAC100000u32 <= ip <= 0xAC1FFFFFu32),
        (ip >> 16 == 0xC0A8u32) <==> (0xC0A80000u32 <= ip <= 0xC0A8FFFFu32),
        (ip >> 24 == 0x7Fu32) <==> (0x7F000000u32 <= ip <= 0x7FFFFFFFu32),
        (ip >> 16 == 0xA9FEu32) <==> (0xA9FE0000u32 <= ip <= 0xA9FEFFFFu32),
        (ip >> 22 == 0x191u32) <==> (0x64400000u32 <= ip <= 0x647FFFFFu32),
        (ip >> 8 == 0xC63364u32) <==> (0xC6336400u32 <= ip <= 0xC63364FFu32),
        (ip >> 8 == 0xCB0071u32) <==> (0xCB007100u32 <= ip <= 0xCB0071FFu32),
{
    assert((ip >> 24 == 0x0Au32) <==> (0x0A000000u32 <= ip <= 0x0AFFFFFFu32)) by (bit_vector);
    assert((ip >> 20 == 0xAC1u32) <==> (0xAC100000u32 <= ip <= 0xAC1FFFFFu32)) by (bit_vector);
    assert((ip >> 16 == 0xC0A8u32) <==> (0xC0A80000u32 <= ip <= 0xC0A8FFFFu32)) by (bit_vector);
    assert((ip >> 24 == 0x7Fu32) <==> (0x7F000000u32 <= ip <= 0x7FFFFFFFu32)) by (bit_vector);
    assert((ip >> 16 == 0xA9FEu32) <==> (0xA9FE0000u32 <= ip <= 0xA9FEFFFFu32)) by (bit_vector);
    assert((ip >> 22 == 0x191u32) <==> (0x64400000u32 <= ip <= 0x647FFFFFu32)) by (bit_vector);
    assert((ip >> 8 == 0xC63364u32) <==> (0xC6336400u32 <= ip <= 0xC63364FFu32)) by (bit_vector);
    assert((ip >> 8 == 0xCB0071u32) <==> (0xCB007100u32 <= ip <= 0xCB0071FFu32)) by (bit_vector);
}

/// The prefix comparisons of `in_blocked_v6_range` are exactly membership in
/// the three IPv6 CIDR blocks of the policy, written as address ranges.
pub proof fn lemma_v6_prefix_is_range(ip: u128)
    ensures
        (ip >> 121 == 0x7Eu128) <==> (0xfc000000000000000000000000000000u128 <= ip
            <= 0xfdffffffffffffffffffffffffffffffu128),
        (ip >> 118 == 0x3FAu128) <==> (0xfe800000000000000000000000000000u128 <= ip
            <= 0xfebfffffffffffffffffffffffffffffu128),
{
    assert((ip >> 121 == 0x7Eu128) <==> (0xfc000000000000000000000000000000u128 <= ip
        <= 0xfdffffffffffffffffffffffffffffffu128)) by (bit_vector);
    assert((ip >> 118 == 0x3FAu128) <==> (0xfe800000000000000000000000000000u128 <= ip
        <= 0xfebfffffffffffffffffffffffffffffu128)) by (bit_vector);
}

/// Checks a port against the blocked-port denylist.
pub fn port_is_blocked(p: u16) -> (r: bool)
    ensures
        r == is_blocked_port(p),
{
    p == 22 || p == 23 || p == 25 || p == 110 || p == 143 || p == 3306 || p == 5432 || p == 6379
        || p == 27017
}

} // verus!
