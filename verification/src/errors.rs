//! The error taxonomy of the gateway. Every failure of validation,
//! execution or fetching is one of these variants; none is retried and none
//! is downgraded to a default value. The variants carry the data a caller
//! needs to render a human-readable message.

use vstd::prelude::*;

use crate::policy::IpLit;

verus! {

/// Everything that can go wrong in the gateway, in the order the pipeline
/// can hit it. The first six variants are validation errors, detected before
/// any network I/O and fully determined by the input; the rest depend on the
/// live response.
#[derive(Debug)]
pub enum GatewayError {
    /// The URL string did not parse; carries the parser's message.
    InvalidUrl(String),
    /// The scheme is not `http` or `https`; carries the scheme.
    DisallowedScheme(String),
    /// The URL has no host.
    NoHost,
    /// The host is a cloud-metadata endpoint literal; carries the host.
    BlockedMetadataHost(String),
    /// The host is a literal IP in a blocked range; carries the IP and the
    /// CIDR notation of the matching range.
    BlockedPrivateIp(IpLit, String),
    /// The URL names an explicitly blocked port.
    BlockedPort(u16),
    /// The method is not in the allowed set; carries the method as given.
    DisallowedMethod(String),
    /// A header name or value is not legal on the wire; carries the name.
    InvalidHeader(String),
    /// The transport failed (DNS, connect, TLS, timeout); carries the cause.
    RequestFailed(String),
    /// The response body exceeds the operation's size ceiling.
    ResponseTooLarge,
    /// The fetched specification answered with a non-success status.
    FetchFailed(u16),
    /// The fetched specification is not valid UTF-8.
    InvalidEncoding,
}

} // verus!
