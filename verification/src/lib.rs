//! An SSRF-hardened outbound HTTP request gateway core.
//!
//! The crate validates caller-supplied destinations against a fixed security
//! policy before any network request is made: only `http`/`https` schemes,
//! no cloud-metadata hosts, no literal IPs in private or otherwise blocked
//! CIDR ranges, and no well-known dangerous ports. Around the validator it
//! provides the pure halves of a bounded-resource request executor and of a
//! GET-only specification fetcher: method and header validation before
//! dispatch, and status, size-cap and decoding rules after it. The network
//! I/O itself lives outside this crate; callers hand the response pieces
//! back in as plain values.

pub mod errors;
pub mod fetch;
pub mod policy;
pub mod request;
pub mod urlparse;
pub mod validate;

pub use errors::GatewayError;
pub use fetch::check_spec_response;
pub use fetch::spec_accept_header;
pub use policy::IpLit;
pub use request::ApiResponse;
pub use request::PreparedRequest;
pub use request::build_api_response;
pub use request::normalize_method;
pub use request::prepare_request;
pub use validate::ValidatedUrl;
pub use validate::check_ip_allowed;
pub use validate::validate_url;
