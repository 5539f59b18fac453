//! The pure half of the specification fetcher: the GET-only executor
//! variant with the tighter limits. After the transport is done, the
//! response must have a success status, fit the 5 MB ceiling, and decode as
//! strictly valid UTF-8 — a fetched specification is parsed downstream, so
//! a silently corrupted byte must be a clear fetch error here, not a
//! replacement character.

use vstd::prelude::*;
use vstd::utf8::decode_utf8;
use vstd::utf8::valid_utf8;

use crate::errors::GatewayError;
use crate::policy::MAX_SPEC_BYTES;

verus! {

/// Relies on `String::from_utf8`: it succeeds exactly on valid UTF-8, and
/// then decodes it.
#[verifier::external_body]
fn decode_utf8_strict(bytes: Vec<u8>) -> (r: Option<String>)
    ensures
        r is Some <==> valid_utf8(bytes@),
        r matches Some(t) ==> t@ == decode_utf8(bytes@),
{
    String::from_utf8(bytes).ok()
}

/// The Accept header the fetcher sends: specification content types only.
pub fn spec_accept_header() -> (r: &'static str)
    ensures
        r@ == "application/json, application/yaml, text/yaml, text/plain, */*"@,
{
    "application/json, application/yaml, text/yaml, text/plain, */*"
}

/// Judges the response of a specification fetch: a status outside the
/// success range is a hard error carrying that status, however well-formed
/// the body; a body over the 5 MB ceiling is refused; anything not strictly
/// valid UTF-8 is refused; otherwise the decoded text is returned.
pub fn check_spec_response(status: u16, body: Vec<u8>) -> (r: Result<String, GatewayError>)
    ensures
        !(200 <= status < 300) ==> (r matches Err(GatewayError::FetchFailed(c)) && c == status),
        200 <= status < 300 && body@.len() > MAX_SPEC_BYTES ==> r matches Err(
            GatewayError::ResponseTooLarge,
        ),
        200 <= status < 300 && body@.len() <= MAX_SPEC_BYTES ==> match r {
            Ok(t) => valid_utf8(body@) && t@ == decode_utf8(body@),
            Err(e) => !valid_utf8(body@) && e matches GatewayError::InvalidEncoding,
        },
{
    if !(200 <= status && status < 300) {
        return Err(GatewayError::FetchFailed(status));
    }
    if body.len() > MAX_SPEC_BYTES {
        return Err(GatewayError::ResponseTooLarge);
    }
    match decode_utf8_strict(body) {
        Some(t) => Ok(t),
        None => Err(GatewayError::InvalidEncoding),
    }
}

} // verus!
