//! The pure halves of the request executor. Before dispatch: the method is
//! upper-cased and checked against the allowed set, and every header pair is
//! checked to be syntactically legal on the wire, so no caller value can
//! inject a header line. After dispatch: the response is assembled under the
//! body-size ceiling, with the body decoded leniently and the headers
//! flattened so that a later duplicate name overwrites an earlier one.

use std::collections::HashMap;

use vstd::prelude::*;
use vstd::string::StrSliceExecFns;
use vstd::utf8::decode_utf8;
use vstd::utf8::valid_utf8;

use crate::errors::GatewayError;
use crate::policy::MAX_BODY_BYTES;
use crate::policy::Verdict;
use crate::policy::header_name_ok;
use crate::policy::header_pair_ok;
use crate::policy::header_value_ok;
use crate::policy::headers_ok;
use crate::policy::is_allowed_method;
use crate::urlparse::url_serialization;
use crate::validate::error_matches_outcome;
use crate::validate::str_eq;
use crate::validate::validate_outcome;
use crate::validate::validate_url;

verus! {

/// The normalized response handed back to the caller: status code, status
/// reason, the response headers flattened to one value per name, the body
/// as leniently decoded text, and the measured duration in milliseconds.
#[derive(Debug)]
pub struct ApiResponse {
    pub status: u16,
    pub status_text: String,
    pub headers: HashMap<String, String>,
    pub body: String,
    pub duration_ms: u64,
}

/// A request that passed every pre-dispatch check: the URL as validated,
/// the method upper-cased, the headers as given, the body untouched.
pub struct PreparedRequest {
    pub method: String,
    pub url: String,
    pub headers: Vec<(String, String)>,
    pub body: Option<String>,
}

/// What `str::to_uppercase` returns; the result depends on the characters
/// of the input alone.
pub uninterp spec fn upper_of(s: Seq<char>) -> Seq<char>;

/// Relies on `str::to_uppercase`: the result is a function of the input's
/// characters alone.
#[verifier::external_body]
fn to_upper(s: &str) -> (r: String)
    ensures
        r@ == upper_of(s@),
{
    s.to_uppercase()
}

/// What `String::from_utf8_lossy` decodes a byte sequence to; the result
/// depends on the bytes alone.
pub uninterp spec fn utf8_lossy(bytes: Seq<u8>) -> Seq<char>;

/// Relies on `String::from_utf8_lossy`: the decoding is a function of the
/// bytes alone, never fails, and on valid UTF-8 equals the strict decoding.
#[verifier::external_body]
fn decode_lossy(bytes: &Vec<u8>) -> (r: String)
    ensures
        r@ == utf8_lossy(bytes@),
        valid_utf8(bytes@) ==> r@ == decode_utf8(bytes@),
{
    String::from_utf8_lossy(bytes.as_slice()).into_owned()
}

/// Relies on `HashMap::insert` with `String`'s standard equality and hash:
/// the entry for the key is set to the value and every other entry is kept.
#[verifier::external_body]
fn map_insert(m: &mut HashMap<String, String>, k: String, v: String)
    ensures
        final(m)@ == old(m)@.insert(k, v),
{
    m.insert(k, v);
}

/// The flat mapping a sequence of header pairs collapses to: pairs are
/// entered in order, so a later duplicate name overwrites an earlier one.
pub open spec fn headers_map(hs: Seq<(String, String)>) -> Map<String, String>
    decreases hs.len(),
{
    if hs.len() == 0 {
        Map::empty()
    } else {
        headers_map(hs.drop_last()).insert(hs.last().0, hs.last().1)
    }
}

/// Checks that a header name is nonempty and made of token characters only.
pub fn is_valid_header_name(s: &str) -> (r: bool)
    ensures
        r == header_name_ok(s@),
{
    let n = s.unicode_len();
    if n == 0 {
        return false;
    }
    let mut i: usize = 0;
    while i < n
        invariant
            n == s@.len(),
            i <= n,
            forall|j: int| 0 <= j < i ==> crate::policy::is_header_name_char(#[trigger] s@[j]),
        decreases n - i,
    {
        let c = s.get_char(i);
        let u = c as u32;
        if !(u == 33 || (35 <= u && u <= 39) || u == 42 || u == 43 || u == 45 || u == 46 || (48
            <= u && u <= 57) || (65 <= u && u <= 90) || (94 <= u && u <= 96) || (97 <= u && u
            <= 122) || u == 124 || u == 126) {
            return false;
        }
        i += 1;
    }
    true
}

/// Checks that a header value holds no control character and no line break.
pub fn is_valid_header_value(s: &str) -> (r: bool)
    ensures
        r == header_value_ok(s@),
{
    let n = s.unicode_len();
    let mut i: usize = 0;
    while i < n
        invariant
            n == s@.len(),
            i <= n,
            forall|j: int| 0 <= j < i ==> crate::policy::is_header_value_char(#[trigger] s@[j]),
        decreases n - i,
    {
        let c = s.get_char(i);
        let u = c as u32;
        if !(u == 9 || (u >= 32 && u != 127)) {
            return false;
        }
        i += 1;
    }
    true
}

/// Upper-cases a method and checks it against the allowed set; the method
/// is returned normalized, or refused exactly when its upper-cased form is
/// outside the set — so the check is case-insensitive.
pub fn normalize_method(method: &str) -> (r: Result<String, GatewayError>)
    ensures
        r is Ok <==> is_allowed_method(upper_of(method@)),
        r matches Ok(u) ==> u@ == upper_of(method@),
        r matches Err(e) ==> e matches GatewayError::DisallowedMethod(m) && m@ == method@,
{
    let upper = to_upper(method);
    if str_eq(upper.as_str(), "GET") || str_eq(upper.as_str(), "POST") || str_eq(
        upper.as_str(),
        "PUT",
    ) || str_eq(upper.as_str(), "PATCH") || str_eq(upper.as_str(), "DELETE") || str_eq(
        upper.as_str(),
        "HEAD",
    ) || str_eq(upper.as_str(), "OPTIONS") {
        Ok(upper)
    } else {
        Err(GatewayError::DisallowedMethod(method.to_owned()))
    }
}

/// Runs every pre-dispatch check of the executor in order — URL policy,
/// method, headers — and hands back the request ready to dispatch. The
/// headers and body pass through unchanged; a rejected request reports the
/// first check that failed, and for a bad header pair the first offending
/// key.
pub fn prepare_request(
    method: &str,
    url: &str,
    headers: Vec<(String, String)>,
    body: Option<String>,
) -> (r: Result<PreparedRequest, GatewayError>)
    ensures
        ({
            let vo = validate_outcome(url@);
            match r {
                Ok(p) => {
                    &&& vo == Verdict::Accept
                    &&& is_allowed_method(upper_of(method@))
                    &&& headers_ok(headers@)
                    &&& p.method@ == upper_of(method@)
                    &&& p.url@ == url_serialization(url@)
                    &&& p.headers == headers
                    &&& p.body == body
                },
                Err(e) => match e {
                    GatewayError::DisallowedMethod(m) => {
                        &&& vo == Verdict::Accept
                        &&& !is_allowed_method(upper_of(method@))
                        &&& m@ == method@
                    },
                    GatewayError::InvalidHeader(k) => {
                        &&& vo == Verdict::Accept
                        &&& is_allowed_method(upper_of(method@))
                        &&& exists|i: int|
                            0 <= i < headers@.len() && !header_pair_ok(#[trigger] headers@[i])
                                && k@ == headers@[i].0@ && (forall|j: int|
                                0 <= j < i ==> header_pair_ok(#[trigger] headers@[j]))
                    },
                    _ => vo != Verdict::Accept && error_matches_outcome(e, url@),
                },
            }
        }),
{
    let validated = match validate_url(url) {
        Ok(v) => v,
        Err(e) => {
            return Err(e);
        },
    };
    let upper = match normalize_method(method) {
        Ok(m) => m,
        Err(e) => {
            return Err(e);
        },
    };

    let n = headers.len();
    let mut i: usize = 0;
    while i < n
        invariant
            n == headers@.len(),
            i <= n,
            forall|j: int| 0 <= j < i ==> header_pair_ok(#[trigger] headers@[j]),
            validate_outcome(url@) == Verdict::Accept,
            validated.url_view() == url_serialization(url@),
            upper@ == upper_of(method@),
            is_allowed_method(upper_of(method@)),
        decreases n - i,
    {
        if !is_valid_header_name(headers[i].0.as_str()) {
            return Err(GatewayError::InvalidHeader(headers[i].0.clone()));
        }
        if !is_valid_header_value(headers[i].1.as_str()) {
            return Err(GatewayError::InvalidHeader(headers[i].0.clone()));
        }
        i += 1;
    }

    Ok(PreparedRequest { method: upper, url: validated.into_string(), headers, body })
}

/// Assembles the normalized response once the transport is done: enforces
/// the 10 MB body ceiling, decodes the body leniently (invalid sequences
/// replaced, never an error), falls back to `"Unknown"` when the protocol
/// stack has no canonical reason for the status, and flattens the response
/// headers with later duplicates overwriting earlier ones.
pub fn build_api_response(
    status: u16,
    reason: Option<String>,
    headers: Vec<(String, String)>,
    body_bytes: Vec<u8>,
    duration_ms: u64,
) -> (r: Result<ApiResponse, GatewayError>)
    ensures
        match r {
            Ok(a) => {
                &&& body_bytes@.len() <= MAX_BODY_BYTES
                &&& a.status == status
                &&& a.duration_ms == duration_ms
                &&& a.status_text@ == (match reason {
                    Some(t) => t@,
                    None => "Unknown"@,
                })
                &&& a.body@ == utf8_lossy(body_bytes@)
                &&& a.headers@ == headers_map(headers@)
            },
            Err(e) => body_bytes@.len() > MAX_BODY_BYTES && e matches GatewayError::ResponseTooLarge,
        },
{
    if body_bytes.len() > MAX_BODY_BYTES {
        return Err(GatewayError::ResponseTooLarge);
    }
    let body = decode_lossy(&body_bytes);
    let status_text = match reason {
        Some(t) => t,
        None => "Unknown".to_owned(),
    };

    let mut flat: HashMap<String, String> = HashMap::new();
    let n = headers.len();
    let mut i: usize = 0;
    while i < n
        invariant
            n == headers@.len(),
            i <= n,
            flat@ == headers_map(headers@.take(i as int)),
        decreases n - i,
    {
        let k = headers[i].0.clone();
        let v = headers[i].1.clone();
        map_insert(&mut flat, k, v);
        proof {
            assert(headers@.take(i + 1).drop_last() =~= headers@.take(i as int));
            assert(headers@.take(i + 1).last() == headers@[i as int]);
        }
        i += 1;
    }
    proof {
        assert(headers@.take(n as int) =~= headers@);
    }

    Ok(ApiResponse { status, status_text, headers: flat, body, duration_ms })
}

} // verus!
