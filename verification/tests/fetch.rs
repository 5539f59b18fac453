use ssrf_gateway::GatewayError;
use ssrf_gateway::check_spec_response;
use ssrf_gateway::spec_accept_header;

const FIVE_MB: usize = 5 * 1024 * 1024;

#[test]
fn success_status_with_text_body_is_returned() {
    let r = check_spec_response(200, b"openapi: 3.0.0".to_vec());
    assert_eq!(r.unwrap_or_else(|_| panic!("accepted")), "openapi: 3.0.0");
}

#[test]
fn non_success_status_is_a_hard_error_even_with_a_good_body() {
    let r = check_spec_response(404, b"{\"openapi\":\"3.0.0\"}".to_vec());
    assert!(matches!(r, Err(GatewayError::FetchFailed(404))));
}

#[test]
fn redirect_status_is_not_success() {
    assert!(matches!(
        check_spec_response(301, Vec::new()),
        Err(GatewayError::FetchFailed(301))
    ));
    assert!(matches!(
        check_spec_response(199, Vec::new()),
        Err(GatewayError::FetchFailed(199))
    ));
}

#[test]
fn whole_success_range_is_accepted() {
    assert!(check_spec_response(200, Vec::new()).is_ok());
    assert!(check_spec_response(204, Vec::new()).is_ok());
    assert!(check_spec_response(299, Vec::new()).is_ok());
    assert!(check_spec_response(300, Vec::new()).is_err());
}

#[test]
fn spec_at_exactly_the_ceiling_is_accepted() {
    let body = vec![b'y'; FIVE_MB];
    let r = check_spec_response(200, body);
    assert_eq!(r.unwrap_or_else(|_| panic!("accepted")).len(), FIVE_MB);
}

#[test]
fn spec_one_byte_over_the_ceiling_is_rejected() {
    let body = vec![b'y'; FIVE_MB + 1];
    assert!(matches!(
        check_spec_response(200, body),
        Err(GatewayError::ResponseTooLarge)
    ));
}

#[test]
fn invalid_utf8_is_a_hard_error_not_replaced() {
    // Would fail if the strict decoding quietly replaced the bad byte.
    let r = check_spec_response(200, vec![b'o', b'k', 0xFF]);
    assert!(matches!(r, Err(GatewayError::InvalidEncoding)));
}

#[test]
fn multibyte_utf8_survives_the_strict_decoding() {
    let r = check_spec_response(200, "título: é".as_bytes().to_vec());
    assert_eq!(r.unwrap_or_else(|_| panic!("accepted")), "título: é");
}

#[test]
fn accept_header_requests_spec_content() {
    assert_eq!(
        spec_accept_header(),
        "application/json, application/yaml, text/yaml, text/plain, */*"
    );
}
