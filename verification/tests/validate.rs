use ssrf_gateway::GatewayError;
use ssrf_gateway::IpLit;
use ssrf_gateway::check_ip_allowed;
use ssrf_gateway::validate_url;

#[test]
fn test_validate_url_allows_https() {
    assert!(validate_url("https://petstore.swagger.io/v2/swagger.json").is_ok());
}

#[test]
fn test_validate_url_allows_http() {
    assert!(validate_url("http://api.example.com/openapi.yaml").is_ok());
}

#[test]
fn test_validate_url_blocks_file_scheme() {
    assert!(validate_url("file:///etc/passwd").is_err());
}

#[test]
fn test_validate_url_blocks_ftp_scheme() {
    assert!(validate_url("ftp://example.com/file").is_err());
}

#[test]
fn test_validate_url_blocks_aws_metadata() {
    assert!(validate_url("http://169.254.169.254/latest/meta-data/").is_err());
}

#[test]
fn test_validate_url_blocks_gcp_metadata() {
    assert!(validate_url("http://metadata.google.internal/computeMetadata/v1/").is_err());
}

#[test]
fn test_validate_url_blocks_loopback() {
    assert!(validate_url("http://127.0.0.1:8080/api").is_err());
}

#[test]
fn test_validate_url_blocks_private_10() {
    assert!(validate_url("http://10.0.0.1/internal").is_err());
}

#[test]
fn test_validate_url_blocks_private_192_168() {
    assert!(validate_url("http://192.168.1.1/router").is_err());
}

#[test]
fn test_validate_url_blocks_private_172_16() {
    assert!(validate_url("http://172.16.0.1/internal").is_err());
}

#[test]
fn test_validate_url_blocks_ssh_port() {
    assert!(validate_url("http://example.com:22/").is_err());
}

#[test]
fn test_validate_url_blocks_mysql_port() {
    assert!(validate_url("http://example.com:3306/").is_err());
}

#[test]
fn test_validate_url_allows_standard_ports() {
    assert!(validate_url("https://api.example.com:8443/openapi").is_ok());
    assert!(validate_url("http://api.example.com:8080/openapi").is_ok());
}

#[test]
fn test_validate_url_rejects_malformed() {
    assert!(validate_url("not-a-url").is_err());
    assert!(validate_url("").is_err());
}

#[test]
fn test_check_ip_allows_public() {
    let ip = IpLit::V4(0x08080808); // 8.8.8.8
    assert!(check_ip_allowed(&ip).is_ok());
}

#[test]
fn test_check_ip_blocks_loopback() {
    let ip = IpLit::V4(0x7F000001); // 127.0.0.1
    assert!(check_ip_allowed(&ip).is_err());
}

#[test]
fn test_check_ip_blocks_link_local() {
    let ip = IpLit::V4(0xA9FE0101); // 169.254.1.1
    assert!(check_ip_allowed(&ip).is_err());
}

#[test]
fn scheme_rejection_names_the_scheme() {
    match validate_url("file:///etc/passwd") {
        Err(GatewayError::DisallowedScheme(s)) => assert_eq!(s, "file"),
        other => panic!("expected a scheme rejection, got {:?}", other.err()),
    }
}

#[test]
fn gopher_scheme_rejected() {
    assert!(matches!(
        validate_url("gopher://example.com/"),
        Err(GatewayError::DisallowedScheme(_))
    ));
}

#[test]
fn metadata_rejection_names_the_host() {
    match validate_url("http://169.254.169.254/latest/meta-data/") {
        Err(GatewayError::BlockedMetadataHost(h)) => assert_eq!(h, "169.254.169.254"),
        other => panic!("expected a metadata-host rejection, got {:?}", other.err()),
    }
}

#[test]
fn alibaba_metadata_host_rejected_as_metadata() {
    assert!(matches!(
        validate_url("http://100.100.100.200/latest/meta-data/"),
        Err(GatewayError::BlockedMetadataHost(_))
    ));
}

#[test]
fn loopback_rejection_names_the_range() {
    match validate_url("http://127.0.0.1:8080/api") {
        Err(GatewayError::BlockedPrivateIp(ip, range)) => {
            assert_eq!(ip, IpLit::V4(0x7F000001));
            assert_eq!(range, "127.0.0.0/8");
        }
        other => panic!("expected a private-ip rejection, got {:?}", other.err()),
    }
}

#[test]
fn private_10_rejection_names_the_range() {
    match validate_url("http://10.0.0.1/internal") {
        Err(GatewayError::BlockedPrivateIp(_, range)) => assert_eq!(range, "10.0.0.0/8"),
        other => panic!("expected a private-ip rejection, got {:?}", other.err()),
    }
}

#[test]
fn port_rejection_names_the_port() {
    match validate_url("http://example.com:22/") {
        Err(GatewayError::BlockedPort(p)) => assert_eq!(p, 22),
        other => panic!("expected a port rejection, got {:?}", other.err()),
    }
}

#[test]
fn empty_string_is_invalid_url() {
    assert!(matches!(validate_url(""), Err(GatewayError::InvalidUrl(_))));
}

#[test]
fn relative_string_is_invalid_url() {
    assert!(matches!(validate_url("not-a-url"), Err(GatewayError::InvalidUrl(_))));
}

#[test]
fn scheme_case_is_normalized_by_the_parser() {
    // The parser lowercases the scheme, so the scheme gate must accept this.
    assert!(validate_url("HtTp://example.com/").is_ok());
}

#[test]
fn validated_url_is_the_parsed_serialization() {
    let v = validate_url("https://example.com").unwrap_or_else(|_| panic!("accepted"));
    assert_eq!(v.as_str(), "https://example.com/");
}

#[test]
fn ipv6_loopback_rejected() {
    match validate_url("http://[::1]/") {
        Err(GatewayError::BlockedPrivateIp(ip, range)) => {
            assert_eq!(ip, IpLit::V6(1));
            assert_eq!(range, "::1/128");
        }
        other => panic!("expected a private-ip rejection, got {:?}", other.err()),
    }
}

#[test]
fn ipv6_unique_local_rejected() {
    match validate_url("http://[fd00:ec2::254]/") {
        Err(GatewayError::BlockedPrivateIp(_, range)) => assert_eq!(range, "fc00::/7"),
        other => panic!("expected a private-ip rejection, got {:?}", other.err()),
    }
}

#[test]
fn ipv6_link_local_rejected() {
    assert!(matches!(
        validate_url("http://[fe80::1]/"),
        Err(GatewayError::BlockedPrivateIp(_, _))
    ));
}

#[test]
fn ipv6_public_allowed() {
    assert!(validate_url("http://[2001:4860:4860::8888]/").is_ok());
}

#[test]
fn carrier_grade_nat_boundaries() {
    assert!(validate_url("http://100.64.0.1/").is_err());
    assert!(validate_url("http://100.127.255.255/").is_err());
    assert!(validate_url("http://100.128.0.1/").is_ok());
    assert!(validate_url("http://100.63.255.255/").is_ok());
}

#[test]
fn private_range_boundaries() {
    assert!(validate_url("http://172.31.255.255/").is_err());
    assert!(validate_url("http://172.32.0.1/").is_ok());
    assert!(validate_url("http://172.15.255.255/").is_ok());
    assert!(validate_url("http://192.169.0.1/").is_ok());
    assert!(validate_url("http://11.0.0.1/").is_ok());
    assert!(validate_url("http://9.255.255.255/").is_ok());
}

#[test]
fn test_net_ranges_rejected() {
    match validate_url("http://198.51.100.7/") {
        Err(GatewayError::BlockedPrivateIp(_, range)) => assert_eq!(range, "198.51.100.0/24"),
        other => panic!("expected a private-ip rejection, got {:?}", other.err()),
    }
    match validate_url("http://203.0.113.9/") {
        Err(GatewayError::BlockedPrivateIp(_, range)) => assert_eq!(range, "203.0.113.0/24"),
        other => panic!("expected a private-ip rejection, got {:?}", other.err()),
    }
}

#[test]
fn remaining_blocked_ports_rejected() {
    for port in [23, 25, 110, 143, 5432, 6379, 27017] {
        let url = format!("http://example.com:{port}/");
        assert!(matches!(validate_url(&url), Err(GatewayError::BlockedPort(p)) if p == port));
    }
}

#[test]
fn default_port_skips_the_port_check() {
    // No explicit port, so the port gate never fires even for https.
    assert!(validate_url("https://example.com/").is_ok());
}
