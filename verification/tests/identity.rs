use ferrishare::identity::{forwarded_entry, split_forwarded};
use ferrishare::{ExtractIpPrefix, IpAddress, IpPrefix, StatusCode};

#[test]
fn header_is_parted_at_spaces_and_commas() {
    assert_eq!(split_forwarded("1.2.3.4, 5.6.7.8"), vec!["1.2.3.4", "5.6.7.8"]);
    assert_eq!(split_forwarded("1.2.3.4 5.6.7.8"), vec!["1.2.3.4", "5.6.7.8"]);
    assert_eq!(split_forwarded("1.2.3.4,5.6.7.8,::1"), vec!["1.2.3.4", "5.6.7.8", "::1"]);
    assert_eq!(split_forwarded("  a ,, b  "), vec!["a", "b"]);
    assert_eq!(split_forwarded("single"), vec!["single"]);
    assert!(split_forwarded("").is_empty());
    assert!(split_forwarded(" , ,").is_empty());
}

#[test]
fn entry_is_counted_from_the_trusted_end() {
    let header = "203.0.113.7, 198.51.100.2, 10.0.0.1";
    assert_eq!(forwarded_entry(header, 1), Some("10.0.0.1".to_string()));
    assert_eq!(forwarded_entry(header, 2), Some("198.51.100.2".to_string()));
    assert_eq!(forwarded_entry(header, 3), Some("203.0.113.7".to_string()));
}

#[test]
fn header_shorter_than_the_depth_gives_nothing() {
    let header = "203.0.113.7, 198.51.100.2";
    assert_eq!(forwarded_entry(header, 3), None);
    assert_eq!(forwarded_entry(header, u64::MAX), None);
    assert_eq!(forwarded_entry("", 1), None);
    assert_eq!(forwarded_entry(header, 0), None);
}

#[test]
fn peer_counts_without_a_proxy() {
    let r = ExtractIpPrefix::from_request_parts(0, Some(IpAddress::V4([192, 0, 2, 1])), None);
    assert_eq!(r.unwrap(), ExtractIpPrefix(IpPrefix::V4([192, 0, 2, 1])));
    let r = ExtractIpPrefix::from_request_parts(
        0,
        Some(IpAddress::V4([192, 0, 2, 1])),
        Some(IpAddress::V4([203, 0, 113, 7])),
    );
    assert_eq!(r.unwrap(), ExtractIpPrefix(IpPrefix::V4([192, 0, 2, 1])));
}

#[test]
fn header_counts_behind_a_proxy() {
    let forwarded = IpAddress::V6([0x20, 0x01, 0x0d, 0xb8, 0, 0, 0, 1, 2, 3, 4, 5, 6, 7, 8, 9]);
    let r = ExtractIpPrefix::from_request_parts(
        1,
        Some(IpAddress::V4([192, 0, 2, 1])),
        Some(forwarded),
    );
    assert_eq!(r.unwrap(), ExtractIpPrefix(IpPrefix::V6([0x20, 0x01, 0x0d, 0xb8, 0, 0, 0, 1])));
}

#[test]
fn missing_peer_is_a_server_error() {
    let e = ExtractIpPrefix::from_request_parts(0, None, Some(IpAddress::V4([1, 2, 3, 4])))
        .unwrap_err();
    assert_eq!(e.status_code, StatusCode::INTERNAL_SERVER_ERROR);
    assert_eq!(
        e.message,
        "failed to extract SocketAddr from request; your reverse-proxy configuration might be incorrect"
    );
}

#[test]
fn missing_forwarded_address_is_a_server_error() {
    let e = ExtractIpPrefix::from_request_parts(2, Some(IpAddress::V4([1, 2, 3, 4])), None)
        .unwrap_err();
    assert_eq!(e.status_code, StatusCode::INTERNAL_SERVER_ERROR);
    assert_eq!(
        e.message,
        "failed to extract IP from X-Forwarded-For header; your reverse-proxy configuration might be incorrect"
    );
}
