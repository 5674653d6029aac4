use dlnaproxy::error::Error;
use dlnaproxy::listener::{parse_ssdp, wants_reply};

const TARGET_URN: &str = "urn:schemas-upnp-org:device:MediaServer:1";

fn msearch_datagram(st: &str) -> Vec<u8> {
    format!(
        "M-SEARCH * HTTP/1.1\r\nST: {}\r\nMAN: \"ssdp:discover\"\r\n\r\n",
        st
    )
    .into_bytes()
}

#[test]
fn parses_msearch_with_headers_preserved() {
    let datagram = msearch_datagram(TARGET_URN);
    let req = parse_ssdp(&datagram).expect("well-formed datagram must parse");
    assert_eq!(req.method, b"M-SEARCH".to_vec());
    assert_eq!(req.header_value(&b"ST".to_vec()).unwrap(), &TARGET_URN.as_bytes().to_vec());
    assert_eq!(
        req.header_value(&b"MAN".to_vec()).unwrap(),
        &b"\"ssdp:discover\"".to_vec()
    );
}

#[test]
fn header_names_are_case_normalized_and_values_trimmed() {
    let datagram = b"M-SEARCH * HTTP/1.1\r\nsT:\t  hello world  \r\n\r\n".to_vec();
    let req = parse_ssdp(&datagram).unwrap();
    assert_eq!(req.header_value(&b"ST".to_vec()).unwrap(), &b"hello world".to_vec());
    assert!(req.header_value(&b"sT".to_vec()).is_none());
}

#[test]
fn repeated_header_keeps_the_last_value() {
    let datagram = b"M-SEARCH * HTTP/1.1\r\nST: first\r\nST: second\r\n\r\n".to_vec();
    let req = parse_ssdp(&datagram).unwrap();
    assert_eq!(req.header_value(&b"ST".to_vec()).unwrap(), &b"second".to_vec());
}

#[test]
fn target_urn_draws_a_reply() {
    assert!(wants_reply(&msearch_datagram(TARGET_URN)));
}

#[test]
fn other_st_draws_no_reply() {
    assert!(!wants_reply(&msearch_datagram("urn:schemas-upnp-org:device:MediaRenderer:1")));
    assert!(!wants_reply(&msearch_datagram("ssdp:all")));
    assert!(!wants_reply(&msearch_datagram(
        "urn:schemas-upnp-org:device:MediaServer:2"
    )));
}

#[test]
fn other_method_draws_no_reply() {
    let datagram = format!("NOTIFY * HTTP/1.1\r\nST: {}\r\n\r\n", TARGET_URN).into_bytes();
    assert!(!wants_reply(&datagram));
}

#[test]
fn missing_st_draws_no_reply() {
    let datagram = b"M-SEARCH * HTTP/1.1\r\nMAN: \"ssdp:discover\"\r\n\r\n".to_vec();
    assert!(!wants_reply(&datagram));
}

#[test]
fn malformed_request_line_is_rejected_without_reply() {
    let datagram = b"NOT A REQUEST\r\nST: x\r\n\r\n".to_vec();
    assert!(parse_ssdp(&datagram).is_err());
    assert!(!wants_reply(&datagram));
}

#[test]
fn garbage_does_not_crash_and_draws_no_reply() {
    let empty: Vec<u8> = Vec::new();
    assert_eq!(parse_ssdp(&empty).unwrap_err(), Error::MalformedPacket);
    assert!(!wants_reply(&empty));

    let binary = vec![0u8, 255, 17, 13, 10, 200, 1];
    assert!(parse_ssdp(&binary).is_err());
    assert!(!wants_reply(&binary));

    let no_blank_line = b"M-SEARCH * HTTP/1.1\r\nST: x\r\n".to_vec();
    assert_eq!(parse_ssdp(&no_blank_line).unwrap_err(), Error::MalformedPacket);
    assert!(!wants_reply(&no_blank_line));
}

#[test]
fn empty_method_reports_no_ssdp_method() {
    let empty_line = b"\r\nST: x\r\n\r\n".to_vec();
    assert_eq!(parse_ssdp(&empty_line).unwrap_err(), Error::NoSSDPMethod);

    let leading_space = b" * HTTP/1.1\r\n\r\n".to_vec();
    assert_eq!(parse_ssdp(&leading_space).unwrap_err(), Error::NoSSDPMethod);
}

#[test]
fn bad_version_is_malformed() {
    let datagram = b"M-SEARCH * FTP/1.1\r\n\r\n".to_vec();
    assert_eq!(parse_ssdp(&datagram).unwrap_err(), Error::MalformedPacket);
}

#[test]
fn bytes_after_blank_line_are_ignored() {
    let mut datagram = msearch_datagram(TARGET_URN);
    datagram.extend_from_slice(&[0u8; 32]);
    let req = parse_ssdp(&datagram).expect("padding after the blank line is ignored");
    assert_eq!(req.method, b"M-SEARCH".to_vec());
    assert!(wants_reply(&datagram));
}

#[test]
fn error_messages_describe_the_rejection() {
    assert_eq!(
        Error::NoSSDPMethod.message(),
        "No SSDP method found while parsing packet."
    );
    assert_eq!(Error::MalformedPacket.message(), "Failed to parse packet as SSDP.");
}
