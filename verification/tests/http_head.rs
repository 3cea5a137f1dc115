//! The HTTP head parser and the error envelope's status mapping.

use statics_lib::controller::error_response;
use statics_lib::errors::ErrorKind;
use statics_lib::http::parse_request;
use statics_lib::routes::Method;

#[test]
fn full_request_parsed() {
    let raw = b"POST /images HTTP/1.1\r\nHost: example.com\r\nContent-Type: multipart/form-data; boundary=ab\r\n\r\nBODYBYTES";
    let (head, body) = parse_request(raw).expect("well-formed request");
    assert!(matches!(head.method, Method::Post));
    assert_eq!(head.path, b"/images".to_vec());
    assert_eq!(head.headers.len(), 2);
    assert_eq!(head.headers[0].name, b"Host".to_vec());
    assert_eq!(head.headers[0].value, b"example.com".to_vec());
    assert_eq!(head.headers[1].name, b"Content-Type".to_vec());
    assert_eq!(
        head.headers[1].value,
        b"multipart/form-data; boundary=ab".to_vec()
    );
    assert_eq!(body, b"BODYBYTES".to_vec());
}

#[test]
fn request_without_headers_parsed() {
    let raw = b"GET /healthcheck HTTP/1.1\r\n\r\n";
    let (head, body) = parse_request(raw).expect("well-formed request");
    assert!(matches!(head.method, Method::Get));
    assert_eq!(head.path, b"/healthcheck".to_vec());
    assert_eq!(head.headers.len(), 0);
    assert_eq!(body, Vec::<u8>::new());
}

#[test]
fn truncated_request_rejected() {
    assert!(parse_request(b"GET /healthcheck HTTP/1.1\r\n").is_none());
    assert!(parse_request(b"").is_none());
    assert!(parse_request(b"nonsense\r\n\r\n").is_none());
}

#[test]
fn unknown_method_is_other() {
    let raw = b"BREW /healthcheck HTTP/1.1\r\n\r\n";
    let (head, _) = parse_request(raw).expect("well-formed request");
    assert!(matches!(head.method, Method::Other));
}

#[test]
fn error_kinds_map_to_status_codes() {
    let acao: &[u8] = b"*";
    let cases = [
        (ErrorKind::NotFound, 404u16, &b"404"[..]),
        (ErrorKind::Unauthorized, 401, b"401"),
        (ErrorKind::Parse, 400, b"400"),
        (ErrorKind::Image, 400, b"400"),
        (ErrorKind::PayloadTooLarge, 413, b"413"),
        (ErrorKind::Network, 502, b"502"),
        (ErrorKind::Internal, 500, b"500"),
    ];
    for (kind, status, digits) in cases {
        let resp = error_response(acao, kind, b"x");
        assert_eq!(resp.status, status);
        let mut expected = b"{\"code\":".to_vec();
        expected.extend_from_slice(digits);
        expected.extend_from_slice(b",\"description\":\"x\"}");
        assert_eq!(resp.body, expected);
    }
}

#[test]
fn description_is_json_escaped() {
    let resp = error_response(b"*", ErrorKind::Parse, b"a \"quoted\" \\ name");
    assert_eq!(
        resp.body,
        b"{\"code\":400,\"description\":\"a \\\"quoted\\\" \\\\ name\"}".to_vec()
    );
}
