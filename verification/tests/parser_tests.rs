//! The parsing layer on its own: request lines, header lines, methods,
//! numbers and status text.

use http_core::message::{HttpCode, HttpMethod, ProtocolError, Request};
use http_core::scan::{format_usize, parse_usize};

#[test]
fn methods_parse_and_anything_else_fails() {
    assert!(matches!(HttpMethod::parse(b"GET"), Ok(HttpMethod::Get)));
    assert!(matches!(HttpMethod::parse(b"POST"), Ok(HttpMethod::Post)));
    assert!(matches!(HttpMethod::parse(b"PATCH"), Err(ProtocolError::UnknownMethod)));
    assert!(matches!(HttpMethod::parse(b"get"), Err(ProtocolError::UnknownMethod)));
    assert!(matches!(HttpMethod::parse(b""), Err(ProtocolError::UnknownMethod)));
}

#[test]
fn a_full_header_block_parses() {
    let req = Request::parse_up_to_header(b"GET /p HTTP/1.1\r\nHost: here\r\nAccept: */*")
        .expect("well-formed block");
    assert_eq!(req.method, HttpMethod::Get);
    assert_eq!(req.path, b"/p".to_vec());
    assert_eq!(req.http_version, b"HTTP/1.1".to_vec());
    assert_eq!(
        req.headers,
        vec![
            (b"Host".to_vec(), b"here".to_vec()),
            (b"Accept".to_vec(), b"*/*".to_vec()),
        ]
    );
    assert!(req.body.is_none());
}

#[test]
fn missing_tokens_are_a_malformed_request_line() {
    assert!(matches!(
        Request::parse_up_to_header(b""),
        Err(ProtocolError::MalformedRequestLine)
    ));
    assert!(matches!(
        Request::parse_up_to_header(b"GET"),
        Err(ProtocolError::MalformedRequestLine)
    ));
    assert!(matches!(
        Request::parse_up_to_header(b"GET /only-two"),
        Err(ProtocolError::MalformedRequestLine)
    ));
}

#[test]
fn an_unknown_method_is_reported_before_missing_tokens() {
    assert!(matches!(
        Request::parse_up_to_header(b"BREW /pot HTTP/1.1"),
        Err(ProtocolError::UnknownMethod)
    ));
    assert!(matches!(
        Request::parse_up_to_header(b"BREW"),
        Err(ProtocolError::UnknownMethod)
    ));
}

#[test]
fn a_header_line_without_separator_is_named_in_the_error() {
    let err = Request::parse_up_to_header(b"GET / HTTP/1.1\r\nGoodHeader: yes\r\nBadLine")
        .expect_err("bad header line");
    match err {
        ProtocolError::MalformedHeader { line } => assert_eq!(line, b"BadLine".to_vec()),
        other => panic!("expected MalformedHeader, got {:?}", other),
    }
}

#[test]
fn extra_request_line_tokens_are_ignored() {
    let req = Request::parse_up_to_header(b"GET / HTTP/1.1 trailing junk").expect("three tokens");
    assert_eq!(req.path, b"/".to_vec());
    assert_eq!(req.http_version, b"HTTP/1.1".to_vec());
}

#[test]
fn header_values_keep_inner_separators() {
    let req = Request::parse_up_to_header(b"GET / HTTP/1.1\r\nX: a: b: c").expect("parses");
    assert_eq!(req.headers, vec![(b"X".to_vec(), b"a: b: c".to_vec())]);
}

#[test]
fn numbers_read_as_from_str_does() {
    assert_eq!(parse_usize(b"0"), Some(0));
    assert_eq!(parse_usize(b"42"), Some(42));
    assert_eq!(parse_usize(b"007"), Some(7));
    assert_eq!(parse_usize(b"+5"), Some(5));
    assert_eq!(parse_usize(b""), None);
    assert_eq!(parse_usize(b"+"), None);
    assert_eq!(parse_usize(b"-1"), None);
    assert_eq!(parse_usize(b"1x"), None);
    assert_eq!(parse_usize(b" 1"), None);
    assert_eq!(parse_usize(b"99999999999999999999999999999999"), None);
}

#[test]
fn numbers_write_in_decimal() {
    assert_eq!(format_usize(0), b"0".to_vec());
    assert_eq!(format_usize(6), b"6".to_vec());
    assert_eq!(format_usize(1024), b"1024".to_vec());
}

#[test]
fn status_lines_follow_the_wire_text() {
    assert_eq!(HttpCode::Okay.to_tcp_format(), b"200 OK".to_vec());
    assert_eq!(HttpCode::Created.to_tcp_format(), b"201 Created".to_vec());
    assert_eq!(HttpCode::BadRequest.to_tcp_format(), b"400 Bad Request".to_vec());
    assert_eq!(HttpCode::NotFound.to_tcp_format(), b"404 Not Found".to_vec());
    assert_eq!(
        HttpCode::InternalServerError.to_tcp_format(),
        b"500 Internal Server Error".to_vec()
    );
}
