//! Exercising the library end to end on concrete wire bytes: framing,
//! parsing, routing, storage-outcome decisions and serialization.

use http_core::handler::{
    handle_request, file_create_response, file_read_response, FileCreateOutcome, FileReadOutcome,
    HandlerAction,
};
use http_core::message::{FramingError, HttpCode, HttpMethod, ProtocolError, ReadError, Request, Response};
use http_core::reader::{reader_step, ReadEvent, ReaderState};

/// Feed a whole stream to the reader in chunks of `chunk` bytes, then
/// report the close if the reader is still waiting.
fn drive(stream: &[u8], chunk: usize) -> ReaderState {
    let mut state = ReaderState::new();
    for part in stream.chunks(chunk) {
        if state.is_terminal() {
            return state;
        }
        state = reader_step(state, ReadEvent::Data { chunk: part.to_vec() });
    }
    if state.is_terminal() {
        state
    } else {
        reader_step(state, ReadEvent::Closed)
    }
}

fn complete(stream: &[u8], chunk: usize) -> Request {
    match drive(stream, chunk) {
        ReaderState::Complete { request } => request,
        other => panic!("expected a complete request, got {:?}", state_name(&other)),
    }
}

fn state_name(s: &ReaderState) -> &'static str {
    match s {
        ReaderState::ReadingHeader { .. } => "ReadingHeader",
        ReaderState::ReadingBody { .. } => "ReadingBody",
        ReaderState::Complete { .. } => "Complete",
        ReaderState::Failed { .. } => "Failed",
    }
}

fn respond(action: HandlerAction) -> Response {
    match action {
        HandlerAction::Respond { response } => response,
        HandlerAction::ReadFile { .. } => panic!("expected a direct response, got ReadFile"),
        HandlerAction::CreateFile { .. } => panic!("expected a direct response, got CreateFile"),
    }
}

#[test]
fn get_root_is_bare_200() {
    let req = complete(b"GET / HTTP/1.1\r\nHost: localhost\r\n\r\n", 1024);
    assert_eq!(req.method, HttpMethod::Get);
    assert_eq!(req.path, b"/".to_vec());
    assert_eq!(req.http_version, b"HTTP/1.1".to_vec());
    let resp = respond(handle_request(&req));
    assert_eq!(resp.http_code, HttpCode::Okay);
    assert!(resp.headers.is_empty());
    assert!(resp.content.is_none());
    assert_eq!(resp.to_bytes(), b"HTTP/1.1 200 OK\r\n\r\n".to_vec());
}

#[test]
fn echo_returns_the_path_suffix() {
    let req = complete(b"GET /echo/abc123 HTTP/1.1\r\n\r\n", 1024);
    let resp = respond(handle_request(&req));
    assert_eq!(resp.http_code, HttpCode::Okay);
    assert_eq!(
        resp.headers,
        vec![
            (b"Content-Type".to_vec(), b"text/plain".to_vec()),
            (b"Content-Length".to_vec(), b"6".to_vec()),
        ]
    );
    assert_eq!(resp.content, Some(b"abc123".to_vec()));
    assert_eq!(
        resp.to_bytes(),
        b"HTTP/1.1 200 OK\r\nContent-Type: text/plain\r\nContent-Length: 6\r\n\r\nabc123".to_vec()
    );
}

#[test]
fn echo_of_an_empty_suffix_is_an_empty_200() {
    let req = complete(b"GET /echo/ HTTP/1.1\r\n\r\n", 1024);
    let resp = respond(handle_request(&req));
    assert_eq!(resp.http_code, HttpCode::Okay);
    assert_eq!(resp.content, Some(Vec::new()));
    assert_eq!(
        resp.to_bytes(),
        b"HTTP/1.1 200 OK\r\nContent-Type: text/plain\r\nContent-Length: 0\r\n\r\n".to_vec()
    );
}

#[test]
fn user_agent_is_echoed_back() {
    let req = complete(b"GET /user-agent HTTP/1.1\r\nUser-Agent: test-agent\r\n\r\n", 1024);
    let resp = respond(handle_request(&req));
    assert_eq!(resp.http_code, HttpCode::Okay);
    assert_eq!(resp.content, Some(b"test-agent".to_vec()));
    assert_eq!(
        resp.headers,
        vec![
            (b"Content-Type".to_vec(), b"text/plain".to_vec()),
            (b"Content-Length".to_vec(), b"10".to_vec()),
        ]
    );
}

#[test]
fn user_agent_missing_is_500() {
    let req = complete(b"GET /user-agent HTTP/1.1\r\nHost: x\r\n\r\n", 1024);
    let resp = respond(handle_request(&req));
    assert_eq!(resp.http_code, HttpCode::InternalServerError);
    assert!(resp.content.is_none());
}

#[test]
fn duplicate_headers_last_wins() {
    let req = complete(
        b"GET /user-agent HTTP/1.1\r\nUser-Agent: first\r\nUser-Agent: second\r\n\r\n",
        1024,
    );
    let resp = respond(handle_request(&req));
    assert_eq!(resp.content, Some(b"second".to_vec()));
}

#[test]
fn missing_file_is_404_without_body() {
    let req = complete(b"GET /files/missing.bin HTTP/1.1\r\n\r\n", 1024);
    let name = match handle_request(&req) {
        HandlerAction::ReadFile { name } => name,
        other => panic!("expected ReadFile, got {:?}", action_name(&other)),
    };
    assert_eq!(name, b"missing.bin".to_vec());
    let resp = file_read_response(FileReadOutcome::NotFound);
    assert_eq!(resp.http_code, HttpCode::NotFound);
    assert!(resp.content.is_none());
    assert_eq!(resp.to_bytes(), b"HTTP/1.1 404 Not Found\r\n\r\n".to_vec());
}

fn action_name(a: &HandlerAction) -> &'static str {
    match a {
        HandlerAction::Respond { .. } => "Respond",
        HandlerAction::ReadFile { .. } => "ReadFile",
        HandlerAction::CreateFile { .. } => "CreateFile",
    }
}

#[test]
fn upload_stores_serves_and_refuses_a_second_time() {
    let stream =
        b"POST /files/new.bin HTTP/1.1\r\nContent-Type: application/octet-stream\r\nContent-Length: 5\r\n\r\nhello";
    let req = complete(stream, 1024);
    let (name, contents) = match handle_request(&req) {
        HandlerAction::CreateFile { name, contents } => (name, contents),
        other => panic!("expected CreateFile, got {:?}", action_name(&other)),
    };
    assert_eq!(name, b"new.bin".to_vec());
    assert_eq!(contents, b"hello".to_vec());

    let created = file_create_response(&name, FileCreateOutcome::Created);
    assert_eq!(created.http_code, HttpCode::Created);
    assert!(created.content.is_none());
    assert_eq!(created.to_bytes(), b"HTTP/1.1 201 Created\r\n\r\n".to_vec());

    let served = file_read_response(FileReadOutcome::Found { contents: contents.clone() });
    assert_eq!(served.http_code, HttpCode::Okay);
    assert_eq!(served.content, Some(b"hello".to_vec()));
    assert_eq!(
        served.headers,
        vec![
            (b"Content-Type".to_vec(), b"application/octet-stream".to_vec()),
            (b"Content-Length".to_vec(), b"5".to_vec()),
        ]
    );

    let again = file_create_response(&name, FileCreateOutcome::AlreadyExists);
    assert_eq!(again.http_code, HttpCode::BadRequest);
    assert_eq!(again.content, Some(b"File new.bin already exists.".to_vec()));
    assert_eq!(
        again.headers,
        vec![(b"Content-Length".to_vec(), b"28".to_vec())]
    );
}

#[test]
fn upload_with_wrong_content_type_is_400_and_writes_nothing() {
    let stream =
        b"POST /files/x.bin HTTP/1.1\r\nContent-Type: text/plain\r\nContent-Length: 2\r\n\r\nhi";
    let req = complete(stream, 1024);
    let action = handle_request(&req);
    let resp = respond(action);
    assert_eq!(resp.http_code, HttpCode::BadRequest);
    assert_eq!(
        resp.content,
        Some(b"Unsupported content type `text/plain` expected `application/octet-stream`".to_vec())
    );
}

#[test]
fn upload_without_content_type_is_400() {
    let stream = b"POST /files/x.bin HTTP/1.1\r\nContent-Length: 2\r\n\r\nhi";
    let req = complete(stream, 1024);
    let resp = respond(handle_request(&req));
    assert_eq!(resp.http_code, HttpCode::BadRequest);
    assert_eq!(resp.content, Some(b"Expected content type header but got nothing.".to_vec()));
}

#[test]
fn post_outside_files_is_bare_400() {
    let req = complete(b"POST /echo/x HTTP/1.1\r\nContent-Length: 0\r\n\r\n", 1024);
    let resp = respond(handle_request(&req));
    assert_eq!(resp.http_code, HttpCode::BadRequest);
    assert!(resp.content.is_none());
    assert!(resp.headers.is_empty());
}

#[test]
fn post_files_without_a_name_is_400() {
    let stream =
        b"POST /files HTTP/1.1\r\nContent-Type: application/octet-stream\r\nContent-Length: 2\r\n\r\nhi";
    let req = complete(stream, 1024);
    let resp = respond(handle_request(&req));
    assert_eq!(resp.http_code, HttpCode::BadRequest);
    assert_eq!(
        resp.content,
        Some(b"No file name sent in url, url should be formatted like /files/<file_name>".to_vec())
    );
    assert!(resp.headers.is_empty());
}

#[test]
fn post_with_a_files_lookalike_path_is_400() {
    let stream =
        b"POST /filesystem/y HTTP/1.1\r\nContent-Type: application/octet-stream\r\nContent-Length: 2\r\n\r\nhi";
    let req = complete(stream, 1024);
    let resp = respond(handle_request(&req));
    assert_eq!(resp.http_code, HttpCode::BadRequest);
    assert_eq!(
        resp.content,
        Some(b"No file name sent in url, url should be formatted like /files/<file_name>".to_vec())
    );
}

#[test]
fn unmatched_get_is_404() {
    for stream in [
        b"GET /nothing/here HTTP/1.1\r\n\r\n".to_vec(),
        // `/echo` only matches with its trailing slash,
        b"GET /echoX HTTP/1.1\r\n\r\n".to_vec(),
        // and `/files` only with a name after it.
        b"GET /files HTTP/1.1\r\n\r\n".to_vec(),
    ] {
        let req = complete(&stream, 1024);
        let resp = respond(handle_request(&req));
        assert_eq!(resp.http_code, HttpCode::NotFound);
        assert!(resp.content.is_none());
    }
}

#[test]
fn binary_bodies_round_trip_byte_for_byte() {
    // The body holds NUL bytes and the terminator sequence itself.
    let body: Vec<u8> = b"\x00\x01\r\n\r\n\xffrest".to_vec();
    let mut stream = Vec::new();
    stream.extend_from_slice(b"POST /files/blob.bin HTTP/1.1\r\n");
    stream.extend_from_slice(b"Content-Type: application/octet-stream\r\n");
    stream.extend_from_slice(format!("Content-Length: {}\r\n\r\n", body.len()).as_bytes());
    stream.extend_from_slice(&body);
    for chunk in [1usize, 3, 7, 4096] {
        let req = complete(&stream, chunk);
        assert_eq!(req.body, Some(body.clone()));
        let (_, contents) = match handle_request(&req) {
            HandlerAction::CreateFile { name, contents } => (name, contents),
            other => panic!("expected CreateFile, got {:?}", action_name(&other)),
        };
        assert_eq!(contents, body);
        let served = file_read_response(FileReadOutcome::Found { contents });
        assert_eq!(served.content, Some(body.clone()));
    }
}

#[test]
fn repeated_gets_return_identical_bytes() {
    for stream in [
        b"GET / HTTP/1.1\r\n\r\n".to_vec(),
        b"GET /echo/x HTTP/1.1\r\n\r\n".to_vec(),
        b"GET /user-agent HTTP/1.1\r\nUser-Agent: u\r\n\r\n".to_vec(),
    ] {
        let first = respond(handle_request(&complete(&stream, 1024))).to_bytes();
        let second = respond(handle_request(&complete(&stream, 1024))).to_bytes();
        assert_eq!(first, second);
    }
    // A GET of an existing file never asks for a write, and serving the
    // same stored bytes twice gives the same response twice.
    let req = complete(b"GET /files/f HTTP/1.1\r\n\r\n", 1024);
    for _ in 0..2 {
        match handle_request(&req) {
            HandlerAction::Respond { .. } | HandlerAction::CreateFile { .. } => {
                panic!("GET /files/<f> must ask for a read")
            },
            HandlerAction::ReadFile { name } => assert_eq!(name, b"f".to_vec()),
        }
    }
    let one = file_read_response(FileReadOutcome::Found { contents: b"data".to_vec() }).to_bytes();
    let two = file_read_response(FileReadOutcome::Found { contents: b"data".to_vec() }).to_bytes();
    assert_eq!(one, two);
}

#[test]
fn other_storage_failures_are_500() {
    for outcome in [FileReadOutcome::RootUnset, FileReadOutcome::OtherError] {
        let resp = file_read_response(outcome);
        assert_eq!(resp.http_code, HttpCode::InternalServerError);
        assert!(resp.content.is_none());
        assert_eq!(resp.to_bytes(), b"HTTP/1.1 500 Internal Server Error\r\n\r\n".to_vec());
    }
    for outcome in [FileCreateOutcome::RootUnset, FileCreateOutcome::OtherError] {
        let resp = file_create_response(b"f", outcome);
        assert_eq!(resp.http_code, HttpCode::InternalServerError);
        assert!(resp.content.is_none());
    }
}

#[test]
fn close_before_terminator_abandons_the_connection() {
    let state = drive(b"GET / HTTP/1.1\r\nHost", 1024);
    assert!(matches!(
        state,
        ReaderState::Failed {
            error: ReadError::Protocol { error: ProtocolError::MissingHeaderTerminator },
        }
    ));
}

#[test]
fn empty_connection_abandons_the_connection() {
    let state = reader_step(ReaderState::new(), ReadEvent::Closed);
    assert!(matches!(
        state,
        ReaderState::Failed {
            error: ReadError::Protocol { error: ProtocolError::MissingHeaderTerminator },
        }
    ));
}

#[test]
fn short_body_fails_as_incomplete() {
    let state = drive(b"POST /files/a HTTP/1.1\r\nContent-Length: 10\r\n\r\nhi", 1024);
    assert!(matches!(
        state,
        ReaderState::Failed { error: ReadError::Framing { error: FramingError::IncompleteBody } }
    ));
}

#[test]
fn long_body_fails_as_overlong() {
    let state = drive(b"POST /files/a HTTP/1.1\r\nContent-Length: 2\r\n\r\nhello", 1024);
    assert!(matches!(
        state,
        ReaderState::Failed { error: ReadError::Framing { error: FramingError::OverlongBody } }
    ));
}

#[test]
fn overlong_and_incomplete_stay_distinct() {
    let over = drive(b"POST /x HTTP/1.1\r\nContent-Length: 1\r\n\r\nab", 1024);
    let under = drive(b"POST /x HTTP/1.1\r\nContent-Length: 3\r\n\r\nab", 1);
    assert!(matches!(
        over,
        ReaderState::Failed { error: ReadError::Framing { error: FramingError::OverlongBody } }
    ));
    assert!(matches!(
        under,
        ReaderState::Failed { error: ReadError::Framing { error: FramingError::IncompleteBody } }
    ));
}

#[test]
fn without_content_length_a_post_is_header_only() {
    let req = complete(b"POST /files/a HTTP/1.1\r\nHost: x\r\n\r\nleftover", 1024);
    assert_eq!(req.method, HttpMethod::Post);
    assert!(req.body.is_none());
}

#[test]
fn unreadable_content_length_abandons_the_connection() {
    let state = drive(b"POST /files/a HTTP/1.1\r\nContent-Length: ten\r\n\r\n", 1024);
    assert!(matches!(
        state,
        ReaderState::Failed {
            error: ReadError::Protocol { error: ProtocolError::InvalidContentLength },
        }
    ));
}
