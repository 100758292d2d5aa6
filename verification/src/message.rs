//! Structured requests and responses, their mathematical views, and the
//! byte constants of the wire protocol.

use vstd::prelude::*;
use crate::scan::{bytes_eq, dec_rep};

verus! {

/// The request methods the server understands.
#[derive(Clone, Copy, PartialEq, Eq, Structural, Debug)]
pub enum HttpMethod {
    Get,
    Post,
}

/// The response statuses the server emits.
#[derive(Clone, Copy, PartialEq, Eq, Structural, Debug)]
pub enum HttpCode {
    Okay,
    NotFound,
    InternalServerError,
    BadRequest,
    Created,
}

// ---- wire constants, each as a spec sequence and an exec vector ----

/// `"GET"`
pub open spec fn get_token() -> Seq<u8> {
    seq![71u8, 69u8, 84u8]
}

/// `"POST"`
pub open spec fn post_token() -> Seq<u8> {
    seq![80u8, 79u8, 83u8, 84u8]
}

/// `"Content-Length"`
pub open spec fn content_length_name() -> Seq<u8> {
    seq![67u8, 111u8, 110u8, 116u8, 101u8, 110u8, 116u8, 45u8, 76u8, 101u8, 110u8, 103u8, 116u8, 104u8]
}

pub fn content_length_name_vec() -> (r: Vec<u8>)
    ensures
        r@ == content_length_name(),
{
    vec![67u8, 111u8, 110u8, 116u8, 101u8, 110u8, 116u8, 45u8, 76u8, 101u8, 110u8, 103u8, 116u8, 104u8]
}

/// `"Content-Type"`
pub open spec fn content_type_name() -> Seq<u8> {
    seq![67u8, 111u8, 110u8, 116u8, 101u8, 110u8, 116u8, 45u8, 84u8, 121u8, 112u8, 101u8]
}

pub fn content_type_name_vec() -> (r: Vec<u8>)
    ensures
        r@ == content_type_name(),
{
    vec![67u8, 111u8, 110u8, 116u8, 101u8, 110u8, 116u8, 45u8, 84u8, 121u8, 112u8, 101u8]
}

/// `"User-Agent"`
pub open spec fn user_agent_name() -> Seq<u8> {
    seq![85u8, 115u8, 101u8, 114u8, 45u8, 65u8, 103u8, 101u8, 110u8, 116u8]
}

pub fn user_agent_name_vec() -> (r: Vec<u8>)
    ensures
        r@ == user_agent_name(),
{
    vec![85u8, 115u8, 101u8, 114u8, 45u8, 65u8, 103u8, 101u8, 110u8, 116u8]
}

/// `"text/plain"`
pub open spec fn text_plain() -> Seq<u8> {
    seq![116u8, 101u8, 120u8, 116u8, 47u8, 112u8, 108u8, 97u8, 105u8, 110u8]
}

pub fn text_plain_vec() -> (r: Vec<u8>)
    ensures
        r@ == text_plain(),
{
    vec![116u8, 101u8, 120u8, 116u8, 47u8, 112u8, 108u8, 97u8, 105u8, 110u8]
}

/// `"application/octet-stream"`
pub open spec fn octet_stream() -> Seq<u8> {
    seq![97u8, 112u8, 112u8, 108u8, 105u8, 99u8, 97u8, 116u8, 105u8, 111u8, 110u8, 47u8, 111u8,
        99u8, 116u8, 101u8, 116u8, 45u8, 115u8, 116u8, 114u8, 101u8, 97u8, 109u8]
}

pub fn octet_stream_vec() -> (r: Vec<u8>)
    ensures
        r@ == octet_stream(),
{
    vec![97u8, 112u8, 112u8, 108u8, 105u8, 99u8, 97u8, 116u8, 105u8, 111u8, 110u8, 47u8, 111u8,
        99u8, 116u8, 101u8, 116u8, 45u8, 115u8, 116u8, 114u8, 101u8, 97u8, 109u8]
}

/// Text of each status line: code and reason.
pub open spec fn status_text(c: HttpCode) -> Seq<u8> {
    match c {
        // "200 OK"
        HttpCode::Okay => seq![50u8, 48u8, 48u8, 32u8, 79u8, 75u8],
        // "404 Not Found"
        HttpCode::NotFound => seq![52u8, 48u8, 52u8, 32u8, 78u8, 111u8, 116u8, 32u8, 70u8, 111u8,
            117u8, 110u8, 100u8],
        // "500 Internal Server Error"
        HttpCode::InternalServerError => seq![53u8, 48u8, 48u8, 32u8, 73u8, 110u8, 116u8, 101u8,
            114u8, 110u8, 97u8, 108u8, 32u8, 83u8, 101u8, 114u8, 118u8, 101u8, 114u8, 32u8, 69u8,
            114u8, 114u8, 111u8, 114u8],
        // "400 Bad Request"
        HttpCode::BadRequest => seq![52u8, 48u8, 48u8, 32u8, 66u8, 97u8, 100u8, 32u8, 82u8, 101u8,
            113u8, 117u8, 101u8, 115u8, 116u8],
        // "201 Created"
        HttpCode::Created => seq![50u8, 48u8, 49u8, 32u8, 67u8, 114u8, 101u8, 97u8, 116u8, 101u8,
            100u8],
    }
}

impl HttpCode {
    /// The code-and-reason text that stands after `HTTP/1.1 ` in the
    /// status line this server writes for `self`.
    pub fn to_tcp_format(&self) -> (r: Vec<u8>)
        ensures
            r@ == status_text(*self),
    {
        match self {
            HttpCode::Okay => vec![50u8, 48u8, 48u8, 32u8, 79u8, 75u8],
            HttpCode::NotFound => vec![52u8, 48u8, 52u8, 32u8, 78u8, 111u8, 116u8, 32u8, 70u8,
                111u8, 117u8, 110u8, 100u8],
            HttpCode::InternalServerError => vec![53u8, 48u8, 48u8, 32u8, 73u8, 110u8, 116u8,
                101u8, 114u8, 110u8, 97u8, 108u8, 32u8, 83u8, 101u8, 114u8, 118u8, 101u8, 114u8,
                32u8, 69u8, 114u8, 114u8, 111u8, 114u8],
            HttpCode::BadRequest => vec![52u8, 48u8, 48u8, 32u8, 66u8, 97u8, 100u8, 32u8, 82u8,
                101u8, 113u8, 117u8, 101u8, 115u8, 116u8],
            HttpCode::Created => vec![50u8, 48u8, 49u8, 32u8, 67u8, 114u8, 101u8, 97u8, 116u8,
                101u8, 100u8],
        }
    }
}

// ---- errors ----

/// A fault in the request text itself; the connection is abandoned
/// without a response.
#[derive(Debug)]
pub enum ProtocolError {
    /// The request line has no method token, or fewer than three tokens.
    MalformedRequestLine,
    /// The method token is neither `GET` nor `POST`.
    UnknownMethod,
    /// A header line without the `": "` separator; the line is kept.
    MalformedHeader { line: Vec<u8> },
    /// The connection closed before `\r\n\r\n` appeared.
    MissingHeaderTerminator,
    /// A `Content-Length` value that does not read as a number.
    InvalidContentLength,
}

/// Mathematical image of a `ProtocolError`.
pub ghost enum ProtocolErrorSpec {
    MalformedRequestLine,
    UnknownMethod,
    MalformedHeader { line: Seq<u8> },
    MissingHeaderTerminator,
    InvalidContentLength,
}

impl View for ProtocolError {
    type V = ProtocolErrorSpec;

    open spec fn view(&self) -> ProtocolErrorSpec {
        match self {
            ProtocolError::MalformedRequestLine => ProtocolErrorSpec::MalformedRequestLine,
            ProtocolError::UnknownMethod => ProtocolErrorSpec::UnknownMethod,
            ProtocolError::MalformedHeader { line } => ProtocolErrorSpec::MalformedHeader {
                line: line@,
            },
            ProtocolError::MissingHeaderTerminator => ProtocolErrorSpec::MissingHeaderTerminator,
            ProtocolError::InvalidContentLength => ProtocolErrorSpec::InvalidContentLength,
        }
    }
}

/// A declared body length the connection did not honour.
#[derive(Clone, Copy, PartialEq, Eq, Structural, Debug)]
pub enum FramingError {
    /// The connection closed with fewer body bytes than declared.
    IncompleteBody,
    /// More body bytes arrived than declared.
    OverlongBody,
}

/// Any fault that abandons a connection before a response is owed.
#[derive(Debug)]
#[allow(inconsistent_fields)]
pub enum ReadError {
    Protocol { error: ProtocolError },
    Framing { error: FramingError },
}

/// Mathematical image of a `ReadError`.
#[allow(inconsistent_fields)]
pub ghost enum ReadErrorSpec {
    Protocol { error: ProtocolErrorSpec },
    Framing { error: FramingError },
}

impl View for ReadError {
    type V = ReadErrorSpec;

    open spec fn view(&self) -> ReadErrorSpec {
        match self {
            ReadError::Protocol { error } => ReadErrorSpec::Protocol { error: error@ },
            ReadError::Framing { error } => ReadErrorSpec::Framing { error: *error },
        }
    }
}

// ---- requests ----

/// Mathematical image of a `Request`.
pub ghost struct RequestSpec {
    pub method: HttpMethod,
    pub path: Seq<u8>,
    pub http_version: Seq<u8>,
    pub headers: Seq<(Seq<u8>, Seq<u8>)>,
    pub body: Option<Seq<u8>>,
}

/// A parsed request: the request line, the header lines in the order
/// received, and the body once the declared length has been read.
#[derive(Debug)]
pub struct Request {
    pub method: HttpMethod,
    pub path: Vec<u8>,
    pub http_version: Vec<u8>,
    pub headers: Vec<(Vec<u8>, Vec<u8>)>,
    pub body: Option<Vec<u8>>,
}

impl View for Request {
    type V = RequestSpec;

    open spec fn view(&self) -> RequestSpec {
        RequestSpec {
            method: self.method,
            path: self.path@,
            http_version: self.http_version@,
            headers: self.headers@.map_values(|p: (Vec<u8>, Vec<u8>)| (p.0@, p.1@)),
            body: match self.body {
                Some(b) => Some(b@),
                None => None,
            },
        }
    }
}

/// The value of header `name`, the last occurrence winning, as a map
/// written by inserting each pair in order would hold it.
pub open spec fn header_lookup(hs: Seq<(Seq<u8>, Seq<u8>)>, name: Seq<u8>) -> Option<Seq<u8>>
    decreases hs.len(),
{
    if hs.len() == 0 {
        None
    } else if hs.last().0 == name {
        Some(hs.last().1)
    } else {
        header_lookup(hs.drop_last(), name)
    }
}

impl Request {
    /// Look the header `name` up; on duplicates the last occurrence wins.
    pub fn header(&self, name: &[u8]) -> (r: Option<&Vec<u8>>)
        ensures
            match r {
                Some(v) => header_lookup(self@.headers, name@) == Some(v@),
                None => header_lookup(self@.headers, name@) is None,
            },
    {
        let ghost hs = self@.headers;
        let mut i: usize = self.headers.len();
        proof {
            assert(hs.take(i as int) =~= hs);
        }
        while i > 0
            invariant
                hs == self@.headers,
                i <= self.headers.len(),
                hs.len() == self.headers@.len(),
                forall|j: int| 0 <= j < hs.len() ==> hs[j] == (self.headers@[j].0@, self.headers@[j].1@),
                header_lookup(hs, name@) == header_lookup(hs.take(i as int), name@),
            decreases i,
        {
            let pair = &self.headers[i - 1];
            proof {
                assert(hs.take(i as int).last() == hs[i - 1]);
                assert(hs.take(i as int).drop_last() =~= hs.take(i as int - 1));
            }
            if bytes_eq(pair.0.as_slice(), name) {
                return Some(&pair.1);
            }
            i = i - 1;
        }
        proof {
            assert(hs.take(0) =~= Seq::<(Seq<u8>, Seq<u8>)>::empty());
        }
        None
    }
}

// ---- responses ----

/// Mathematical image of a `Response`.
pub ghost struct ResponseSpec {
    pub http_code: HttpCode,
    pub headers: Seq<(Seq<u8>, Seq<u8>)>,
    pub content: Option<Seq<u8>>,
}

/// A response under construction: status, headers in the order they
/// will be written, and the body bytes if any.
#[derive(Debug)]
pub struct Response {
    pub http_code: HttpCode,
    pub headers: Vec<(Vec<u8>, Vec<u8>)>,
    pub content: Option<Vec<u8>>,
}

impl View for Response {
    type V = ResponseSpec;

    open spec fn view(&self) -> ResponseSpec {
        ResponseSpec {
            http_code: self.http_code,
            headers: self.headers@.map_values(|p: (Vec<u8>, Vec<u8>)| (p.0@, p.1@)),
            content: match self.content {
                Some(b) => Some(b@),
                None => None,
            },
        }
    }
}

/// A response with the given status and neither headers nor body.
pub open spec fn empty_response(code: HttpCode) -> ResponseSpec {
    ResponseSpec { http_code: code, headers: Seq::empty(), content: None }
}

/// Build `empty_response(code)`.
pub fn make_empty_response(code: HttpCode) -> (r: Response)
    ensures
        r@ == empty_response(code),
{
    let r = Response { http_code: code, headers: Vec::new(), content: None };
    proof {
        assert(r@.headers =~= empty_response(code).headers);
    }
    r
}

impl Default for Response {
    /// A `200 OK` with no headers and no body.
    fn default() -> (r: Self)
        ensures
            r@ == empty_response(HttpCode::Okay),
    {
        make_empty_response(HttpCode::Okay)
    }
}

/// A body of `len` bytes is announced by these two headers:
/// `Content-Type: <ctype>` and `Content-Length: <len>`.
pub open spec fn content_headers(ctype: Seq<u8>, len: nat) -> Seq<(Seq<u8>, Seq<u8>)> {
    seq![(content_type_name(), ctype), (content_length_name(), dec_rep(len))]
}

} // verus!
