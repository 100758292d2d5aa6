//! Incremental framing of a request off a connection.
//!
//! The reader is a state machine driven by events the surrounding process
//! feeds it: a chunk of bytes read off the socket, or the fact that the
//! connection closed. It accumulates bytes until the `\r\n\r\n` terminator
//! appears, parses the header block, and — when a `Content-Length` header
//! was given — goes on accumulating body bytes until exactly that many
//! have arrived. Closing early, or sending more body bytes than declared,
//! is an error; without a `Content-Length` header the request is
//! header-only, whatever its method.

use vstd::prelude::*;
use crate::message::{
    FramingError, ProtocolError, ProtocolErrorSpec, ReadError, ReadErrorSpec, Request, RequestSpec,
    content_length_name, content_length_name_vec, header_lookup,
};
use crate::parser::parse_request_spec;
use crate::scan::{copy_range, find_terminator, first_term, parse_usize, parse_usize_spec};

verus! {

/// One thing the connection did: delivered bytes, or closed.
pub enum ReadEvent {
    Data { chunk: Vec<u8> },
    Closed,
}

/// Mathematical image of a `ReadEvent`.
pub ghost enum ReadEventSpec {
    Data { chunk: Seq<u8> },
    Closed,
}

impl View for ReadEvent {
    type V = ReadEventSpec;

    open spec fn view(&self) -> ReadEventSpec {
        match self {
            ReadEvent::Data { chunk } => ReadEventSpec::Data { chunk: chunk@ },
            ReadEvent::Closed => ReadEventSpec::Closed,
        }
    }
}

/// Where the framing of one request stands.
pub enum ReaderState {
    /// Accumulating bytes until the header terminator appears.
    ReadingHeader { buf: Vec<u8> },
    /// The header block is parsed; accumulating the declared body.
    ReadingBody { request: Request, content_length: usize, body: Vec<u8> },
    /// A whole request is framed.
    Complete { request: Request },
    /// The connection is abandoned without a response.
    Failed { error: ReadError },
}

/// Mathematical image of a `ReaderState`.
pub ghost enum ReaderStateSpec {
    ReadingHeader { buf: Seq<u8> },
    ReadingBody { request: RequestSpec, content_length: int, body: Seq<u8> },
    Complete { request: RequestSpec },
    Failed { error: ReadErrorSpec },
}

impl View for ReaderState {
    type V = ReaderStateSpec;

    open spec fn view(&self) -> ReaderStateSpec {
        match self {
            ReaderState::ReadingHeader { buf } => ReaderStateSpec::ReadingHeader { buf: buf@ },
            ReaderState::ReadingBody { request, content_length, body } => ReaderStateSpec::ReadingBody {
                request: request@,
                content_length: *content_length as int,
                body: body@,
            },
            ReaderState::Complete { request } => ReaderStateSpec::Complete { request: request@ },
            ReaderState::Failed { error } => ReaderStateSpec::Failed { error: error@ },
        }
    }
}

/// Whether the accumulated body `b` settles a request whose declared
/// length is `cl`: exactly `cl` bytes complete it, more than `cl` bytes
/// are a framing error, fewer leave the reader waiting.
pub open spec fn body_progress_spec(req: RequestSpec, cl: int, b: Seq<u8>) -> ReaderStateSpec {
    if b.len() == cl {
        ReaderStateSpec::Complete { request: RequestSpec { body: Some(b), ..req } }
    } else if b.len() > cl {
        ReaderStateSpec::Failed {
            error: ReadErrorSpec::Framing { error: FramingError::OverlongBody },
        }
    } else {
        ReaderStateSpec::ReadingBody { request: req, content_length: cl, body: b }
    }
}

/// What the reader does once the terminator is found at index `h` of the
/// accumulated bytes `nb`: parse the header block, and either finish a
/// header-only request, start on the declared body with whatever bytes
/// already follow the terminator, or fail.
pub open spec fn header_found_spec(nb: Seq<u8>, h: int) -> ReaderStateSpec {
    match parse_request_spec(nb.take(h)) {
        Err(e) => ReaderStateSpec::Failed { error: ReadErrorSpec::Protocol { error: e } },
        Ok(req) => match header_lookup(req.headers, content_length_name()) {
            None => ReaderStateSpec::Complete { request: req },
            Some(v) => match parse_usize_spec(v) {
                None => ReaderStateSpec::Failed {
                    error: ReadErrorSpec::Protocol {
                        error: ProtocolErrorSpec::InvalidContentLength,
                    },
                },
                Some(cl) => body_progress_spec(req, cl as int, nb.skip(h + 4)),
            },
        },
    }
}

/// The reader's transition function. A terminal state absorbs every
/// further event.
pub open spec fn step_spec(s: ReaderStateSpec, e: ReadEventSpec) -> ReaderStateSpec {
    match s {
        ReaderStateSpec::ReadingHeader { buf } => match e {
            ReadEventSpec::Closed => ReaderStateSpec::Failed {
                error: ReadErrorSpec::Protocol {
                    error: ProtocolErrorSpec::MissingHeaderTerminator,
                },
            },
            ReadEventSpec::Data { chunk } => {
                let nb = buf + chunk;
                match first_term(nb) {
                    None => ReaderStateSpec::ReadingHeader { buf: nb },
                    Some(h) => header_found_spec(nb, h),
                }
            },
        },
        ReaderStateSpec::ReadingBody { request, content_length, body } => match e {
            ReadEventSpec::Closed => ReaderStateSpec::Failed {
                error: ReadErrorSpec::Framing { error: FramingError::IncompleteBody },
            },
            ReadEventSpec::Data { chunk } => body_progress_spec(
                request,
                content_length,
                body + chunk,
            ),
        },
        _ => s,
    }
}

impl ReaderState {
    /// A reader that has seen nothing yet.
    pub fn new() -> (r: ReaderState)
        ensures
            r@ == (ReaderStateSpec::ReadingHeader { buf: Seq::<u8>::empty() }),
    {
        ReaderState::ReadingHeader { buf: Vec::new() }
    }

    /// The reader is done, well or badly: no further event changes it.
    pub fn is_terminal(&self) -> (r: bool)
        ensures
            r == (self@ is Complete || self@ is Failed),
    {
        match self {
            ReaderState::Complete { .. } => true,
            ReaderState::Failed { .. } => true,
            _ => false,
        }
    }
}

/// Weigh the accumulated body of a request against its declared length.
fn body_progress(request: Request, content_length: usize, body: Vec<u8>) -> (r: ReaderState)
    ensures
        r@ == body_progress_spec(request@, content_length as int, body@),
{
    if body.len() == content_length {
        let request = Request { body: Some(body), ..request };
        ReaderState::Complete { request }
    } else if body.len() > content_length {
        ReaderState::Failed {
            error: ReadError::Framing { error: FramingError::OverlongBody },
        }
    } else {
        ReaderState::ReadingBody { request, content_length, body }
    }
}

/// The terminator was found at index `h` of the accumulated bytes `buf`.
fn header_found(buf: &Vec<u8>, h: usize) -> (r: ReaderState)
    requires
        h + 4 <= buf@.len(),
    ensures
        r@ == header_found_spec(buf@, h as int),
{
    let header_block = copy_range(buf.as_slice(), 0, h);
    proof {
        assert(header_block@ =~= buf@.take(h as int));
    }
    match Request::parse_up_to_header(header_block.as_slice()) {
        Err(e) => ReaderState::Failed { error: ReadError::Protocol { error: e } },
        Ok(request) => {
            let cl_name = content_length_name_vec();
            let declared = match request.header(cl_name.as_slice()) {
                None => {
                    return ReaderState::Complete { request };
                },
                Some(v) => parse_usize(v.as_slice()),
            };
            match declared {
                None => ReaderState::Failed {
                    error: ReadError::Protocol { error: ProtocolError::InvalidContentLength },
                },
                Some(content_length) => {
                    let n = buf.len();
                    let body = copy_range(buf.as_slice(), h + 4, n);
                    proof {
                        assert(body@ =~= buf@.skip(h as int + 4));
                    }
                    body_progress(request, content_length, body)
                },
            }
        },
    }
}

/// Drive the reader one event further.
pub fn reader_step(state: ReaderState, event: ReadEvent) -> (next: ReaderState)
    ensures
        next@ == step_spec(state@, event@),
{
    match state {
        ReaderState::ReadingHeader { mut buf } => match event {
            ReadEvent::Closed => ReaderState::Failed {
                error: ReadError::Protocol { error: ProtocolError::MissingHeaderTerminator },
            },
            ReadEvent::Data { mut chunk } => {
                buf.append(&mut chunk);
                match find_terminator(buf.as_slice()) {
                    None => ReaderState::ReadingHeader { buf },
                    Some(h) => {
                        proof {
                            crate::scan::lemma_first_term_from(buf@, 0);
                        }
                        header_found(&buf, h)
                    },
                }
            },
        },
        ReaderState::ReadingBody { request, content_length, mut body } => match event {
            ReadEvent::Closed => ReaderState::Failed {
                error: ReadError::Framing { error: FramingError::IncompleteBody },
            },
            ReadEvent::Data { mut chunk } => {
                body.append(&mut chunk);
                body_progress(request, content_length, body)
            },
        },
        done => done,
    }
}

} // verus!
