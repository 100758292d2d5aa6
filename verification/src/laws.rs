//! The crate-wide laws: what the framing, routing and storage decisions
//! together guarantee about whole exchanges.

use vstd::prelude::*;
use crate::handler::{
    FileReadOutcomeSpec, HandlerActionSpec, file_read_response_spec, handle_request_spec,
};
use crate::message::{
    HttpCode, HttpMethod, ProtocolErrorSpec, RequestSpec, content_length_name, header_lookup,
};
use crate::parser::parse_request_spec;
use crate::reader::{ReadEventSpec, ReaderStateSpec, step_spec};
use crate::scan::{
    lemma_first_term_from_is, parse_usize_spec, term_at, term_bytes,
};

verus! {

/// Framing is byte-exact. A stream made of a header block free of the
/// terminator, the terminator, and a body of exactly the declared
/// `Content-Length` — whatever bytes the body holds, the terminator
/// sequence included — is framed as precisely that header block and
/// precisely that body.
///
/// Together with [`lemma_upload_round_trip`] this is the round trip: the
/// body bytes of an upload reach storage unchanged, and are served back
/// unchanged.
pub proof fn lemma_framing_round_trip(
    header: Seq<u8>,
    body: Seq<u8>,
    req: RequestSpec,
    clv: Seq<u8>,
)
    requires
        forall|i: int| 0 <= i < header.len() ==> !term_at(header + term_bytes(), i),
        parse_request_spec(header) == Ok::<_, ProtocolErrorSpec>(req),
        header_lookup(req.headers, content_length_name()) == Some(clv),
        parse_usize_spec(clv) == Some(body.len()),
    ensures
        step_spec(
            ReaderStateSpec::ReadingHeader { buf: Seq::<u8>::empty() },
            ReadEventSpec::Data { chunk: header + term_bytes() + body },
        ) == (ReaderStateSpec::Complete { request: RequestSpec { body: Some(body), ..req } }),
{
    let full = header + term_bytes() + body;
    let h = header.len() as int;
    assert(Seq::<u8>::empty() + full =~= full);
    assert(term_at(full, h)) by {
        assert(full[h] == 13u8);
        assert(full[h + 1] == 10u8);
        assert(full[h + 2] == 13u8);
        assert(full[h + 3] == 10u8);
    }
    assert forall|j: int| 0 <= j < h implies !term_at(full, j) by {
        assert(!term_at(header + term_bytes(), j));
        assert(full[j] == (header + term_bytes())[j]);
        assert(full[j + 1] == (header + term_bytes())[j + 1]);
        assert(full[j + 2] == (header + term_bytes())[j + 2]);
        assert(full[j + 3] == (header + term_bytes())[j + 3]);
    }
    lemma_first_term_from_is(full, 0, h);
    assert(full.take(h) =~= header);
    assert(full.skip(h + 4) =~= body);
}

/// Framing is byte-exact across a chunk boundary too: delivering the
/// header block with its terminator first and the whole body after
/// passes through the body-reading state and frames the same request as
/// one delivery would.
pub proof fn lemma_framing_round_trip_split(
    header: Seq<u8>,
    body: Seq<u8>,
    req: RequestSpec,
    clv: Seq<u8>,
)
    requires
        forall|i: int| 0 <= i < header.len() ==> !term_at(header + term_bytes(), i),
        parse_request_spec(header) == Ok::<_, ProtocolErrorSpec>(req),
        header_lookup(req.headers, content_length_name()) == Some(clv),
        parse_usize_spec(clv) == Some(body.len()),
        body.len() > 0,
    ensures
        step_spec(
            ReaderStateSpec::ReadingHeader { buf: Seq::<u8>::empty() },
            ReadEventSpec::Data { chunk: header + term_bytes() },
        ) == (ReaderStateSpec::ReadingBody {
            request: req,
            content_length: body.len() as int,
            body: Seq::<u8>::empty(),
        }),
        step_spec(
            ReaderStateSpec::ReadingBody {
                request: req,
                content_length: body.len() as int,
                body: Seq::<u8>::empty(),
            },
            ReadEventSpec::Data { chunk: body },
        ) == (ReaderStateSpec::Complete { request: RequestSpec { body: Some(body), ..req } }),
{
    let framed = header + term_bytes();
    let h = header.len() as int;
    assert(Seq::<u8>::empty() + framed =~= framed);
    assert(term_at(framed, h)) by {
        assert(framed[h] == 13u8);
        assert(framed[h + 1] == 10u8);
        assert(framed[h + 2] == 13u8);
        assert(framed[h + 3] == 10u8);
    }
    lemma_first_term_from_is(framed, 0, h);
    assert(framed.take(h) =~= header);
    assert(framed.skip(h + 4) =~= Seq::<u8>::empty());
    assert(Seq::<u8>::empty() + body =~= body);
}

/// What a well-formed upload stores is the request body, byte for byte,
/// and a read that finds those bytes serves them back, byte for byte,
/// as a `200` — the storage root holding them in between is the
/// filesystem's business, not this crate's.
pub proof fn lemma_upload_round_trip(req: RequestSpec, name: Seq<u8>, contents: Seq<u8>)
    requires
        handle_request_spec(req) == (HandlerActionSpec::CreateFile { name, contents }),
    ensures
        req.body == Some(contents),
        file_read_response_spec(FileReadOutcomeSpec::Found { contents }).content == Some(contents),
        file_read_response_spec(FileReadOutcomeSpec::Found { contents }).http_code
            == HttpCode::Okay,
{
}

/// A `GET` never asks storage for a write: repeating one cannot mutate
/// anything. With the exact contracts of `handle_request` and
/// `file_read_response`, repeated `GET`s of an unchanged request over
/// unchanged storage also return the same response.
pub proof fn lemma_get_reads_only(req: RequestSpec)
    requires
        req.method == HttpMethod::Get,
    ensures
        !(handle_request_spec(req) is CreateFile),
{
}

} // verus!
