//! Deciding a response from a structured request.
//!
//! The route rules are an ordered match over method and path. A request
//! that needs no storage gets its response at once; one that reads or
//! writes a file under the storage root becomes a storage instruction,
//! and a second, total decision turns the storage outcome — whatever it
//! was — into the response. The process around the library performs the
//! instruction and feeds the outcome back; every decision on either side
//! of that call stands here, verified.

use vstd::prelude::*;
use crate::message::{
    HttpCode, HttpMethod, Request, RequestSpec, Response, ResponseSpec, content_headers,
    content_length_name, content_length_name_vec, content_type_name, content_type_name_vec,
    empty_response, header_lookup, make_empty_response, octet_stream, octet_stream_vec,
    text_plain, text_plain_vec, user_agent_name, user_agent_name_vec,
};
use crate::scan::{
    bytes_eq, copy_range, dec_rep, format_usize, has_prefix, parse_usize, parse_usize_spec,
    push_bytes, starts_with,
};

verus! {

// ---- route and message constants ----

/// `"/"`
pub open spec fn root_path() -> Seq<u8> {
    seq![47u8]
}

pub fn root_path_vec() -> (r: Vec<u8>)
    ensures
        r@ == root_path(),
{
    vec![47u8]
}

/// `"/echo/"`
pub open spec fn echo_prefix() -> Seq<u8> {
    seq![47u8, 101u8, 99u8, 104u8, 111u8, 47u8]
}

pub fn echo_prefix_vec() -> (r: Vec<u8>)
    ensures
        r@ == echo_prefix(),
{
    vec![47u8, 101u8, 99u8, 104u8, 111u8, 47u8]
}

/// `"/user-agent"`
pub open spec fn user_agent_path() -> Seq<u8> {
    seq![47u8, 117u8, 115u8, 101u8, 114u8, 45u8, 97u8, 103u8, 101u8, 110u8, 116u8]
}

pub fn user_agent_path_vec() -> (r: Vec<u8>)
    ensures
        r@ == user_agent_path(),
{
    vec![47u8, 117u8, 115u8, 101u8, 114u8, 45u8, 97u8, 103u8, 101u8, 110u8, 116u8]
}

/// `"/files"`
pub open spec fn files_route() -> Seq<u8> {
    seq![47u8, 102u8, 105u8, 108u8, 101u8, 115u8]
}

pub fn files_route_vec() -> (r: Vec<u8>)
    ensures
        r@ == files_route(),
{
    vec![47u8, 102u8, 105u8, 108u8, 101u8, 115u8]
}

/// `"/files/"`
pub open spec fn files_prefix() -> Seq<u8> {
    seq![47u8, 102u8, 105u8, 108u8, 101u8, 115u8, 47u8]
}

pub fn files_prefix_vec() -> (r: Vec<u8>)
    ensures
        r@ == files_prefix(),
{
    vec![47u8, 102u8, 105u8, 108u8, 101u8, 115u8, 47u8]
}

/// `"Expected content type header but got nothing."`
pub open spec fn ct_missing_msg() -> Seq<u8> {
    seq![69u8, 120u8, 112u8, 101u8, 99u8, 116u8, 101u8, 100u8, 32u8, 99u8, 111u8, 110u8, 116u8, 101u8, 110u8, 116u8, 32u8, 116u8, 121u8, 112u8, 101u8, 32u8, 104u8, 101u8, 97u8, 100u8, 101u8, 114u8, 32u8, 98u8, 117u8, 116u8, 32u8, 103u8, 111u8, 116u8, 32u8, 110u8, 111u8, 116u8, 104u8, 105u8, 110u8, 103u8, 46u8]
}

pub fn ct_missing_msg_vec() -> (r: Vec<u8>)
    ensures
        r@ == ct_missing_msg(),
{
    vec![69u8, 120u8, 112u8, 101u8, 99u8, 116u8, 101u8, 100u8, 32u8, 99u8, 111u8, 110u8, 116u8, 101u8, 110u8, 116u8, 32u8, 116u8, 121u8, 112u8, 101u8, 32u8, 104u8, 101u8, 97u8, 100u8, 101u8, 114u8, 32u8, 98u8, 117u8, 116u8, 32u8, 103u8, 111u8, 116u8, 32u8, 110u8, 111u8, 116u8, 104u8, 105u8, 110u8, 103u8, 46u8]
}

/// `"Unsupported content type \`"`
pub open spec fn ct_wrong_pre() -> Seq<u8> {
    seq![85u8, 110u8, 115u8, 117u8, 112u8, 112u8, 111u8, 114u8, 116u8, 101u8, 100u8, 32u8, 99u8, 111u8, 110u8, 116u8, 101u8, 110u8, 116u8, 32u8, 116u8, 121u8, 112u8, 101u8, 32u8, 96u8]
}

pub fn ct_wrong_pre_vec() -> (r: Vec<u8>)
    ensures
        r@ == ct_wrong_pre(),
{
    vec![85u8, 110u8, 115u8, 117u8, 112u8, 112u8, 111u8, 114u8, 116u8, 101u8, 100u8, 32u8, 99u8, 111u8, 110u8, 116u8, 101u8, 110u8, 116u8, 32u8, 116u8, 121u8, 112u8, 101u8, 32u8, 96u8]
}

/// `"\` expected \`application/octet-stream\`"`
pub open spec fn ct_wrong_post() -> Seq<u8> {
    seq![96u8, 32u8, 101u8, 120u8, 112u8, 101u8, 99u8, 116u8, 101u8, 100u8, 32u8, 96u8, 97u8, 112u8, 112u8, 108u8, 105u8, 99u8, 97u8, 116u8, 105u8, 111u8, 110u8, 47u8, 111u8, 99u8, 116u8, 101u8, 116u8, 45u8, 115u8, 116u8, 114u8, 101u8, 97u8, 109u8, 96u8]
}

pub fn ct_wrong_post_vec() -> (r: Vec<u8>)
    ensures
        r@ == ct_wrong_post(),
{
    vec![96u8, 32u8, 101u8, 120u8, 112u8, 101u8, 99u8, 116u8, 101u8, 100u8, 32u8, 96u8, 97u8, 112u8, 112u8, 108u8, 105u8, 99u8, 97u8, 116u8, 105u8, 111u8, 110u8, 47u8, 111u8, 99u8, 116u8, 101u8, 116u8, 45u8, 115u8, 116u8, 114u8, 101u8, 97u8, 109u8, 96u8]
}

/// `"Missing Content-Length header"`
pub open spec fn cl_missing_msg() -> Seq<u8> {
    seq![77u8, 105u8, 115u8, 115u8, 105u8, 110u8, 103u8, 32u8, 67u8, 111u8, 110u8, 116u8, 101u8, 110u8, 116u8, 45u8, 76u8, 101u8, 110u8, 103u8, 116u8, 104u8, 32u8, 104u8, 101u8, 97u8, 100u8, 101u8, 114u8]
}

pub fn cl_missing_msg_vec() -> (r: Vec<u8>)
    ensures
        r@ == cl_missing_msg(),
{
    vec![77u8, 105u8, 115u8, 115u8, 105u8, 110u8, 103u8, 32u8, 67u8, 111u8, 110u8, 116u8, 101u8, 110u8, 116u8, 45u8, 76u8, 101u8, 110u8, 103u8, 116u8, 104u8, 32u8, 104u8, 101u8, 97u8, 100u8, 101u8, 114u8]
}

/// `"Content-Length does not match the body length."`
pub open spec fn cl_mismatch_msg() -> Seq<u8> {
    seq![67u8, 111u8, 110u8, 116u8, 101u8, 110u8, 116u8, 45u8, 76u8, 101u8, 110u8, 103u8, 116u8, 104u8, 32u8, 100u8, 111u8, 101u8, 115u8, 32u8, 110u8, 111u8, 116u8, 32u8, 109u8, 97u8, 116u8, 99u8, 104u8, 32u8, 116u8, 104u8, 101u8, 32u8, 98u8, 111u8, 100u8, 121u8, 32u8, 108u8, 101u8, 110u8, 103u8, 116u8, 104u8, 46u8]
}

pub fn cl_mismatch_msg_vec() -> (r: Vec<u8>)
    ensures
        r@ == cl_mismatch_msg(),
{
    vec![67u8, 111u8, 110u8, 116u8, 101u8, 110u8, 116u8, 45u8, 76u8, 101u8, 110u8, 103u8, 116u8, 104u8, 32u8, 100u8, 111u8, 101u8, 115u8, 32u8, 110u8, 111u8, 116u8, 32u8, 109u8, 97u8, 116u8, 99u8, 104u8, 32u8, 116u8, 104u8, 101u8, 32u8, 98u8, 111u8, 100u8, 121u8, 32u8, 108u8, 101u8, 110u8, 103u8, 116u8, 104u8, 46u8]
}

/// `"No file name sent in url, url should be formatted like /files/<file_name>"`
pub open spec fn no_file_name_msg() -> Seq<u8> {
    seq![78u8, 111u8, 32u8, 102u8, 105u8, 108u8, 101u8, 32u8, 110u8, 97u8, 109u8, 101u8, 32u8, 115u8, 101u8, 110u8, 116u8, 32u8, 105u8, 110u8, 32u8, 117u8, 114u8, 108u8, 44u8, 32u8, 117u8, 114u8, 108u8, 32u8, 115u8, 104u8, 111u8, 117u8, 108u8, 100u8, 32u8, 98u8, 101u8, 32u8, 102u8, 111u8, 114u8, 109u8, 97u8, 116u8, 116u8, 101u8, 100u8, 32u8, 108u8, 105u8, 107u8, 101u8, 32u8, 47u8, 102u8, 105u8, 108u8, 101u8, 115u8, 47u8, 60u8, 102u8, 105u8, 108u8, 101u8, 95u8, 110u8, 97u8, 109u8, 101u8, 62u8]
}

pub fn no_file_name_msg_vec() -> (r: Vec<u8>)
    ensures
        r@ == no_file_name_msg(),
{
    vec![78u8, 111u8, 32u8, 102u8, 105u8, 108u8, 101u8, 32u8, 110u8, 97u8, 109u8, 101u8, 32u8, 115u8, 101u8, 110u8, 116u8, 32u8, 105u8, 110u8, 32u8, 117u8, 114u8, 108u8, 44u8, 32u8, 117u8, 114u8, 108u8, 32u8, 115u8, 104u8, 111u8, 117u8, 108u8, 100u8, 32u8, 98u8, 101u8, 32u8, 102u8, 111u8, 114u8, 109u8, 97u8, 116u8, 116u8, 101u8, 100u8, 32u8, 108u8, 105u8, 107u8, 101u8, 32u8, 47u8, 102u8, 105u8, 108u8, 101u8, 115u8, 47u8, 60u8, 102u8, 105u8, 108u8, 101u8, 95u8, 110u8, 97u8, 109u8, 101u8, 62u8]
}

/// `"File "`
pub open spec fn file_exists_pre() -> Seq<u8> {
    seq![70u8, 105u8, 108u8, 101u8, 32u8]
}

pub fn file_exists_pre_vec() -> (r: Vec<u8>)
    ensures
        r@ == file_exists_pre(),
{
    vec![70u8, 105u8, 108u8, 101u8, 32u8]
}

/// `" already exists."`
pub open spec fn file_exists_post() -> Seq<u8> {
    seq![32u8, 97u8, 108u8, 114u8, 101u8, 97u8, 100u8, 121u8, 32u8, 101u8, 120u8, 105u8, 115u8, 116u8, 115u8, 46u8]
}

pub fn file_exists_post_vec() -> (r: Vec<u8>)
    ensures
        r@ == file_exists_post(),
{
    vec![32u8, 97u8, 108u8, 114u8, 101u8, 97u8, 100u8, 121u8, 32u8, 101u8, 120u8, 105u8, 115u8, 116u8, 115u8, 46u8]
}


// ---- responses the routes build ----

/// A `200 OK` serving `body` as `text/plain`.
pub open spec fn text_response(body: Seq<u8>) -> ResponseSpec {
    ResponseSpec {
        http_code: HttpCode::Okay,
        headers: content_headers(text_plain(), body.len()),
        content: Some(body),
    }
}

/// A `200 OK` serving `body` as `application/octet-stream`.
pub open spec fn octet_response(body: Seq<u8>) -> ResponseSpec {
    ResponseSpec {
        http_code: HttpCode::Okay,
        headers: content_headers(octet_stream(), body.len()),
        content: Some(body),
    }
}

/// A `400 Bad Request` carrying `msg` and its `Content-Length`.
pub open spec fn bad_request_with(msg: Seq<u8>) -> ResponseSpec {
    ResponseSpec {
        http_code: HttpCode::BadRequest,
        headers: seq![(content_length_name(), dec_rep(msg.len()))],
        content: Some(msg),
    }
}

/// A `400 Bad Request` carrying `msg` and no headers.
pub open spec fn bad_request_body_only(msg: Seq<u8>) -> ResponseSpec {
    ResponseSpec { http_code: HttpCode::BadRequest, headers: Seq::empty(), content: Some(msg) }
}

/// The complaint about an unsupported `Content-Type` value.
pub open spec fn ct_wrong_msg(ct: Seq<u8>) -> Seq<u8> {
    ct_wrong_pre() + ct + ct_wrong_post()
}

/// The complaint that the named file already exists.
pub open spec fn file_exists_msg(name: Seq<u8>) -> Seq<u8> {
    file_exists_pre() + name + file_exists_post()
}

fn make_text_response(body: Vec<u8>) -> (r: Response)
    ensures
        r@ == text_response(body@),
{
    let len = body.len();
    let mut headers: Vec<(Vec<u8>, Vec<u8>)> = Vec::new();
    headers.push((content_type_name_vec(), text_plain_vec()));
    headers.push((content_length_name_vec(), format_usize(len)));
    let r = Response { http_code: HttpCode::Okay, headers, content: Some(body) };
    proof {
        assert(r@.headers =~= content_headers(text_plain(), len as nat));
    }
    r
}

fn make_octet_response(body: Vec<u8>) -> (r: Response)
    ensures
        r@ == octet_response(body@),
{
    let len = body.len();
    let mut headers: Vec<(Vec<u8>, Vec<u8>)> = Vec::new();
    headers.push((content_type_name_vec(), octet_stream_vec()));
    headers.push((content_length_name_vec(), format_usize(len)));
    let r = Response { http_code: HttpCode::Okay, headers, content: Some(body) };
    proof {
        assert(r@.headers =~= content_headers(octet_stream(), len as nat));
    }
    r
}

fn make_bad_request_with(msg: Vec<u8>) -> (r: Response)
    ensures
        r@ == bad_request_with(msg@),
{
    let len = msg.len();
    let mut headers: Vec<(Vec<u8>, Vec<u8>)> = Vec::new();
    headers.push((content_length_name_vec(), format_usize(len)));
    let r = Response { http_code: HttpCode::BadRequest, headers, content: Some(msg) };
    proof {
        assert(r@.headers =~= seq![(content_length_name(), dec_rep(len as nat))]);
    }
    r
}

fn make_bad_request_body_only(msg: Vec<u8>) -> (r: Response)
    ensures
        r@ == bad_request_body_only(msg@),
{
    let r = Response { http_code: HttpCode::BadRequest, headers: Vec::new(), content: Some(msg) };
    proof {
        assert(r@.headers =~= Seq::<(Seq<u8>, Seq<u8>)>::empty());
    }
    r
}

/// Concatenate three byte strings.
fn concat3(a: &[u8], b: &[u8], c: &[u8]) -> (r: Vec<u8>)
    ensures
        r@ == a@ + b@ + c@,
{
    let mut v: Vec<u8> = Vec::new();
    push_bytes(&mut v, a);
    push_bytes(&mut v, b);
    push_bytes(&mut v, c);
    proof {
        assert(v@ =~= a@ + b@ + c@);
    }
    v
}

// ---- what the router decides ----

/// What handling a request asks of the process around the library:
/// either a finished response, or one storage operation whose outcome
/// decides the response.
pub enum HandlerAction {
    /// Write this response; no storage is touched.
    Respond { response: Response },
    /// Read the file called `name` under the storage root, then ask
    /// [`file_read_response`].
    ReadFile { name: Vec<u8> },
    /// Create the file called `name` under the storage root — failing
    /// rather than overwriting — write `contents` to it, then ask
    /// [`file_create_response`].
    CreateFile { name: Vec<u8>, contents: Vec<u8> },
}

/// Mathematical image of a `HandlerAction`.
pub ghost enum HandlerActionSpec {
    Respond { response: ResponseSpec },
    ReadFile { name: Seq<u8> },
    CreateFile { name: Seq<u8>, contents: Seq<u8> },
}

impl View for HandlerAction {
    type V = HandlerActionSpec;

    open spec fn view(&self) -> HandlerActionSpec {
        match self {
            HandlerAction::Respond { response } => HandlerActionSpec::Respond {
                response: response@,
            },
            HandlerAction::ReadFile { name } => HandlerActionSpec::ReadFile { name: name@ },
            HandlerAction::CreateFile { name, contents } => HandlerActionSpec::CreateFile {
                name: name@,
                contents: contents@,
            },
        }
    }
}

/// The `GET` routes, first match winning: `/` is answered empty; an
/// `/echo/` path is answered with everything after that prefix; exactly
/// `/user-agent` is answered with that request header, a `500` when the
/// header is absent; a `/files/` path asks for a file read; anything
/// else is `404`.
pub open spec fn handle_get_spec(r: RequestSpec) -> HandlerActionSpec {
    if r.path == root_path() {
        HandlerActionSpec::Respond { response: empty_response(HttpCode::Okay) }
    } else if has_prefix(r.path, echo_prefix()) {
        HandlerActionSpec::Respond { response: text_response(r.path.skip(6)) }
    } else if r.path == user_agent_path() {
        match header_lookup(r.headers, user_agent_name()) {
            Some(v) => HandlerActionSpec::Respond { response: text_response(v) },
            None => HandlerActionSpec::Respond {
                response: empty_response(HttpCode::InternalServerError),
            },
        }
    } else if has_prefix(r.path, files_prefix()) {
        HandlerActionSpec::ReadFile { name: r.path.skip(7) }
    } else {
        HandlerActionSpec::Respond { response: empty_response(HttpCode::NotFound) }
    }
}

/// The `POST` routes. A path outside `/files` is a bare `400`. Under
/// `/files`, the `Content-Type` header must be present and exactly
/// `application/octet-stream`, the `Content-Length` header must be
/// present, read as a number, and equal the length of the body the
/// reader accumulated — each fault its own `400` with a descriptive
/// body. A well-formed upload with a `/files/` path asks for an
/// exclusive file creation; `/files` without a name is a `400` naming
/// the expected shape.
pub open spec fn handle_post_spec(r: RequestSpec) -> HandlerActionSpec {
    if !has_prefix(r.path, files_route()) {
        HandlerActionSpec::Respond { response: empty_response(HttpCode::BadRequest) }
    } else {
        match header_lookup(r.headers, content_type_name()) {
            None => HandlerActionSpec::Respond { response: bad_request_with(ct_missing_msg()) },
            Some(ct) => if ct != octet_stream() {
                HandlerActionSpec::Respond { response: bad_request_with(ct_wrong_msg(ct)) }
            } else {
                match header_lookup(r.headers, content_length_name()) {
                    None => HandlerActionSpec::Respond {
                        response: bad_request_with(cl_missing_msg()),
                    },
                    Some(clv) => {
                        let settled = match (parse_usize_spec(clv), r.body) {
                            (Some(n), Some(b)) => b.len() == n,
                            _ => false,
                        };
                        if !settled {
                            HandlerActionSpec::Respond {
                                response: bad_request_with(cl_mismatch_msg()),
                            }
                        } else if has_prefix(r.path, files_prefix()) {
                            HandlerActionSpec::CreateFile {
                                name: r.path.skip(7),
                                contents: r.body.unwrap(),
                            }
                        } else {
                            HandlerActionSpec::Respond {
                                response: bad_request_body_only(no_file_name_msg()),
                            }
                        }
                    },
                }
            },
        }
    }
}

/// The whole route table.
pub open spec fn handle_request_spec(r: RequestSpec) -> HandlerActionSpec {
    match r.method {
        HttpMethod::Get => handle_get_spec(r),
        HttpMethod::Post => handle_post_spec(r),
    }
}

fn handle_get(req: &Request) -> (a: HandlerAction)
    requires
        req@.method == HttpMethod::Get,
    ensures
        a@ == handle_request_spec(req@),
{
    let path = req.path.as_slice();
    let n = req.path.len();
    let rp = root_path_vec();
    if bytes_eq(path, rp.as_slice()) {
        return HandlerAction::Respond { response: make_empty_response(HttpCode::Okay) };
    }
    let ep = echo_prefix_vec();
    if starts_with(path, ep.as_slice()) {
        let text = copy_range(path, 6, n);
        proof {
            assert(text@ =~= req@.path.skip(6));
        }
        return HandlerAction::Respond { response: make_text_response(text) };
    }
    let up = user_agent_path_vec();
    if bytes_eq(path, up.as_slice()) {
        let ua = user_agent_name_vec();
        return match req.header(ua.as_slice()) {
            Some(v) => {
                let owned = copy_range(v.as_slice(), 0, v.len());
                proof {
                    assert(owned@ =~= v@);
                }
                HandlerAction::Respond { response: make_text_response(owned) }
            },
            None => HandlerAction::Respond {
                response: make_empty_response(HttpCode::InternalServerError),
            },
        };
    }
    let fp = files_prefix_vec();
    if starts_with(path, fp.as_slice()) {
        let name = copy_range(path, 7, n);
        proof {
            assert(name@ =~= req@.path.skip(7));
        }
        return HandlerAction::ReadFile { name };
    }
    HandlerAction::Respond { response: make_empty_response(HttpCode::NotFound) }
}

fn handle_post(req: &Request) -> (a: HandlerAction)
    requires
        req@.method == HttpMethod::Post,
    ensures
        a@ == handle_request_spec(req@),
{
    let path = req.path.as_slice();
    let n = req.path.len();
    let fr = files_route_vec();
    if !starts_with(path, fr.as_slice()) {
        return HandlerAction::Respond { response: make_empty_response(HttpCode::BadRequest) };
    }
    let ctn = content_type_name_vec();
    match req.header(ctn.as_slice()) {
        None => {
            return HandlerAction::Respond {
                response: make_bad_request_with(ct_missing_msg_vec()),
            };
        },
        Some(ct) => {
            let os = octet_stream_vec();
            if !bytes_eq(ct.as_slice(), os.as_slice()) {
                let pre = ct_wrong_pre_vec();
                let post = ct_wrong_post_vec();
                let msg = concat3(pre.as_slice(), ct.as_slice(), post.as_slice());
                return HandlerAction::Respond { response: make_bad_request_with(msg) };
            }
        },
    }
    let cln = content_length_name_vec();
    let declared: Option<usize> = match req.header(cln.as_slice()) {
        None => {
            return HandlerAction::Respond {
                response: make_bad_request_with(cl_missing_msg_vec()),
            };
        },
        Some(v) => parse_usize(v.as_slice()),
    };
    let contents: Option<Vec<u8>> = match (&req.body, declared) {
        (Some(b), Some(len)) => {
            if b.len() == len {
                let c = copy_range(b.as_slice(), 0, b.len());
                proof {
                    assert(c@ =~= b@);
                }
                Some(c)
            } else {
                None
            }
        },
        _ => None,
    };
    match contents {
        None => HandlerAction::Respond { response: make_bad_request_with(cl_mismatch_msg_vec()) },
        Some(contents) => {
            let fp = files_prefix_vec();
            if starts_with(path, fp.as_slice()) {
                let name = copy_range(path, 7, n);
                proof {
                    assert(name@ =~= req@.path.skip(7));
                }
                HandlerAction::CreateFile { name, contents }
            } else {
                HandlerAction::Respond {
                    response: make_bad_request_body_only(no_file_name_msg_vec()),
                }
            }
        },
    }
}

/// Decide what a request deserves.
pub fn handle_request(req: &Request) -> (a: HandlerAction)
    ensures
        a@ == handle_request_spec(req@),
{
    match req.method {
        HttpMethod::Get => handle_get(req),
        HttpMethod::Post => handle_post(req),
    }
}

// ---- storage outcomes ----

/// What came of reading the named file under the storage root.
pub enum FileReadOutcome {
    /// The file was read whole.
    Found { contents: Vec<u8> },
    /// No file of that name exists.
    NotFound,
    /// No storage root was ever configured.
    RootUnset,
    /// Reading failed some other way.
    OtherError,
}

/// Mathematical image of a `FileReadOutcome`.
pub ghost enum FileReadOutcomeSpec {
    Found { contents: Seq<u8> },
    NotFound,
    RootUnset,
    OtherError,
}

impl View for FileReadOutcome {
    type V = FileReadOutcomeSpec;

    open spec fn view(&self) -> FileReadOutcomeSpec {
        match self {
            FileReadOutcome::Found { contents } => FileReadOutcomeSpec::Found {
                contents: contents@,
            },
            FileReadOutcome::NotFound => FileReadOutcomeSpec::NotFound,
            FileReadOutcome::RootUnset => FileReadOutcomeSpec::RootUnset,
            FileReadOutcome::OtherError => FileReadOutcomeSpec::OtherError,
        }
    }
}

/// What came of creating the named file under the storage root.
#[derive(Clone, Copy, PartialEq, Eq, Structural, Debug)]
pub enum FileCreateOutcome {
    /// The file was created and the body written whole.
    Created,
    /// A file of that name already exists; nothing was written.
    AlreadyExists,
    /// No storage root was ever configured.
    RootUnset,
    /// Creating or writing failed some other way.
    OtherError,
}

/// The response owed for each outcome of a file read: the bytes as
/// `application/octet-stream`, a `404` when the file does not exist, a
/// `500` when the root is unset or the read failed otherwise.
pub open spec fn file_read_response_spec(o: FileReadOutcomeSpec) -> ResponseSpec {
    match o {
        FileReadOutcomeSpec::Found { contents } => octet_response(contents),
        FileReadOutcomeSpec::NotFound => empty_response(HttpCode::NotFound),
        FileReadOutcomeSpec::RootUnset => empty_response(HttpCode::InternalServerError),
        FileReadOutcomeSpec::OtherError => empty_response(HttpCode::InternalServerError),
    }
}

/// Turn the outcome of a file read into its response.
pub fn file_read_response(outcome: FileReadOutcome) -> (r: Response)
    ensures
        r@ == file_read_response_spec(outcome@),
{
    match outcome {
        FileReadOutcome::Found { contents } => make_octet_response(contents),
        FileReadOutcome::NotFound => make_empty_response(HttpCode::NotFound),
        FileReadOutcome::RootUnset => make_empty_response(HttpCode::InternalServerError),
        FileReadOutcome::OtherError => make_empty_response(HttpCode::InternalServerError),
    }
}

/// The response owed for each outcome of an exclusive file creation: a
/// bare `201` on success, a `400` naming the file when it already
/// exists, a `500` when the root is unset or the write failed otherwise.
pub open spec fn file_create_response_spec(name: Seq<u8>, o: FileCreateOutcome) -> ResponseSpec {
    match o {
        FileCreateOutcome::Created => empty_response(HttpCode::Created),
        FileCreateOutcome::AlreadyExists => bad_request_with(file_exists_msg(name)),
        FileCreateOutcome::RootUnset => empty_response(HttpCode::InternalServerError),
        FileCreateOutcome::OtherError => empty_response(HttpCode::InternalServerError),
    }
}

/// Turn the outcome of an exclusive file creation into its response.
pub fn file_create_response(name: &[u8], outcome: FileCreateOutcome) -> (r: Response)
    ensures
        r@ == file_create_response_spec(name@, outcome),
{
    match outcome {
        FileCreateOutcome::Created => make_empty_response(HttpCode::Created),
        FileCreateOutcome::AlreadyExists => {
            let pre = file_exists_pre_vec();
            let post = file_exists_post_vec();
            let msg = concat3(pre.as_slice(), name, post.as_slice());
            make_bad_request_with(msg)
        },
        FileCreateOutcome::RootUnset => make_empty_response(HttpCode::InternalServerError),
        FileCreateOutcome::OtherError => make_empty_response(HttpCode::InternalServerError),
    }
}

} // verus!
