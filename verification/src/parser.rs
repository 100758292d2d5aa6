//! Turning an isolated header block — the text up to but excluding the
//! `\r\n\r\n` terminator — into a structured [`Request`].
//!
//! The block is split into lines; the first is the request line, split on
//! whitespace into method, path and version tokens; every further line is
//! a header, split on its first `": "`.

use vstd::prelude::*;
use crate::message::{
    HttpMethod, ProtocolError, ProtocolErrorSpec, Request, RequestSpec, get_token, post_token,
};
use crate::scan::{
    bytes_eq, copy_range, first_byte_from, is_ws, lemma_first_byte_from, lemma_token_end,
    scan_token_end, token_end,
};

verus! {

// ---- lines ----

/// A line as `str::lines` yields it: a trailing `\r` is shed only when the
/// line was ended by `\r\n`.
pub open spec fn strip_cr(line: Seq<u8>) -> Seq<u8> {
    if line.len() > 0 && line.last() == 13u8 {
        line.drop_last()
    } else {
        line
    }
}

/// The lines of `s` from index `i` on, split as `str::lines` splits them:
/// at each `\n`, shedding a `\r` that stood before it; a last line without
/// a line ending is kept whole.
pub open spec fn split_lines_from(s: Seq<u8>, i: int) -> Seq<Seq<u8>>
    decreases s.len() - i,
    when 0 <= i
    via split_lines_from_dec
{
    if i >= s.len() {
        Seq::empty()
    } else {
        match first_byte_from(s, 10u8, i) {
            None => seq![s.subrange(i, s.len() as int)],
            Some(k) => seq![strip_cr(s.subrange(i, k))] + split_lines_from(s, k + 1),
        }
    }
}

#[via_fn]
proof fn split_lines_from_dec(s: Seq<u8>, i: int) {
    if 0 <= i < s.len() {
        lemma_first_byte_from(s, 10u8, i);
    }
}

/// Copy line `s[start..end]`, shedding a trailing `\r`.
fn copy_line(s: &[u8], start: usize, end: usize) -> (r: Vec<u8>)
    requires
        start <= end <= s@.len(),
    ensures
        r@ == strip_cr(s@.subrange(start as int, end as int)),
{
    if end > start && s[end - 1] == 13u8 {
        proof {
            assert(s@.subrange(start as int, end as int).drop_last() =~= s@.subrange(
                start as int,
                end as int - 1,
            ));
        }
        copy_range(s, start, end - 1)
    } else {
        copy_range(s, start, end)
    }
}

/// Split `s` into its lines.
fn split_lines_exec(s: &[u8]) -> (r: Vec<Vec<u8>>)
    ensures
        r@.len() == split_lines_from(s@, 0).len(),
        forall|i: int| 0 <= i < r@.len() ==> r@[i]@ == split_lines_from(s@, 0)[i],
{
    let n = s.len();
    let mut out: Vec<Vec<u8>> = Vec::new();
    let mut pos: usize = 0;
    while pos < n
        invariant
            n == s@.len(),
            0 <= pos <= n,
            split_lines_from(s@, 0) =~= out@.map_values(|v: Vec<u8>| v@) + split_lines_from(
                s@,
                pos as int,
            ),
        decreases n - pos,
    {
        let ghost old_map = out@.map_values(|v: Vec<u8>| v@);
        match crate::scan::find_byte_from(s, 10u8, pos) {
            Some(k) => {
                let line = copy_line(s, pos, k);
                out.push(line);
                proof {
                    assert(out@.map_values(|v: Vec<u8>| v@) =~= old_map + seq![line@]);
                    assert(old_map + (seq![line@] + split_lines_from(s@, k + 1)) =~= (old_map
                        + seq![line@]) + split_lines_from(s@, k + 1));
                }
                pos = k + 1;
            },
            None => {
                let line = copy_range(s, pos, n);
                out.push(line);
                proof {
                    assert(out@.map_values(|v: Vec<u8>| v@) =~= old_map + seq![line@]);
                    assert(old_map + seq![line@] =~= (old_map + seq![line@]) + split_lines_from(
                        s@,
                        n as int,
                    ));
                }
                pos = n;
            },
        }
    }
    proof {
        assert(split_lines_from(s@, 0) =~= out@.map_values(|v: Vec<u8>| v@));
    }
    out
}

// ---- the request line ----

/// The whitespace-separated tokens of `s` from index `i` on.
pub open spec fn tokens_from(s: Seq<u8>, i: int) -> Seq<Seq<u8>>
    decreases s.len() - i,
    when 0 <= i
    via tokens_from_dec
{
    if i >= s.len() {
        Seq::empty()
    } else if is_ws(s[i]) {
        tokens_from(s, i + 1)
    } else {
        seq![s.subrange(i, token_end(s, i))] + tokens_from(s, token_end(s, i))
    }
}

#[via_fn]
proof fn tokens_from_dec(s: Seq<u8>, i: int) {
    if 0 <= i < s.len() && !is_ws(s[i]) {
        lemma_token_end(s, i + 1);
    }
}

/// Scan for the next token at or after `from`; `None` when the rest of the
/// text is whitespace.
fn next_token(s: &[u8], from: usize) -> (r: Option<(Vec<u8>, usize)>)
    requires
        from <= s@.len(),
    ensures
        match r {
            None => tokens_from(s@, from as int) == Seq::<Seq<u8>>::empty(),
            Some(pair) => {
                &&& from < pair.1 <= s@.len()
                &&& tokens_from(s@, from as int) == seq![pair.0@] + tokens_from(s@, pair.1 as int)
            },
        },
{
    let n = s.len();
    let mut i: usize = from;
    while i < n && (s[i] == 9u8 || s[i] == 10u8 || s[i] == 11u8 || s[i] == 12u8 || s[i] == 13u8
        || s[i] == 32u8)
        invariant
            n == s@.len(),
            from <= i <= n,
            tokens_from(s@, from as int) == tokens_from(s@, i as int),
        decreases n - i,
    {
        i = i + 1;
    }
    if i == n {
        return None;
    }
    let e = scan_token_end(s, i);
    proof {
        lemma_token_end(s@, i as int + 1);
    }
    let tok = copy_range(s, i, e);
    Some((tok, e))
}

/// What a request-line token names as a method.
pub open spec fn method_of(tok: Seq<u8>) -> Option<HttpMethod> {
    if tok == get_token() {
        Some(HttpMethod::Get)
    } else if tok == post_token() {
        Some(HttpMethod::Post)
    } else {
        None
    }
}

impl HttpMethod {
    /// Read a method token.
    pub fn parse(method: &[u8]) -> (r: Result<Self, ProtocolError>)
        ensures
            match r {
                Ok(m) => method_of(method@) == Some(m),
                Err(e) => method_of(method@) is None && e@ == ProtocolErrorSpec::UnknownMethod,
            },
    {
        let g: Vec<u8> = vec![71u8, 69u8, 84u8];
        if bytes_eq(method, g.as_slice()) {
            return Ok(HttpMethod::Get);
        }
        let p: Vec<u8> = vec![80u8, 79u8, 83u8, 84u8];
        if bytes_eq(method, p.as_slice()) {
            return Ok(HttpMethod::Post);
        }
        Err(ProtocolError::UnknownMethod)
    }
}

/// Reading the request line: its first three whitespace-separated tokens
/// are the method, the path and the version; a missing token is fatal, a
/// token beyond the third is ignored.
pub open spec fn parse_request_line(line: Seq<u8>) -> Result<
    (HttpMethod, Seq<u8>, Seq<u8>),
    ProtocolErrorSpec,
> {
    let toks = tokens_from(line, 0);
    if toks.len() == 0 {
        Err(ProtocolErrorSpec::MalformedRequestLine)
    } else if method_of(toks[0]) is None {
        Err(ProtocolErrorSpec::UnknownMethod)
    } else if toks.len() < 3 {
        Err(ProtocolErrorSpec::MalformedRequestLine)
    } else {
        Ok((method_of(toks[0]).unwrap(), toks[1], toks[2]))
    }
}

/// Read the request line.
fn parse_request_line_exec(line: &[u8]) -> (r: Result<(HttpMethod, Vec<u8>, Vec<u8>), ProtocolError>)
    ensures
        match r {
            Ok(t) => parse_request_line(line@) == Ok::<_, ProtocolErrorSpec>((t.0, t.1@, t.2@)),
            Err(e) => parse_request_line(line@) == Err::<(HttpMethod, Seq<u8>, Seq<u8>), _>(e@),
        },
{
    let ghost toks = tokens_from(line@, 0);
    match next_token(line, 0) {
        None => Err(ProtocolError::MalformedRequestLine),
        Some((t0, p1)) => {
            proof {
                assert(toks[0] == t0@);
            }
            match HttpMethod::parse(t0.as_slice()) {
                Err(e) => Err(e),
                Ok(m) => {
                    match next_token(line, p1) {
                        None => {
                            proof {
                                assert(toks =~= seq![t0@]);
                            }
                            Err(ProtocolError::MalformedRequestLine)
                        },
                        Some((t1, p2)) => {
                            match next_token(line, p2) {
                                None => {
                                    proof {
                                        assert(toks =~= seq![t0@, t1@]);
                                    }
                                    Err(ProtocolError::MalformedRequestLine)
                                },
                                Some((t2, _p3)) => {
                                    proof {
                                        assert(toks.len() >= 3);
                                        assert(toks[1] == t1@);
                                        assert(toks[2] == t2@);
                                    }
                                    Ok((m, t1, t2))
                                },
                            }
                        },
                    }
                },
            }
        },
    }
}

// ---- header lines ----

/// The `": "` separator begins at index `i` of `s`.
pub open spec fn sep_at(s: Seq<u8>, i: int) -> bool {
    &&& 0 <= i
    &&& i + 2 <= s.len()
    &&& s[i] == 58u8
    &&& s[i + 1] == 32u8
}

/// Index of the first `": "` at or after `i`, if any.
pub open spec fn first_sep_from(s: Seq<u8>, i: int) -> Option<int>
    decreases s.len() - i,
{
    if i + 2 > s.len() {
        None
    } else if sep_at(s, i) {
        Some(i)
    } else {
        first_sep_from(s, i + 1)
    }
}

/// Scan `s` for the first `": "`.
fn find_sep(s: &[u8]) -> (r: Option<usize>)
    ensures
        match r {
            Some(k) => first_sep_from(s@, 0) == Some(k as int) && k + 2 <= s@.len(),
            None => first_sep_from(s@, 0) is None,
        },
{
    let n = s.len();
    if n < 2 {
        return None;
    }
    let mut i: usize = 0;
    while i <= n - 2
        invariant
            n == s@.len(),
            2 <= n,
            0 <= i <= n,
            first_sep_from(s@, 0) == first_sep_from(s@, i as int),
        decreases n - i,
    {
        if s[i] == 58u8 && s[i + 1] == 32u8 {
            return Some(i);
        }
        i = i + 1;
    }
    None
}

/// What a header line holds: the text before its first `": "` names the
/// header, the text after it is the value; a line without the separator
/// holds nothing.
pub open spec fn header_kv(line: Seq<u8>) -> Option<(Seq<u8>, Seq<u8>)> {
    match first_sep_from(line, 0) {
        None => None,
        Some(k) => Some((line.subrange(0, k), line.subrange(k + 2, line.len() as int))),
    }
}

/// Split one header line at its first `": "`.
fn split_header_line(line: &[u8]) -> (r: Option<(Vec<u8>, Vec<u8>)>)
    ensures
        match r {
            None => header_kv(line@) is None,
            Some(kv) => header_kv(line@) == Some((kv.0@, kv.1@)),
        },
{
    match find_sep(line) {
        None => None,
        Some(k) => {
            let n = line.len();
            let name = copy_range(line, 0, k);
            let value = copy_range(line, k + 2, n);
            Some((name, value))
        },
    }
}

/// Reading the header lines from index `i` on: each line in order, the
/// first line without a `": "` being fatal and named in the error.
pub open spec fn parse_headers_from(lines: Seq<Seq<u8>>, i: int) -> Result<
    Seq<(Seq<u8>, Seq<u8>)>,
    ProtocolErrorSpec,
>
    decreases lines.len() - i,
{
    if i >= lines.len() {
        Ok(Seq::empty())
    } else {
        match header_kv(lines[i]) {
            None => Err(ProtocolErrorSpec::MalformedHeader { line: lines[i] }),
            Some(kv) => match parse_headers_from(lines, i + 1) {
                Err(e) => Err(e),
                Ok(rest) => Ok(seq![kv] + rest),
            },
        }
    }
}

// ---- the whole header block ----

/// Reading the whole header block: the first line is the request line,
/// every further line a header; the body is never set here.
pub open spec fn parse_request_spec(h: Seq<u8>) -> Result<RequestSpec, ProtocolErrorSpec> {
    let lines = split_lines_from(h, 0);
    if lines.len() == 0 {
        Err(ProtocolErrorSpec::MalformedRequestLine)
    } else {
        match parse_request_line(lines[0]) {
            Err(e) => Err(e),
            Ok(t) => match parse_headers_from(lines, 1) {
                Err(e) => Err(e),
                Ok(hs) => Ok(
                    RequestSpec {
                        method: t.0,
                        path: t.1,
                        http_version: t.2,
                        headers: hs,
                        body: None,
                    },
                ),
            },
        }
    }
}

impl Request {
    /// Read the header block into a structured request.
    pub fn parse_up_to_header(header_string: &[u8]) -> (r: Result<Request, ProtocolError>)
        ensures
            match r {
                Ok(req) => parse_request_spec(header_string@) == Ok::<_, ProtocolErrorSpec>(req@),
                Err(e) => parse_request_spec(header_string@) == Err::<RequestSpec, _>(e@),
            },
    {
        let ghost ls = split_lines_from(header_string@, 0);
        let lines = split_lines_exec(header_string);
        if lines.len() == 0 {
            return Err(ProtocolError::MalformedRequestLine);
        }
        let (method, path, http_version) = match parse_request_line_exec(lines[0].as_slice()) {
            Err(e) => {
                return Err(e);
            },
            Ok(t) => t,
        };
        let mut headers: Vec<(Vec<u8>, Vec<u8>)> = Vec::new();
        let mut i: usize = 1;
        while i < lines.len()
            invariant
                1 <= i <= lines.len(),
                ls == split_lines_from(header_string@, 0),
                ls.len() > 0,
                parse_request_line(ls[0]) == Ok::<_, ProtocolErrorSpec>(
                    (method, path@, http_version@),
                ),
                lines@.len() == ls.len(),
                forall|j: int| 0 <= j < ls.len() ==> lines@[j]@ == ls[j],
                parse_headers_from(ls, i as int) matches Ok(rest) ==> parse_headers_from(ls, 1)
                    == Ok::<_, ProtocolErrorSpec>(
                    headers@.map_values(|p: (Vec<u8>, Vec<u8>)| (p.0@, p.1@)) + rest,
                ),
                parse_headers_from(ls, i as int) matches Err(e) ==> parse_headers_from(ls, 1)
                    == Err::<Seq<(Seq<u8>, Seq<u8>)>, _>(e),
            decreases lines@.len() - i,
        {
            let ghost hacc = headers@.map_values(|p: (Vec<u8>, Vec<u8>)| (p.0@, p.1@));
            let line = &lines[i];
            match split_header_line(line.as_slice()) {
                None => {
                    let owned = copy_range(line.as_slice(), 0, line.len());
                    proof {
                        assert(owned@ =~= ls[i as int]);
                    }
                    return Err(ProtocolError::MalformedHeader { line: owned });
                },
                Some(kv) => {
                    let ghost kvs = (kv.0@, kv.1@);
                    headers.push(kv);
                    proof {
                        assert(headers@.map_values(|p: (Vec<u8>, Vec<u8>)| (p.0@, p.1@)) =~= hacc
                            + seq![kvs]);
                        match parse_headers_from(ls, i as int + 1) {
                            Ok(rest) => {
                                assert(parse_headers_from(ls, i as int) == Ok::<
                                    _,
                                    ProtocolErrorSpec,
                                >(seq![kvs] + rest));
                                assert(hacc + (seq![kvs] + rest) =~= (hacc + seq![kvs]) + rest);
                            },
                            Err(_) => {},
                        }
                    }
                    i = i + 1;
                },
            }
        }
        let req = Request { method, path, http_version, headers, body: None };
        proof {
            assert(parse_headers_from(ls, i as int) == Ok::<_, ProtocolErrorSpec>(
                Seq::<(Seq<u8>, Seq<u8>)>::empty(),
            ));
            assert(req@.headers + Seq::<(Seq<u8>, Seq<u8>)>::empty() =~= req@.headers);
        }
        Ok(req)
    }
}

} // verus!
