//! Serializing a [`Response`] into the bytes written back on the wire:
//! the status line, each header line in order, a blank line, then the
//! body bytes if any.

use vstd::prelude::*;
use crate::message::{Response, ResponseSpec, status_text};
use crate::scan::push_bytes;

verus! {

/// `"HTTP/1.1 "`
pub open spec fn http11_prefix() -> Seq<u8> {
    seq![72u8, 84u8, 84u8, 80u8, 47u8, 49u8, 46u8, 49u8, 32u8]
}

/// `"\r\n"`
pub open spec fn crlf() -> Seq<u8> {
    seq![13u8, 10u8]
}

/// `": "`
pub open spec fn colon_space() -> Seq<u8> {
    seq![58u8, 32u8]
}

/// The header block: every `<name>: <value>\r\n` line, in order.
pub open spec fn header_lines_bytes(hs: Seq<(Seq<u8>, Seq<u8>)>) -> Seq<u8>
    decreases hs.len(),
{
    if hs.len() == 0 {
        Seq::empty()
    } else {
        header_lines_bytes(hs.drop_last()) + hs.last().0 + colon_space() + hs.last().1 + crlf()
    }
}

/// The wire form of a response: `HTTP/1.1 <code> <reason>\r\n`, the
/// header lines, a blank line, then the body if one is present.
pub open spec fn serialize_spec(r: ResponseSpec) -> Seq<u8> {
    http11_prefix() + status_text(r.http_code) + crlf() + header_lines_bytes(r.headers) + crlf()
        + (match r.content {
        Some(b) => b,
        None => Seq::<u8>::empty(),
    })
}

impl Response {
    /// Serialize the response.
    pub fn to_bytes(&self) -> (r: Vec<u8>)
        ensures
            r@ == serialize_spec(self@),
    {
        let mut out: Vec<u8> = Vec::new();
        let prefix: Vec<u8> = vec![72u8, 84u8, 84u8, 80u8, 47u8, 49u8, 46u8, 49u8, 32u8];
        push_bytes(&mut out, prefix.as_slice());
        let status = self.http_code.to_tcp_format();
        push_bytes(&mut out, status.as_slice());
        let line_end: Vec<u8> = vec![13u8, 10u8];
        push_bytes(&mut out, line_end.as_slice());
        proof {
            assert(out@ =~= http11_prefix() + status_text(self@.http_code) + crlf());
        }
        let ghost start = out@;
        let ghost hs = self@.headers;
        let sep: Vec<u8> = vec![58u8, 32u8];
        let mut i: usize = 0;
        while i < self.headers.len()
            invariant
                i <= self.headers.len(),
                hs == self@.headers,
                hs.len() == self.headers@.len(),
                forall|j: int| 0 <= j < hs.len() ==> hs[j] == (
                    self.headers@[j].0@,
                    self.headers@[j].1@,
                ),
                sep@ == colon_space(),
                line_end@ == crlf(),
                out@ == start + header_lines_bytes(hs.take(i as int)),
            decreases self.headers@.len() - i,
        {
            let pair = &self.headers[i];
            push_bytes(&mut out, pair.0.as_slice());
            push_bytes(&mut out, sep.as_slice());
            push_bytes(&mut out, pair.1.as_slice());
            push_bytes(&mut out, line_end.as_slice());
            proof {
                assert(hs.take(i as int + 1).drop_last() =~= hs.take(i as int));
                assert(hs.take(i as int + 1).last() == hs[i as int]);
                assert(out@ =~= start + header_lines_bytes(hs.take(i as int + 1)));
            }
            i = i + 1;
        }
        proof {
            assert(hs.take(hs.len() as int) =~= hs);
        }
        push_bytes(&mut out, line_end.as_slice());
        match &self.content {
            Some(b) => {
                push_bytes(&mut out, b.as_slice());
            },
            None => {},
        }
        proof {
            assert(out@ =~= serialize_spec(self@));
        }
        out
    }
}

} // verus!
