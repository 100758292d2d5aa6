//! Byte-level scanning primitives shared by the framing, parsing and
//! serialization layers: locating the header terminator, line and token
//! boundaries, and reading and writing decimal numbers.

use vstd::prelude::*;
use vstd::slice::{slice_subrange, slice_to_vec};

verus! {

/// The 4-byte header terminator `\r\n\r\n` begins at index `i` of `s`.
pub open spec fn term_at(s: Seq<u8>, i: int) -> bool {
    &&& 0 <= i
    &&& i + 4 <= s.len()
    &&& s[i] == 13u8
    &&& s[i + 1] == 10u8
    &&& s[i + 2] == 13u8
    &&& s[i + 3] == 10u8
}

/// Index of the first header terminator at or after `i`, if any.
pub open spec fn first_term_from(s: Seq<u8>, i: int) -> Option<int>
    decreases s.len() - i,
{
    if i + 4 > s.len() {
        None
    } else if term_at(s, i) {
        Some(i)
    } else {
        first_term_from(s, i + 1)
    }
}

/// Index of the first header terminator of `s`, if any.
pub open spec fn first_term(s: Seq<u8>) -> Option<int> {
    first_term_from(s, 0)
}

/// The terminator itself: `\r\n\r\n`.
pub open spec fn term_bytes() -> Seq<u8> {
    seq![13u8, 10u8, 13u8, 10u8]
}

pub proof fn lemma_first_term_from(s: Seq<u8>, i: int)
    requires
        0 <= i,
    ensures
        match first_term_from(s, i) {
            Some(k) => i <= k && term_at(s, k) && forall|j: int| i <= j < k ==> !term_at(s, j),
            None => forall|j: int| i <= j ==> !term_at(s, j),
        },
    decreases s.len() - i,
{
    if i + 4 > s.len() {
    } else if term_at(s, i) {
    } else {
        lemma_first_term_from(s, i + 1);
    }
}

/// If the first terminator at or after `i` is known, `first_term_from` finds it.
pub proof fn lemma_first_term_from_is(s: Seq<u8>, i: int, h: int)
    requires
        0 <= i <= h,
        term_at(s, h),
        forall|j: int| i <= j < h ==> !term_at(s, j),
    ensures
        first_term_from(s, i) == Some(h),
    decreases h - i,
{
    if i < h {
        lemma_first_term_from_is(s, i + 1, h);
    }
}

/// Scan `s` for the first occurrence of the header terminator.
pub fn find_terminator(s: &[u8]) -> (r: Option<usize>)
    ensures
        match r {
            Some(k) => first_term(s@) == Some(k as int),
            None => first_term(s@) is None,
        },
{
    let n = s.len();
    if n < 4 {
        return None;
    }
    let mut i: usize = 0;
    while i <= n - 4
        invariant
            n == s@.len(),
            4 <= n,
            0 <= i <= n,
            first_term_from(s@, 0) == first_term_from(s@, i as int),
        decreases n - i,
    {
        if s[i] == 13u8 && s[i + 1] == 10u8 && s[i + 2] == 13u8 && s[i + 3] == 10u8 {
            return Some(i);
        }
        i = i + 1;
    }
    None
}

/// Index of the first occurrence of byte `b` at or after `i`, if any.
pub open spec fn first_byte_from(s: Seq<u8>, b: u8, i: int) -> Option<int>
    decreases s.len() - i,
{
    if i >= s.len() {
        None
    } else if s[i] == b {
        Some(i)
    } else {
        first_byte_from(s, b, i + 1)
    }
}

pub proof fn lemma_first_byte_from(s: Seq<u8>, b: u8, i: int)
    requires
        0 <= i,
    ensures
        match first_byte_from(s, b, i) {
            Some(k) => i <= k < s.len() && s[k] == b && forall|j: int| i <= j < k ==> s[j] != b,
            None => forall|j: int| i <= j < s.len() ==> s[j] != b,
        },
    decreases s.len() - i,
{
    if i >= s.len() {
    } else if s[i] == b {
    } else {
        lemma_first_byte_from(s, b, i + 1);
    }
}

/// Scan `s` from `from` for the first occurrence of byte `b`.
pub fn find_byte_from(s: &[u8], b: u8, from: usize) -> (r: Option<usize>)
    requires
        from <= s@.len(),
    ensures
        match r {
            Some(k) => first_byte_from(s@, b, from as int) == Some(k as int) && from <= k < s@.len(),
            None => first_byte_from(s@, b, from as int) is None,
        },
{
    let n = s.len();
    let mut i: usize = from;
    while i < n
        invariant
            n == s@.len(),
            from <= i <= n,
            first_byte_from(s@, b, from as int) == first_byte_from(s@, b, i as int),
        decreases n - i,
    {
        if s[i] == b {
            return Some(i);
        }
        i = i + 1;
    }
    None
}

/// A byte that `str::split_whitespace` would treat as whitespace, for the
/// ASCII bytes that request lines are made of.
pub open spec fn is_ws(b: u8) -> bool {
    b == 9u8 || b == 10u8 || b == 11u8 || b == 12u8 || b == 13u8 || b == 32u8
}

/// Exec twin of `is_ws`.
pub fn byte_is_ws(b: u8) -> (r: bool)
    ensures
        r == is_ws(b),
{
    b == 9u8 || b == 10u8 || b == 11u8 || b == 12u8 || b == 13u8 || b == 32u8
}

/// Index of the first whitespace byte at or after `i`, or the length of `s`
/// when the rest of `s` is whitespace-free.
pub open spec fn token_end(s: Seq<u8>, i: int) -> int
    decreases s.len() - i,
{
    if i >= s.len() {
        i
    } else if is_ws(s[i]) {
        i
    } else {
        token_end(s, i + 1)
    }
}

pub proof fn lemma_token_end(s: Seq<u8>, i: int)
    requires
        0 <= i <= s.len(),
    ensures
        i <= token_end(s, i) <= s.len(),
        token_end(s, i) < s.len() ==> is_ws(s[token_end(s, i)]),
        forall|j: int| i <= j < token_end(s, i) ==> !is_ws(s[j]),
    decreases s.len() - i,
{
    if i >= s.len() {
    } else if is_ws(s[i]) {
    } else {
        lemma_token_end(s, i + 1);
    }
}

/// Scan for the end of the token that starts at `from`.
pub fn scan_token_end(s: &[u8], from: usize) -> (r: usize)
    requires
        from <= s@.len(),
    ensures
        r == token_end(s@, from as int),
        from <= r <= s@.len(),
{
    proof {
        lemma_token_end(s@, from as int);
    }
    let n = s.len();
    let mut i: usize = from;
    while i < n
        invariant
            n == s@.len(),
            from <= i <= n,
            token_end(s@, from as int) == token_end(s@, i as int),
        decreases n - i,
    {
        if byte_is_ws(s[i]) {
            return i;
        }
        i = i + 1;
    }
    i
}

/// Copy `s[start..end]` into a fresh vector.
pub fn copy_range(s: &[u8], start: usize, end: usize) -> (r: Vec<u8>)
    requires
        start <= end <= s@.len(),
    ensures
        r@ == s@.subrange(start as int, end as int),
{
    slice_to_vec(slice_subrange(s, start, end))
}

/// Append all of `src` to `dst`.
pub fn push_bytes(dst: &mut Vec<u8>, src: &[u8])
    ensures
        final(dst)@ == old(dst)@ + src@,
{
    dst.extend_from_slice(src);
}

/// `s` begins with `prefix`.
pub open spec fn has_prefix(s: Seq<u8>, prefix: Seq<u8>) -> bool {
    prefix.len() <= s.len() && forall|j: int| 0 <= j < prefix.len() ==> s[j] == prefix[j]
}

/// Compare two byte strings for equality.
pub fn bytes_eq(a: &[u8], b: &[u8]) -> (r: bool)
    ensures
        r == (a@ == b@),
{
    let n = a.len();
    if n != b.len() {
        return false;
    }
    let mut i: usize = 0;
    while i < n
        invariant
            n == a@.len() == b@.len(),
            0 <= i <= n,
            forall|j: int| 0 <= j < i ==> a@[j] == b@[j],
        decreases n - i,
    {
        if a[i] != b[i] {
            return false;
        }
        i = i + 1;
    }
    proof {
        assert(a@ =~= b@);
    }
    true
}

/// Test whether `s` begins with `prefix`.
pub fn starts_with(s: &[u8], prefix: &[u8]) -> (r: bool)
    ensures
        r == has_prefix(s@, prefix@),
{
    let n = prefix.len();
    if s.len() < n {
        return false;
    }
    let mut i: usize = 0;
    while i < n
        invariant
            n == prefix@.len() <= s@.len(),
            0 <= i <= n,
            forall|j: int| 0 <= j < i ==> s@[j] == prefix@[j],
        decreases n - i,
    {
        if s[i] != prefix[i] {
            return false;
        }
        i = i + 1;
    }
    true
}

/// A decimal digit.
pub open spec fn is_digit(b: u8) -> bool {
    48 <= b <= 57
}

/// Value of the digits of `s` from index `i` on, folded onto `acc`.
pub open spec fn dec_val_from(s: Seq<u8>, i: int, acc: nat) -> nat
    decreases s.len() - i,
{
    if i >= s.len() {
        acc
    } else {
        dec_val_from(s, i + 1, (acc * 10 + (s[i] - 48)) as nat)
    }
}

pub proof fn lemma_dec_val_from_lower(s: Seq<u8>, i: int, acc: nat)
    requires
        forall|j: int| i <= j < s.len() ==> is_digit(s[j]),
    ensures
        dec_val_from(s, i, acc) >= acc,
    decreases s.len() - i,
{
    if i < s.len() {
        lemma_dec_val_from_lower(s, i + 1, (acc * 10 + (s[i] - 48)) as nat);
    }
}

/// The number denoted by `s` as `usize::from_str` reads it: an optional
/// leading `+`, then at least one decimal digit, with a value that fits
/// in `usize`; anything else denotes nothing.
pub open spec fn parse_usize_spec(s: Seq<u8>) -> Option<nat> {
    let b: int = if s.len() > 0 && s[0] == 43u8 {
        1
    } else {
        0
    };
    if s.len() <= b {
        None
    } else if exists|j: int| b <= j < s.len() && !is_digit(s[j]) {
        None
    } else if dec_val_from(s, b, 0) > usize::MAX {
        None
    } else {
        Some(dec_val_from(s, b, 0))
    }
}

/// Read a decimal `usize` from `s`, as `usize::from_str` would.
pub fn parse_usize(s: &[u8]) -> (r: Option<usize>)
    ensures
        match r {
            Some(n) => parse_usize_spec(s@) == Some(n as nat),
            None => parse_usize_spec(s@) is None,
        },
{
    let n = s.len();
    let b: usize = if n > 0 && s[0] == 43u8 {
        1
    } else {
        0
    };
    if n <= b {
        return None;
    }
    let mut i: usize = b;
    let mut acc: usize = 0;
    while i < n
        invariant
            n == s@.len(),
            b <= i <= n,
            b < n,
            b as int == (if s@.len() > 0 && s@[0] == 43u8 { 1int } else { 0int }),
            forall|j: int| b <= j < i ==> is_digit(s@[j]),
            dec_val_from(s@, b as int, 0) == dec_val_from(s@, i as int, acc as nat),
        decreases n - i,
    {
        let c = s[i];
        if c < 48u8 || c > 57u8 {
            proof {
                assert(exists|j: int| b as int <= j < s@.len() && !is_digit(s@[j])) by {
                    assert(!is_digit(s@[i as int]));
                }
            }
            return None;
        }
        let d = c - 48u8;
        if acc > (usize::MAX - d as usize) / 10 {
            proof {
                let bs: int = if s@.len() > 0 && s@[0] == 43u8 {
                    1
                } else {
                    0
                };
                assert(bs == b as int);
                if !(exists|j: int| bs <= j < s@.len() && !is_digit(s@[j])) {
                    assert forall|j: int| i as int + 1 <= j < s@.len() implies is_digit(s@[j]) by {
                        assert(bs <= j < s@.len());
                    }
                    lemma_dec_val_from_lower(s@, i as int + 1, (acc * 10 + d) as nat);
                    assert(acc * 10 + d > usize::MAX) by (nonlinear_arith)
                        requires acc > (usize::MAX - d as usize) / 10, d < 10,
                    ;
                    assert(dec_val_from(s@, i as int, acc as nat) > usize::MAX);
                }
                assert(parse_usize_spec(s@) is None);
            }
            return None;
        }
        proof {
            assert(acc * 10 + d <= usize::MAX) by (nonlinear_arith)
                requires acc <= (usize::MAX - d as usize) / 10, d < 10,
            ;
        }
        acc = acc * 10 + d as usize;
        i = i + 1;
    }
    Some(acc)
}

/// Decimal representation of `n`, most significant digit first.
pub open spec fn dec_rep(n: nat) -> Seq<u8>
    decreases n,
{
    if n < 10 {
        seq![(48 + n) as u8]
    } else {
        dec_rep(n / 10) + seq![(48 + n % 10) as u8]
    }
}

/// Write `n` in decimal.
pub fn format_usize(n: usize) -> (r: Vec<u8>)
    ensures
        r@ == dec_rep(n as nat),
    decreases n,
{
    if n < 10 {
        let v: Vec<u8> = vec![48u8 + n as u8];
        v
    } else {
        let mut v = format_usize(n / 10);
        v.push(48u8 + (n % 10) as u8);
        proof {
            assert(v@ =~= dec_rep(n as nat / 10) + seq![(48 + n as nat % 10) as u8]);
        }
        v
    }
}

} // verus!
