//! HTTP/1.1 over a Unix socket, as the service clients speak it: the request
//! bytes they send, and how a raw response splits into status line and body.
use vstd::prelude::*;
use vstd::string::*;
use vstd::utf8::encode_utf8;

use crate::text::{decimal, extend_str, push_decimal, string_of};

verus! {

/// The request head for `method path` on `host`, with a JSON body of
/// `body_len` bytes and the connection closed after the response.
pub open spec fn request_head(method: Seq<char>, path: Seq<char>, host: Seq<char>, body_len: nat) -> Seq<char> {
    method + " "@ + path + " HTTP/1.1\r\nHost: "@ + host
        + "\r\nAccept: application/json\r\nContent-Type: application/json\r\nContent-Length: "@
        + decimal(body_len) + "\r\nConnection: close\r\n\r\n"@
}

/// The bytes of an optional body.
pub open spec fn body_bytes(body: Option<Seq<u8>>) -> Seq<u8> {
    match body {
        Some(b) => b,
        None => Seq::empty(),
    }
}

/// Appends bytes.
pub fn extend_bytes(dst: &mut Vec<u8>, src: &[u8])
    ensures
        final(dst)@ == old(dst)@ + src@,
{
    let mut i: usize = 0;
    while i < src.len()
        invariant
            i <= src.len(),
            dst@ == old(dst)@ + src@.take(i as int),
        decreases src.len() - i,
    {
        dst.push(src[i]);
        assert(src@.take(i + 1) =~= src@.take(i as int).push(src@[i as int]));
        i = i + 1;
    }
    assert(src@.take(src.len() as int) =~= src@);
}

/// The bytes of an HTTP request: the UTF-8 head, then the body.
pub fn request_bytes(method: &str, path: &str, host: &str, body: Option<&[u8]>) -> (r: Vec<u8>)
    ensures
        r@ == encode_utf8(
            request_head(
                method@,
                path@,
                host@,
                match body {
                    Some(b) => b@.len(),
                    None => 0,
                },
            ),
        ) + body_bytes(
            match body {
                Some(b) => Some(b@),
                None => None,
            },
        ),
{
    let len: usize = match body {
        Some(b) => b.len(),
        None => 0,
    };
    let mut v: Vec<char> = Vec::new();
    extend_str(&mut v, method);
    extend_str(&mut v, " ");
    extend_str(&mut v, path);
    extend_str(&mut v, " HTTP/1.1\r\nHost: ");
    extend_str(&mut v, host);
    extend_str(
        &mut v,
        "\r\nAccept: application/json\r\nContent-Type: application/json\r\nContent-Length: ",
    );
    push_decimal(&mut v, len as u64);
    extend_str(&mut v, "\r\nConnection: close\r\n\r\n");
    let head = string_of(v.as_slice());
    let mut out: Vec<u8> = Vec::new();
    extend_bytes(&mut out, head.as_str().as_bytes());
    match body {
        Some(b) => {
            extend_bytes(&mut out, b);
        },
        None => {},
    }
    out
}

/// The blank line that ends the headers, `\r\n\r\n`, starts at `i`.
pub open spec fn header_end_at(b: Seq<u8>, i: int) -> bool {
    0 <= i && i + 4 <= b.len() && b[i] == 13u8 && b[i + 1] == 10u8 && b[i + 2] == 13u8 && b[i
        + 3] == 10u8
}

/// A line break, `\r\n`, starts at `i`.
pub open spec fn crlf_at(b: Seq<u8>, i: int) -> bool {
    0 <= i && i + 2 <= b.len() && b[i] == 13u8 && b[i + 1] == 10u8
}

/// Where the headers end: the first `\r\n\r\n`, if any.
pub fn find_header_end(bytes: &[u8]) -> (r: Option<usize>)
    ensures
        r matches Some(i) ==> header_end_at(bytes@, i as int) && forall|j: int|
            0 <= j < i ==> !header_end_at(bytes@, j),
        r is None ==> forall|j: int| 0 <= j < bytes@.len() ==> !header_end_at(bytes@, j),
{
    if bytes.len() < 4 {
        return None;
    }
    let mut i: usize = 0;
    while i <= bytes.len() - 4
        invariant
            bytes.len() >= 4,
            forall|j: int| 0 <= j < i ==> !header_end_at(bytes@, j),
        decreases bytes.len() - i,
    {
        if bytes[i] == 13u8 && bytes[i + 1] == 10u8 && bytes[i + 2] == 13u8 && bytes[i + 3] == 10u8 {
            return Some(i);
        }
        i = i + 1;
    }
    None
}

/// The end of the first line of `bytes`: its first `\r\n`, or the length.
pub fn line_end(bytes: &[u8]) -> (r: usize)
    ensures
        r <= bytes@.len(),
        r < bytes@.len() ==> crlf_at(bytes@, r as int),
        forall|j: int| 0 <= j < r ==> !crlf_at(bytes@, j),
        r == bytes@.len() ==> forall|j: int| 0 <= j < bytes@.len() ==> !crlf_at(bytes@, j),
{
    if bytes.len() < 2 {
        return bytes.len();
    }
    let mut i: usize = 0;
    while i <= bytes.len() - 2
        invariant
            bytes.len() >= 2,
            forall|j: int| 0 <= j < i ==> !crlf_at(bytes@, j),
        decreases bytes.len() - i,
    {
        if bytes[i] == 13u8 && bytes[i + 1] == 10u8 {
            return i;
        }
        i = i + 1;
    }
    bytes.len()
}

/// The first index of `\r\n\r\n` in `b`, if any.
pub open spec fn header_end_of(b: Seq<u8>) -> Option<int> {
    if exists|i: int| header_end_at(b, i) {
        Some(choose|i: int| header_end_at(b, i) && forall|j: int| 0 <= j < i ==> !header_end_at(b, j))
    } else {
        None
    }
}

/// The first index of `\r\n` in `b`, or its length.
pub open spec fn line_end_of(b: Seq<u8>) -> int {
    if exists|i: int| crlf_at(b, i) {
        choose|i: int| crlf_at(b, i) && forall|j: int| 0 <= j < i ==> !crlf_at(b, j)
    } else {
        b.len() as int
    }
}

/// The first `n` bytes.
pub fn prefix_bytes(b: &[u8], n: usize) -> (r: Vec<u8>)
    requires
        n <= b@.len(),
    ensures
        r@ == b@.take(n as int),
{
    let mut out: Vec<u8> = Vec::new();
    let mut i: usize = 0;
    while i < n
        invariant
            i <= n,
            n <= b@.len(),
            out@ == b@.take(i as int),
        decreases n - i,
    {
        out.push(b[i]);
        assert(b@.take(i + 1) =~= b@.take(i as int).push(b@[i as int]));
        i = i + 1;
    }
    out
}

/// The bytes from `n` on.
pub fn suffix_bytes(b: &[u8], n: usize) -> (r: Vec<u8>)
    requires
        n <= b@.len(),
    ensures
        r@ == b@.skip(n as int),
{
    let mut out: Vec<u8> = Vec::new();
    let mut j: usize = n;
    while j < b.len()
        invariant
            n <= j <= b@.len(),
            out@ == b@.subrange(n as int, j as int),
        decreases b.len() - j,
    {
        out.push(b[j]);
        assert(b@.subrange(n as int, j + 1) =~= b@.subrange(n as int, j as int).push(b@[j as int]));
        j = j + 1;
    }
    out
}

proof fn lemma_header_end_of(b: Seq<u8>, h: int)
    requires
        header_end_at(b, h),
        forall|j: int| 0 <= j < h ==> !header_end_at(b, j),
    ensures
        header_end_of(b) == Some(h),
{
    let c = choose|i: int| header_end_at(b, i) && forall|j: int| 0 <= j < i ==> !header_end_at(b, j);
    assert(header_end_at(b, c));
    if c < h {
        assert(!header_end_at(b, c));
    } else if c > h {
        assert(!header_end_at(b, h));
    }
}

proof fn lemma_line_end_of(b: Seq<u8>, e: int)
    requires
        0 <= e <= b.len(),
        e < b.len() ==> crlf_at(b, e),
        forall|j: int| 0 <= j < e ==> !crlf_at(b, j),
        e == b.len() ==> forall|j: int| 0 <= j < b.len() ==> !crlf_at(b, j),
    ensures
        line_end_of(b) == e,
{
    if exists|i: int| crlf_at(b, i) {
        let c = choose|i: int| crlf_at(b, i) && forall|j: int| 0 <= j < i ==> !crlf_at(b, j);
        assert(crlf_at(b, c));
        if c < e {
            assert(!crlf_at(b, c));
        } else if c > e {
            assert(e < b.len());
            assert(!crlf_at(b, e));
        }
    } else {
        if e < b.len() {
            assert(crlf_at(b, e));
        }
    }
}

/// A raw response split at the end of its headers: the status line (the
/// headers' first line) and the body after the blank line; `None` when the
/// headers never end.
pub fn split_response(response: &[u8]) -> (r: Option<(Vec<u8>, Vec<u8>)>)
    ensures
        match header_end_of(response@) {
            None => r is None,
            Some(h) => r matches Some((status, body)) && status@ == response@.take(h).take(
                line_end_of(response@.take(h)),
            ) && body@ == response@.skip(h + 4),
        },
{
    match find_header_end(response) {
        None => {
            assert(!exists|i: int| header_end_at(response@, i));
            None
        },
        Some(h) => {
            proof {
                lemma_header_end_of(response@, h as int);
            }
            let headers = prefix_bytes(response, h);
            let e = line_end(headers.as_slice());
            proof {
                lemma_line_end_of(headers@, e as int);
            }
            let status = prefix_bytes(headers.as_slice(), e);
            assert(h + 4 <= response@.len());
            assert(response@.len() == response.len());
            let body = suffix_bytes(response, h + 4);
            Some((status, body))
        },
    }
}

/// `p` occurs in `s` at `i`.
pub open spec fn occurs_at(s: Seq<char>, p: Seq<char>, i: int) -> bool {
    0 <= i && i + p.len() <= s.len() && s.subrange(i, i + p.len()) == p
}

/// `p` occurs in `s`.
pub open spec fn contains_text(s: Seq<char>, p: Seq<char>) -> bool {
    exists|i: int| #[trigger] occurs_at(s, p, i)
}

/// Whether `p` occurs in `s` (`str::contains`).
pub fn contains_str(s: &str, p: &str) -> (r: bool)
    ensures
        r == contains_text(s@, p@),
{
    let a = crate::text::chars_of(s);
    let b = crate::text::chars_of(p);
    if b.len() > a.len() {
        assert forall|k: int| !occurs_at(s@, p@, k) by {}
        return false;
    }
    if b.len() == 0 {
        assert(s@.subrange(0, 0) =~= p@);
        assert(occurs_at(s@, p@, 0));
        return true;
    }
    let mut i: usize = 0;
    while i <= a.len() - b.len()
        invariant
            1 <= b.len() <= a.len(),
            i <= a.len() - b.len() + 1,
            a@ == s@,
            b@ == p@,
            b.len() <= a.len(),
            forall|k: int| 0 <= k < i ==> !occurs_at(a@, b@, k),
        decreases a.len() - i,
    {
        let piece = crate::text::slice_chars(a.as_slice(), i, i + b.len());
        if crate::text::chars_eq(piece.as_slice(), b.as_slice()) {
            assert(occurs_at(s@, p@, i as int));
            return true;
        }
        i = i + 1;
    }
    proof {
        assert forall|k: int| !occurs_at(s@, p@, k) by {
            if 0 <= k && k + p@.len() <= s@.len() {
                assert(k < i);
            }
        }
    }
    false
}

} // verus!
