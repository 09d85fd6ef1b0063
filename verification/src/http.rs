//! Minimal HTTP/1.1 response parsing on raw bytes: splitting head from
//! body at the blank-line boundary, extracting the status code from the
//! status line, detecting chunked transfer encoding, and decoding a
//! chunked body. Everything here is pure byte-sequence logic.

use vstd::prelude::*;
use crate::text::{
    all_digit_bytes, dec_value_bytes, is_digit_byte, is_space_byte, parse_hex_usize,
    parse_hex_usize_spec, parse_u16_bytes, parse_u16_bytes_spec, trim_bytes, trimmed_bytes,
};

verus! {

/// A CRLF CRLF blank line sits at offset `k` of `s`.
pub open spec fn double_crlf_at(s: Seq<u8>, k: int) -> bool {
    &&& 0 <= k
    &&& k + 4 <= s.len()
    &&& s[k] == 13
    &&& s[k + 1] == 10
    &&& s[k + 2] == 13
    &&& s[k + 3] == 10
}

/// The offset of the first blank line of `s`, if any.
pub open spec fn header_boundary(s: Seq<u8>) -> Option<int>
    decreases s.len(),
{
    if s.len() < 4 {
        None
    } else if double_crlf_at(s, 0) {
        Some(0)
    } else {
        match header_boundary(s.drop_first()) {
            Some(i) => Some(i + 1),
            None => None,
        }
    }
}

proof fn lemma_header_boundary_at(s: Seq<u8>, i: int)
    requires
        double_crlf_at(s, i),
        forall|k: int| 0 <= k < i ==> !double_crlf_at(s, k),
    ensures
        header_boundary(s) == Some(i),
    decreases i,
{
    if i == 0 {
    } else {
        let d = s.drop_first();
        assert(double_crlf_at(d, i - 1));
        assert forall|k: int| 0 <= k < i - 1 implies !double_crlf_at(d, k) by {
            assert(!double_crlf_at(s, k + 1));
        }
        lemma_header_boundary_at(d, i - 1);
        assert(!double_crlf_at(s, 0));
    }
}

proof fn lemma_header_boundary_none(s: Seq<u8>)
    requires
        forall|k: int| 0 <= k ==> !double_crlf_at(s, k),
    ensures
        header_boundary(s) is None,
    decreases s.len(),
{
    if s.len() >= 4 {
        let d = s.drop_first();
        assert forall|k: int| 0 <= k implies !double_crlf_at(d, k) by {
            assert(!double_crlf_at(s, k + 1));
        }
        lemma_header_boundary_none(d);
    }
}

/// Head and body of a raw response, split after the first blank line.
/// The head keeps its trailing CRLF CRLF.
pub open spec fn response_parts_spec(raw: Seq<u8>) -> Option<(Seq<u8>, Seq<u8>)> {
    match header_boundary(raw) {
        None => None,
        Some(i) => Some(
            (raw.subrange(0, i + 4), raw.subrange(i + 4, raw.len() as int)),
        ),
    }
}

/// Splits a raw response at the first blank line into header bytes
/// (trailing CRLF CRLF kept) and body bytes; `None` without a blank line.
pub fn parse_http_response_parts(raw: &[u8]) -> (r: Option<(Vec<u8>, Vec<u8>)>)
    ensures
        (r is Some) == (response_parts_spec(raw@) is Some),
        r matches Some(p) ==> response_parts_spec(raw@) matches Some(q) && p.0@ == q.0 && p.1@
            == q.1,
{
    let n = raw.len();
    if n < 4 {
        proof {
            lemma_header_boundary_none(raw@);
        }
        return None;
    }
    let mut i: usize = 0;
    while i <= n - 4
        invariant
            4 <= n,
            0 <= i <= n - 3,
            n == raw@.len(),
            forall|k: int| 0 <= k < i ==> !double_crlf_at(raw@, k),
        decreases n - i,
    {
        if raw[i] == 13 && raw[i + 1] == 10 && raw[i + 2] == 13 && raw[i + 3] == 10 {
            proof {
                lemma_header_boundary_at(raw@, i as int);
            }
            let head = vstd::slice::slice_to_vec(vstd::slice::slice_subrange(raw, 0, i + 4));
            let body = vstd::slice::slice_to_vec(vstd::slice::slice_subrange(raw, i + 4, n));
            return Some((head, body));
        }
        i = i + 1;
    }
    proof {
        assert(forall|k: int| 0 <= k ==> !double_crlf_at(raw@, k));
        lemma_header_boundary_none(raw@);
    }
    None
}

/// Index of the first line feed of `s`, or `s.len()` without one.
pub open spec fn line_end(s: Seq<u8>) -> int
    decreases s.len(),
{
    if s.len() == 0 {
        0
    } else if s[0] == 10 {
        0
    } else {
        1 + line_end(s.drop_first())
    }
}

proof fn lemma_line_end_at(s: Seq<u8>, i: int)
    requires
        0 <= i <= s.len(),
        forall|k: int| 0 <= k < i ==> s[k] != 10,
        i == s.len() || s[i] == 10,
    ensures
        line_end(s) == i,
    decreases i,
{
    if i > 0 {
        lemma_line_end_at(s.drop_first(), i - 1);
    }
}

/// The first line of `s`, up to the first line feed, with one trailing
/// carriage return removed — what `str::lines` yields first.
pub open spec fn first_line(s: Seq<u8>) -> Seq<u8> {
    let l = s.subrange(0, line_end(s));
    if l.len() > 0 && l[l.len() - 1] == 13 {
        l.drop_last()
    } else {
        l
    }
}

/// The longest whitespace prefix of `s` removed.
pub open spec fn skip_spaces(s: Seq<u8>) -> Seq<u8>
    decreases s.len(),
{
    if s.len() > 0 && is_space_byte(s[0]) {
        skip_spaces(s.drop_first())
    } else {
        s
    }
}

/// The longest non-whitespace prefix of `s`.
pub open spec fn token_end(s: Seq<u8>) -> int
    decreases s.len(),
{
    if s.len() == 0 {
        0
    } else if is_space_byte(s[0]) {
        0
    } else {
        1 + token_end(s.drop_first())
    }
}

/// The second whitespace-separated token of `s`, as
/// `str::split_whitespace().nth(1)` finds it.
pub open spec fn second_token(s: Seq<u8>) -> Option<Seq<u8>> {
    let r1 = skip_spaces(s);
    if r1.len() == 0 {
        None
    } else {
        let r2 = skip_spaces(r1.subrange(token_end(r1), r1.len() as int));
        if r2.len() == 0 {
            None
        } else {
            Some(r2.subrange(0, token_end(r2)))
        }
    }
}

/// The status code of a response head: the second token of its first
/// line, read as a decimal `u16`.
pub open spec fn status_code_spec(header: Seq<u8>) -> Option<u16> {
    match second_token(first_line(header)) {
        None => None,
        Some(tok) => parse_u16_bytes_spec(tok),
    }
}

proof fn lemma_skip_spaces_at(s: Seq<u8>, i: int)
    requires
        0 <= i <= s.len(),
        forall|k: int| 0 <= k < i ==> is_space_byte(s[k]),
        i == s.len() || !is_space_byte(s[i]),
    ensures
        skip_spaces(s) == s.subrange(i, s.len() as int),
    decreases i,
{
    if i == 0 {
        assert(s.subrange(0, s.len() as int) =~= s);
    } else {
        let d = s.drop_first();
        lemma_skip_spaces_at(d, i - 1);
        assert(d.subrange(i - 1, d.len() as int) =~= s.subrange(i, s.len() as int));
    }
}

proof fn lemma_token_end_at(s: Seq<u8>, i: int)
    requires
        0 <= i <= s.len(),
        forall|k: int| 0 <= k < i ==> !is_space_byte(s[k]),
        i == s.len() || is_space_byte(s[i]),
    ensures
        token_end(s) == i,
    decreases i,
{
    if i > 0 {
        lemma_token_end_at(s.drop_first(), i - 1);
    }
}

fn space_at(s: &[u8], i: usize) -> (r: bool)
    requires
        i < s@.len(),
    ensures
        r == is_space_byte(s@[i as int]),
{
    let b = s[i];
    b == 32 || b == 9 || b == 10 || b == 13 || b == 11 || b == 12
}

/// Finds, in `s[from..]`, the end of the whitespace run and then the end
/// of the token that follows: returns `(token_start, token_past_end)`.
fn scan_token(s: &[u8], from: usize) -> (r: (usize, usize))
    requires
        from <= s@.len(),
    ensures
        from <= r.0 <= r.1 <= s@.len(),
        forall|k: int| from <= k < r.0 ==> is_space_byte(s@[k]),
        r.0 == s@.len() || !is_space_byte(s@[r.0 as int]),
        forall|k: int| r.0 <= k < r.1 ==> !is_space_byte(s@[k]),
        r.1 == s@.len() || is_space_byte(s@[r.1 as int]),
    decreases s@.len(),
{
    let n = s.len();
    let mut a: usize = from;
    while a < n && space_at(s, a)
        invariant
            from <= a <= n,
            n == s@.len(),
            forall|k: int| from <= k < a ==> is_space_byte(s@[k]),
        decreases n - a,
    {
        a = a + 1;
    }
    let mut b: usize = a;
    while b < n && !space_at(s, b)
        invariant
            a <= b <= n,
            n == s@.len(),
            forall|k: int| a <= k < b ==> !is_space_byte(s@[k]),
        decreases n - b,
    {
        b = b + 1;
    }
    (a, b)
}

/// Reads the numeric status code out of response head bytes: the second
/// whitespace-separated token of the first line, parsed as decimal.
#[verifier::rlimit(30)]
pub fn parse_http_status_code_from_headers(header: &[u8]) -> (r: Option<u16>)
    ensures
        r == status_code_spec(header@),
{
    let n = header.len();
    // First line: up to the first line feed, trailing carriage return dropped.
    let mut e: usize = 0;
    while e < n && header[e] != 10
        invariant
            0 <= e <= n,
            n == header@.len(),
            forall|k: int| 0 <= k < e ==> header@[k] != 10,
        decreases n - e,
    {
        e = e + 1;
    }
    proof {
        lemma_line_end_at(header@, e as int);
    }
    let line_len: usize = if e > 0 && header[e - 1] == 13 {
        e - 1
    } else {
        e
    };
    let line = vstd::slice::slice_subrange(header, 0, line_len);
    proof {
        assert(first_line(header@) =~= line@);
    }

    let (a1, b1) = scan_token(line, 0);
    proof {
        lemma_skip_spaces_at(line@, a1 as int);
    }
    let ghost r1 = line@.subrange(a1 as int, line@.len() as int);
    if a1 == line.len() {
        proof {
            assert(r1.len() == 0);
        }
        return None;
    }
    proof {
        assert(r1.len() > 0);
        assert(forall|k: int| 0 <= k < b1 - a1 ==> r1[k] == line@[k + a1]);
        lemma_token_end_at(r1, b1 - a1 as int);
    }
    let (a2, b2) = scan_token(line, b1);
    let ghost r2 = line@.subrange(a2 as int, line@.len() as int);
    proof {
        let after = r1.subrange(token_end(r1), r1.len() as int);
        assert(after =~= line@.subrange(b1 as int, line@.len() as int));
        assert forall|k: int| 0 <= k < a2 - b1 implies is_space_byte(#[trigger] after[k]) by {
            assert(after[k] == line@[k + b1]);
        }
        lemma_skip_spaces_at(after, a2 - b1 as int);
        assert(skip_spaces(after) =~= r2);
    }
    if a2 == line.len() {
        proof {
            assert(r2.len() == 0);
        }
        return None;
    }
    proof {
        assert(r2.len() > 0);
        assert(forall|k: int| 0 <= k < b2 - a2 ==> r2[k] == line@[k + a2]);
        lemma_token_end_at(r2, b2 - a2 as int);
    }
    let token = vstd::slice::slice_subrange(line, a2, b2);
    proof {
        assert(token@ =~= r2.subrange(0, token_end(r2)));
    }
    parse_u16_bytes(token)
}

/// A CRLF pair sits at offset `k` of `s`.
pub open spec fn crlf_at(s: Seq<u8>, k: int) -> bool {
    &&& 0 <= k
    &&& k + 2 <= s.len()
    &&& s[k] == 13
    &&& s[k + 1] == 10
}

/// The offset of the first CRLF pair of `s`, if any.
pub open spec fn find_crlf(s: Seq<u8>) -> Option<int>
    decreases s.len(),
{
    if s.len() < 2 {
        None
    } else if crlf_at(s, 0) {
        Some(0)
    } else {
        match find_crlf(s.drop_first()) {
            Some(i) => Some(i + 1),
            None => None,
        }
    }
}

proof fn lemma_find_crlf_at(s: Seq<u8>, i: int)
    requires
        crlf_at(s, i),
        forall|k: int| 0 <= k < i ==> !crlf_at(s, k),
    ensures
        find_crlf(s) == Some(i),
    decreases i,
{
    if i > 0 {
        let d = s.drop_first();
        assert(crlf_at(d, i - 1));
        assert forall|k: int| 0 <= k < i - 1 implies !crlf_at(d, k) by {
            assert(!crlf_at(s, k + 1));
        }
        lemma_find_crlf_at(d, i - 1);
        assert(!crlf_at(s, 0));
    }
}

proof fn lemma_find_crlf_none(s: Seq<u8>)
    requires
        forall|k: int| 0 <= k ==> !crlf_at(s, k),
    ensures
        find_crlf(s) is None,
    decreases s.len(),
{
    if s.len() >= 2 {
        let d = s.drop_first();
        assert forall|k: int| 0 <= k implies !crlf_at(d, k) by {
            assert(!crlf_at(s, k + 1));
        }
        lemma_find_crlf_none(d);
    }
}

/// Index of the first semicolon of `s`, or `s.len()` without one: what
/// splitting at `;` keeps of a chunk-size line.
pub open spec fn semi_end(s: Seq<u8>) -> int
    decreases s.len(),
{
    if s.len() == 0 {
        0
    } else if s[0] == 59 {
        0
    } else {
        1 + semi_end(s.drop_first())
    }
}

proof fn lemma_semi_end_at(s: Seq<u8>, i: int)
    requires
        0 <= i <= s.len(),
        forall|k: int| 0 <= k < i ==> s[k] != 59,
        i == s.len() || s[i] == 59,
    ensures
        semi_end(s) == i,
    decreases i,
{
    if i > 0 {
        lemma_semi_end_at(s.drop_first(), i - 1);
    }
}

/// The declared size of a chunk: the part of its size line before any
/// `;`, trimmed, read as hexadecimal.
pub open spec fn chunk_size_spec(line: Seq<u8>) -> Option<usize> {
    parse_hex_usize_spec(trimmed_bytes(line.subrange(0, semi_end(line))))
}

pub proof fn lemma_find_crlf_in_range(s: Seq<u8>)
    ensures
        find_crlf(s) matches Some(i) ==> 0 <= i && i + 2 <= s.len(),
    decreases s.len(),
{
    if s.len() >= 2 && !crlf_at(s, 0) {
        lemma_find_crlf_in_range(s.drop_first());
    }
}

#[via_fn]
proof fn decode_chunked_decreases(s: Seq<u8>) {
    lemma_find_crlf_in_range(s);
}

/// Decodes a chunked transfer-encoded body: size-prefixed hex lines,
/// each chunk followed by CRLF, terminated by a zero-size chunk. Any
/// framing fault — a missing size-line terminator, an unparsable size,
/// a short final chunk, a missing trailing CRLF — yields `None`.
pub open spec fn decode_chunked(s: Seq<u8>) -> Option<Seq<u8>>
    decreases s.len(),
    via decode_chunked_decreases
{
    match find_crlf(s) {
        None => None,
        Some(i) => match chunk_size_spec(s.subrange(0, i)) {
            None => None,
            Some(size) => {
                let rest = s.subrange(i + 2, s.len() as int);
                if size == 0 {
                    Some(Seq::empty())
                } else if rest.len() < size + 2 {
                    None
                } else if rest[size as int] != 13 || rest[size as int + 1] != 10 {
                    None
                } else {
                    match decode_chunked(rest.subrange(size as int + 2, rest.len() as int)) {
                        None => None,
                        Some(tail) => Some(rest.subrange(0, size as int) + tail),
                    }
                }
            },
        },
    }
}

/// Decodes a chunked body; `None` on any framing fault, for every input.
#[verifier::rlimit(50)]
pub fn decode_chunked_body(input: &[u8]) -> (r: Option<Vec<u8>>)
    ensures
        (r is Some) == (decode_chunked(input@) is Some),
        r matches Some(v) ==> Some(v@) == decode_chunked(input@),
{
    let n = input.len();
    let mut out: Vec<u8> = Vec::new();
    let mut p: usize = 0;
    proof {
        assert(input@.subrange(0, n as int) =~= input@);
        if decode_chunked(input@) is Some {
            assert(Seq::<u8>::empty() + decode_chunked(input@)->Some_0 =~= decode_chunked(
                input@,
            )->Some_0);
        }
    }
    loop
        invariant
            0 <= p <= n,
            n == input@.len(),
            decode_chunked(input@) == match decode_chunked(input@.subrange(p as int, n as int)) {
                None => None::<Seq<u8>>,
                Some(t) => Some(out@ + t),
            },
        decreases n - p,
    {
        let ghost suffix = input@.subrange(p as int, n as int);
        // Locate the CRLF that ends the size line.
        let mut j: usize = p;
        loop
            invariant
                p <= j <= n,
                n == input@.len(),
                forall|k: int| 0 <= k < j - p ==> !crlf_at(suffix, k),
                suffix == input@.subrange(p as int, n as int),
            ensures
                p <= j <= n,
                j + 2 <= n ==> crlf_at(suffix, j - p),
                j + 2 > n ==> forall|k: int| 0 <= k ==> !crlf_at(suffix, k),
            decreases n - j,
        {
            if j >= n || j + 1 >= n {
                proof {
                    assert forall|k: int| 0 <= k implies !crlf_at(suffix, k) by {
                        if k < j - p {
                        } else {
                            assert(k + 2 > suffix.len());
                        }
                    }
                }
                break;
            }
            if input[j] == 13 && input[j + 1] == 10 {
                proof {
                    assert(suffix[j - p] == 13 && suffix[j - p + 1] == 10);
                }
                break;
            }
            proof {
                assert(suffix[j - p] == input@[j as int] && (j - p) + 1 < suffix.len() ==> suffix[j
                    - p + 1] == input@[j as int + 1]);
            }
            j = j + 1;
        }
        if n - j < 2 {
            proof {
                lemma_find_crlf_none(suffix);
            }
            return None;
        }
        proof {
            lemma_find_crlf_at(suffix, j - p);
        }
        let ghost line = suffix.subrange(0, j - p);

        // Parse the hex size: the bytes before any semicolon, trimmed.
        let mut m: usize = p;
        while m < j && input[m] != 59
            invariant
                p <= m <= j,
                j <= n,
                n == input@.len(),
                forall|k: int| p <= k < m ==> input@[k] != 59,
            decreases j - m,
        {
            m = m + 1;
        }
        proof {
            assert forall|k: int| 0 <= k < m - p implies line[k] != 59 by {
                assert(line[k] == input@[k + p]);
            }
            if m < j {
                assert(line[m - p] == 59);
            }
            lemma_semi_end_at(line, m - p);
            assert(line.subrange(0, m - p) =~= input@.subrange(p as int, m as int));
        }
        let hex_part = trim_bytes(vstd::slice::slice_subrange(input, p, m));
        let size = match parse_hex_usize(hex_part) {
            Some(v) => v,
            None => {
                return None;
            },
        };
        let ghost rest = suffix.subrange(j - p + 2, suffix.len() as int);
        proof {
            assert(rest =~= input@.subrange(j as int + 2, n as int));
        }
        if size == 0 {
            proof {
                assert(out@ + Seq::<u8>::empty() =~= out@);
            }
            return Some(out);
        }
        let d = j + 2;
        if n - d < size || (n - d) - size < 2 {
            return None;
        }
        if !(input[d + size] == 13 && input[d + size + 1] == 10) {
            proof {
                assert(rest[size as int] == input@[d + size]);
                assert(rest[size as int + 1] == input@[d + size + 1]);
            }
            return None;
        }
        proof {
            assert(rest[size as int] == input@[d + size]);
            assert(rest[size as int + 1] == input@[d + size + 1]);
        }
        let chunk = vstd::slice::slice_subrange(input, d, d + size);
        let ghost old_out = out@;
        out.extend_from_slice(chunk);
        proof {
            assert(rest.subrange(0, size as int) =~= chunk@);
            assert(out@ == old_out + rest.subrange(0, size as int));
        }
        p = d + size + 2;
        proof {
            let next_suffix = input@.subrange(p as int, n as int);
            assert(rest.subrange(size as int + 2, rest.len() as int) =~= next_suffix);
            assert(decode_chunked(input@) == match decode_chunked(next_suffix) {
                None => None::<Seq<u8>>,
                Some(t) => Some(out@ + t),
            }) by {
                if decode_chunked(next_suffix) is Some {
                    let t = decode_chunked(next_suffix)->Some_0;
                    assert(old_out + (rest.subrange(0, size as int) + t) =~= out@ + t);
                }
            }
        }
    }
}

/// Law: a body whose size line is truncated — no CRLF ever ends it —
/// decodes to nothing.
pub proof fn lemma_chunked_truncated_size_line(s: Seq<u8>)
    requires
        find_crlf(s) is None,
    ensures
        decode_chunked(s) is None,
{
}

/// Law: a size line whose size does not parse as hexadecimal decodes to
/// nothing.
pub proof fn lemma_chunked_bad_size_line(s: Seq<u8>, i: int)
    requires
        find_crlf(s) == Some(i),
        chunk_size_spec(s.subrange(0, i)) is None,
    ensures
        decode_chunked(s) is None,
{
}

/// Law: a nonzero-size chunk whose data (with its CRLF terminator) is
/// cut short decodes to nothing.
pub proof fn lemma_chunked_short_final_chunk(s: Seq<u8>, i: int, size: usize)
    requires
        find_crlf(s) == Some(i),
        chunk_size_spec(s.subrange(0, i)) == Some(size),
        size > 0,
        s.len() - (i + 2) < size + 2,
    ensures
        decode_chunked(s) is None,
{
    lemma_find_crlf_in_range(s);
}

/// Law: chunk data not followed by its own CRLF decodes to nothing.
pub proof fn lemma_chunked_missing_chunk_crlf(s: Seq<u8>, i: int, size: usize)
    requires
        find_crlf(s) == Some(i),
        chunk_size_spec(s.subrange(0, i)) == Some(size),
        size > 0,
        s.len() - (i + 2) >= size + 2,
        s[i + 2 + size] != 13 || s[i + 2 + size + 1] != 10,
    ensures
        decode_chunked(s) is None,
{
    lemma_find_crlf_in_range(s);
    let rest = s.subrange(i + 2, s.len() as int);
    assert(rest[size as int] == s[i + 2 + size]);
    assert(rest[size as int + 1] == s[i + 2 + size + 1]);
}

/// Lowers every ASCII letter of `s`.
pub open spec fn lower_bytes(s: Seq<u8>) -> Seq<u8> {
    Seq::new(s.len(), |i: int| crate::text::lower_byte(s[i]))
}

/// The bytes of `transfer-encoding:`.
pub open spec fn te_prefix() -> Seq<u8> {
    seq![116u8, 114u8, 97u8, 110u8, 115u8, 102u8, 101u8, 114u8, 45u8, 101u8, 110u8, 99u8, 111u8,
        100u8, 105u8, 110u8, 103u8, 58u8]
}

/// The bytes of `chunked`.
pub open spec fn chunked_word() -> Seq<u8> {
    seq![99u8, 104u8, 117u8, 110u8, 107u8, 101u8, 100u8]
}

pub open spec fn starts_with_b(s: Seq<u8>, p: Seq<u8>) -> bool {
    s.len() >= p.len() && s.subrange(0, p.len() as int) == p
}

pub open spec fn contains_b(s: Seq<u8>, w: Seq<u8>) -> bool {
    exists|k: int| 0 <= k && k + w.len() <= s.len() && #[trigger] s.subrange(k, k + w.len() as int)
        == w
}

/// A header line, trimmed and lowered, that starts with
/// `transfer-encoding:` and mentions `chunked`.
pub open spec fn te_line_chunked(line: Seq<u8>) -> bool {
    let l = lower_bytes(trimmed_bytes(line));
    starts_with_b(l, te_prefix()) && contains_b(l, chunked_word())
}

pub proof fn lemma_line_end_in_range(s: Seq<u8>)
    ensures
        0 <= line_end(s) <= s.len(),
    decreases s.len(),
{
    if s.len() > 0 && s[0] != 10 {
        lemma_line_end_in_range(s.drop_first());
    }
}

#[via_fn]
proof fn header_declares_chunked_decreases(s: Seq<u8>) {
    lemma_line_end_in_range(s);
}

/// Some line of the response head declares chunked transfer encoding.
pub open spec fn header_declares_chunked(s: Seq<u8>) -> bool
    decreases s.len(),
    via header_declares_chunked_decreases
{
    if s.len() == 0 {
        false
    } else {
        te_line_chunked(first_line(s)) || (if line_end(s) < s.len() {
            header_declares_chunked(s.subrange(line_end(s) + 1, s.len() as int))
        } else {
            false
        })
    }
}

fn starts_with_bytes(s: &[u8], p: &[u8]) -> (r: bool)
    ensures
        r == starts_with_b(s@, p@),
{
    if s.len() < p.len() {
        return false;
    }
    let head = vstd::slice::slice_subrange(s, 0, p.len());
    bytes_eq_slices(head, p)
}

fn bytes_eq_slices(a: &[u8], b: &[u8]) -> (r: bool)
    ensures
        r == (a@ == b@),
{
    crate::text::bytes_eq(a, b)
}

fn contains_bytes(s: &[u8], w: &[u8]) -> (r: bool)
    requires
        w@.len() > 0,
    ensures
        r == contains_b(s@, w@),
{
    let n = s.len();
    let m = w.len();
    if n < m {
        return false;
    }
    let mut k: usize = 0;
    while k <= n - m
        invariant
            0 <= k <= n - m + 1,
            m <= n,
            m >= 1,
            n == s@.len(),
            m == w@.len(),
            forall|j: int| 0 <= j < k ==> #[trigger] s@.subrange(j, j + w@.len() as int) != w@,
        decreases n - k,
    {
        let window = vstd::slice::slice_subrange(s, k, k + m);
        if bytes_eq_slices(window, w) {
            return true;
        }
        k = k + 1;
    }
    false
}

fn lower_bytes_exec(s: &[u8]) -> (r: Vec<u8>)
    ensures
        r@ == lower_bytes(s@),
{
    let n = s.len();
    let mut out: Vec<u8> = Vec::new();
    let mut i: usize = 0;
    while i < n
        invariant
            0 <= i <= n,
            n == s@.len(),
            out@ =~= lower_bytes(s@).subrange(0, i as int),
        decreases n - i,
    {
        let b = s[i];
        if 65 <= b && b <= 90 {
            out.push(b + 32);
        } else {
            out.push(b);
        }
        proof {
            assert(out@ =~= lower_bytes(s@).subrange(0, i + 1));
        }
        i = i + 1;
    }
    proof {
        assert(lower_bytes(s@).subrange(0, n as int) =~= lower_bytes(s@));
    }
    out
}

fn te_prefix_exec() -> (r: Vec<u8>)
    ensures
        r@ == te_prefix(),
{
    let mut v: Vec<u8> = Vec::new();
    v.push(116);
    v.push(114);
    v.push(97);
    v.push(110);
    v.push(115);
    v.push(102);
    v.push(101);
    v.push(114);
    v.push(45);
    v.push(101);
    v.push(110);
    v.push(99);
    v.push(111);
    v.push(100);
    v.push(105);
    v.push(110);
    v.push(103);
    v.push(58);
    proof {
        assert(v@ =~= te_prefix());
    }
    v
}

fn chunked_word_exec() -> (r: Vec<u8>)
    ensures
        r@ == chunked_word(),
{
    let mut v: Vec<u8> = Vec::new();
    v.push(99);
    v.push(104);
    v.push(117);
    v.push(110);
    v.push(107);
    v.push(101);
    v.push(100);
    proof {
        assert(v@ =~= chunked_word());
    }
    v
}

fn line_is_chunked(line: &[u8]) -> (r: bool)
    ensures
        r == te_line_chunked(line@),
{
    let t = trim_bytes(line);
    let lowered = lower_bytes_exec(t);
    let prefix = te_prefix_exec();
    if !starts_with_bytes(lowered.as_slice(), prefix.as_slice()) {
        return false;
    }
    let word = chunked_word_exec();
    contains_bytes(lowered.as_slice(), word.as_slice())
}

/// Walks the head's lines looking for a chunked transfer-encoding
/// declaration.
pub fn header_is_chunked(header: &[u8]) -> (r: bool)
    ensures
        r == header_declares_chunked(header@),
{
    let n = header.len();
    let mut p: usize = 0;
    proof {
        assert(header@.subrange(0, n as int) =~= header@);
    }
    loop
        invariant
            0 <= p <= n,
            n == header@.len(),
            header_declares_chunked(header@) == header_declares_chunked(
                header@.subrange(p as int, n as int),
            ),
        decreases n - p,
    {
        if p == n {
            return false;
        }
        let ghost suffix = header@.subrange(p as int, n as int);
        let mut e: usize = p;
        while e < n && header[e] != 10
            invariant
                p <= e <= n,
                n == header@.len(),
                forall|k: int| p <= k < e ==> header@[k] != 10,
            decreases n - e,
        {
            e = e + 1;
        }
        proof {
            assert forall|k: int| 0 <= k < e - p implies suffix[k] != 10 by {
                assert(suffix[k] == header@[k + p]);
            }
            if e < n {
                assert(suffix[e - p] == header@[e as int]);
            }
            lemma_line_end_at(suffix, e - p);
        }
        let line_len: usize = if e > p && header[e - 1] == 13 {
            e - 1
        } else {
            e
        };
        let line = vstd::slice::slice_subrange(header, p, line_len);
        proof {
            assert(first_line(suffix) =~= line@);
        }
        if line_is_chunked(line) {
            return true;
        }
        if e == n {
            return false;
        }
        p = e + 1;
        proof {
            assert(suffix.subrange(line_end(suffix) + 1, suffix.len() as int) =~= header@.subrange(
                p as int,
                n as int,
            ));
        }
    }
}

/// The JSON payload a raw response carries: present only when the head
/// parses, the status is 2xx, and — under chunked transfer encoding —
/// the chunk framing is intact.
pub open spec fn http_json_payload(raw: Seq<u8>) -> Option<Seq<u8>> {
    match response_parts_spec(raw) {
        None => None,
        Some(p) => match status_code_spec(p.0) {
            None => None,
            Some(code) => if !(200 <= code && code < 300) {
                None
            } else if header_declares_chunked(p.0) {
                decode_chunked(p.1)
            } else {
                Some(p.1)
            },
        },
    }
}

/// Extracts the JSON payload bytes of a raw response. A status outside
/// 200..300, a malformed head, or broken chunk framing yields `None`,
/// whatever the body holds.
pub fn parse_http_json_payload(raw: &[u8]) -> (r: Option<Vec<u8>>)
    ensures
        (r is Some) == (http_json_payload(raw@) is Some),
        r matches Some(v) ==> Some(v@) == http_json_payload(raw@),
{
    let (head, body) = match parse_http_response_parts(raw) {
        Some(p) => p,
        None => {
            return None;
        },
    };
    let code = match parse_http_status_code_from_headers(head.as_slice()) {
        Some(c) => c,
        None => {
            return None;
        },
    };
    if !(200 <= code && code < 300) {
        return None;
    }
    if header_is_chunked(head.as_slice()) {
        decode_chunked_body(body.as_slice())
    } else {
        Some(body)
    }
}

/// The status code of a whole raw response, if its head parses.
pub open spec fn raw_status_code_spec(raw: Seq<u8>) -> Option<u16> {
    match response_parts_spec(raw) {
        None => None,
        Some(p) => status_code_spec(p.0),
    }
}

/// Splits a raw response and reads its status code.
pub fn parse_http_status_code(raw: &[u8]) -> (r: Option<u16>)
    ensures
        r == raw_status_code_spec(raw@),
{
    match parse_http_response_parts(raw) {
        None => None,
        Some((head, _body)) => parse_http_status_code_from_headers(head.as_slice()),
    }
}

} // verus!
