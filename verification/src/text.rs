//! Shared text helpers: ASCII-whitespace trimming, string equality,
//! decimal and hexadecimal parsing, and decimal formatting. Contracts are
//! stated over `Seq<char>` views (for `&str`) and `Seq<u8>` (for bytes).

use vstd::prelude::*;

verus! {

/// ASCII whitespace, the subset of Unicode whitespace that fits in one byte.
pub open spec fn is_space_char(c: char) -> bool {
    c == ' ' || c == '\t' || c == '\n' || c == '\r' || c == '\u{b}' || c == '\u{c}'
}

pub open spec fn is_space_byte(b: u8) -> bool {
    b == 32 || b == 9 || b == 10 || b == 13 || b == 11 || b == 12
}

pub open spec fn trim_front(s: Seq<char>) -> Seq<char>
    decreases s.len(),
{
    if s.len() > 0 && is_space_char(s[0]) {
        trim_front(s.drop_first())
    } else {
        s
    }
}

pub open spec fn trim_back(s: Seq<char>) -> Seq<char>
    decreases s.len(),
{
    if s.len() > 0 && is_space_char(s[s.len() - 1]) {
        trim_back(s.drop_last())
    } else {
        s
    }
}

/// What `str::trim` leaves, restricted to ASCII whitespace.
pub open spec fn trimmed(s: Seq<char>) -> Seq<char> {
    trim_back(trim_front(s))
}

proof fn lemma_trim_front_at(s: Seq<char>, i: int)
    requires
        0 <= i <= s.len(),
        forall|k: int| 0 <= k < i ==> is_space_char(s[k]),
        i == s.len() || !is_space_char(s[i]),
    ensures
        trim_front(s) == s.subrange(i, s.len() as int),
    decreases i,
{
    if i == 0 {
        assert(s.subrange(0, s.len() as int) =~= s);
    } else {
        assert(is_space_char(s[0]));
        let d = s.drop_first();
        lemma_trim_front_at(d, i - 1);
        assert(d.subrange(i - 1, d.len() as int) =~= s.subrange(i, s.len() as int));
    }
}

proof fn lemma_trim_back_at(s: Seq<char>, j: int)
    requires
        0 <= j <= s.len(),
        forall|k: int| j <= k < s.len() ==> is_space_char(s[k]),
        j == 0 || !is_space_char(s[j - 1]),
    ensures
        trim_back(s) == s.subrange(0, j),
    decreases s.len() - j,
{
    if j == s.len() {
        if s.len() > 0 && is_space_char(s[s.len() - 1]) {
            let d = s.drop_last();
            lemma_trim_back_at(d, j - 1);
            assert(d.subrange(0, j - 1) =~= s.subrange(0, j - 1));
        } else {
            assert(s.subrange(0, j) =~= s);
        }
    } else {
        assert(is_space_char(s[s.len() - 1]));
        let d = s.drop_last();
        lemma_trim_back_at(d, j);
        assert(d.subrange(0, j) =~= s.subrange(0, j));
    }
}

pub fn is_space(c: char) -> (r: bool)
    ensures
        r == is_space_char(c),
{
    c == ' ' || c == '\t' || c == '\n' || c == '\r' || c == '\u{b}' || c == '\u{c}'
}

/// `str::trim`, for ASCII whitespace.
pub fn trim_str(s: &str) -> (r: &str)
    ensures
        r@ == trimmed(s@),
{
    let n = s.unicode_len();
    let mut i: usize = 0;
    while i < n && is_space(s.get_char(i))
        invariant
            0 <= i <= n,
            n == s@.len(),
            forall|k: int| 0 <= k < i ==> is_space_char(s@[k]),
        decreases n - i,
    {
        i = i + 1;
    }
    let mut j: usize = n;
    while j > i && is_space(s.get_char(j - 1))
        invariant
            i <= j <= n,
            n == s@.len(),
            forall|k: int| j <= k < n ==> is_space_char(s@[k]),
        decreases j,
    {
        j = j - 1;
    }
    let r = s.substring_char(i, j);
    proof {
        lemma_trim_front_at(s@, i as int);
        let f = s@.subrange(i as int, n as int);
        lemma_trim_back_at(f, j - i as int);
        assert(f.subrange(0, j - i as int) =~= s@.subrange(i as int, j as int));
    }
    r
}

/// Character-for-character string equality, `r == (a@ == b@)`.
pub fn str_eq(a: &str, b: &str) -> (r: bool)
    ensures
        r == (a@ == b@),
{
    let na = a.unicode_len();
    let nb = b.unicode_len();
    if na != nb {
        return false;
    }
    let mut i: usize = 0;
    while i < na
        invariant
            0 <= i <= na,
            na == a@.len(),
            na == b@.len(),
            forall|k: int| 0 <= k < i ==> a@[k] == b@[k],
        decreases na - i,
    {
        if a.get_char(i) != b.get_char(i) {
            return false;
        }
        i = i + 1;
    }
    proof {
        assert(a@ =~= b@);
    }
    true
}

pub open spec fn is_digit_char(c: char) -> bool {
    '0' <= c && c <= '9'
}

pub open spec fn digit_char_val(c: char) -> nat {
    ((c as int) - ('0' as int)) as nat
}

pub open spec fn all_digit_chars(s: Seq<char>) -> bool {
    forall|i: int| 0 <= i < s.len() ==> is_digit_char(s[i])
}

/// The number a digit string denotes, most significant digit first.
pub open spec fn dec_value(s: Seq<char>) -> nat
    decreases s.len(),
{
    if s.len() == 0 {
        0
    } else {
        dec_value(s.drop_last()) * 10 + digit_char_val(s.last())
    }
}

/// What `str::parse::<u64>` accepts: an optional leading `+`, then at
/// least one decimal digit, denoting a value that fits in a `u64`.
pub open spec fn parse_u64_spec(s: Seq<char>) -> Option<u64> {
    let t = if s.len() > 0 && s[0] == '+' {
        s.drop_first()
    } else {
        s
    };
    if t.len() > 0 && all_digit_chars(t) && dec_value(t) <= u64::MAX {
        Some(dec_value(t) as u64)
    } else {
        None
    }
}

proof fn lemma_dec_value_step(s: Seq<char>, i: int)
    requires
        0 <= i < s.len(),
    ensures
        dec_value(s.subrange(0, i + 1)) == dec_value(s.subrange(0, i)) * 10 + digit_char_val(s[i]),
{
    let p = s.subrange(0, i + 1);
    assert(p.drop_last() =~= s.subrange(0, i));
    assert(p.last() == s[i]);
}

proof fn lemma_dec_value_grows(s: Seq<char>, i: int)
    requires
        0 <= i <= s.len(),
    ensures
        dec_value(s) >= dec_value(s.subrange(0, i)),
    decreases s.len() - i,
{
    if i == s.len() {
        assert(s.subrange(0, i) =~= s);
    } else {
        lemma_dec_value_step(s, i);
        lemma_dec_value_grows(s, i + 1);
    }
}

/// `str::parse::<u64>` on the character view.
pub fn parse_u64(s: &str) -> (r: Option<u64>)
    ensures
        r == parse_u64_spec(s@),
{
    let n = s.unicode_len();
    let start: usize = if n > 0 && s.get_char(0) == '+' {
        1
    } else {
        0
    };
    let ghost t = if s@.len() > 0 && s@[0] == '+' {
        s@.drop_first()
    } else {
        s@
    };
    proof {
        assert(t =~= s@.subrange(start as int, n as int));
    }
    if start == n {
        return None;
    }
    let mut acc: u64 = 0;
    let mut i: usize = start;
    while i < n
        invariant
            start <= i <= n,
            n == s@.len(),
            start == 0 || start == 1,
            start == 1 ==> s@[0] == '+',
            start == 0 ==> !(s@.len() > 0 && s@[0] == '+'),
            t == s@.subrange(start as int, n as int),
            forall|k: int| start <= k < i ==> is_digit_char(s@[k]),
            acc as nat == dec_value(t.subrange(0, i - start)),
        decreases n - i,
    {
        let c = s.get_char(i);
        if !('0' <= c && c <= '9') {
            proof {
                assert((if s@.len() > 0 && s@[0] == '+' {
                    s@.drop_first()
                } else {
                    s@
                }) =~= t);
                assert(t[i - start] == s@[i as int]);
                assert(!all_digit_chars(t));
            }
            return None;
        }
        let d: u64 = (c as u32 as u64) - 48;
        proof {
            lemma_dec_value_step(t, i - start);
        }
        if acc > (u64::MAX - d) / 10 {
            proof {
                assert((if s@.len() > 0 && s@[0] == '+' {
                    s@.drop_first()
                } else {
                    s@
                }) =~= t);
                vstd::arithmetic::div_mod::lemma_fundamental_div_mod((u64::MAX - d) as int, 10);
                assert(acc * 10 + d > u64::MAX);
                lemma_dec_value_grows(t, i + 1 - start);
                assert(dec_value(t) > u64::MAX);
            }
            return None;
        }
        acc = acc * 10 + d;
        i = i + 1;
    }
    proof {
        assert(t.subrange(0, n - start) =~= t);
    }
    Some(acc)
}

pub open spec fn is_hex_digit_byte(b: u8) -> bool {
    (48 <= b && b <= 57) || (97 <= b && b <= 102) || (65 <= b && b <= 70)
}

pub open spec fn hex_byte_val(b: u8) -> nat {
    if 48 <= b && b <= 57 {
        (b - 48) as nat
    } else if 97 <= b && b <= 102 {
        (b - 87) as nat
    } else {
        (b - 55) as nat
    }
}

pub open spec fn all_hex_digit_bytes(s: Seq<u8>) -> bool {
    forall|i: int| 0 <= i < s.len() ==> is_hex_digit_byte(s[i])
}

pub open spec fn hex_value(s: Seq<u8>) -> nat
    decreases s.len(),
{
    if s.len() == 0 {
        0
    } else {
        hex_value(s.drop_last()) * 16 + hex_byte_val(s.last())
    }
}

/// What `usize::from_str_radix(_, 16)` accepts: an optional leading `+`,
/// then at least one hex digit, denoting a value that fits in a `usize`.
pub open spec fn parse_hex_usize_spec(s: Seq<u8>) -> Option<usize> {
    let t = if s.len() > 0 && s[0] == 43 {
        s.drop_first()
    } else {
        s
    };
    if t.len() > 0 && all_hex_digit_bytes(t) && hex_value(t) <= usize::MAX {
        Some(hex_value(t) as usize)
    } else {
        None
    }
}

proof fn lemma_hex_value_step(s: Seq<u8>, i: int)
    requires
        0 <= i < s.len(),
    ensures
        hex_value(s.subrange(0, i + 1)) == hex_value(s.subrange(0, i)) * 16 + hex_byte_val(s[i]),
{
    let p = s.subrange(0, i + 1);
    assert(p.drop_last() =~= s.subrange(0, i));
    assert(p.last() == s[i]);
}

proof fn lemma_hex_value_grows(s: Seq<u8>, i: int)
    requires
        0 <= i <= s.len(),
    ensures
        hex_value(s) >= hex_value(s.subrange(0, i)),
    decreases s.len() - i,
{
    if i == s.len() {
        assert(s.subrange(0, i) =~= s);
    } else {
        lemma_hex_value_step(s, i);
        lemma_hex_value_grows(s, i + 1);
    }
}

fn hex_digit_of(b: u8) -> (r: Option<u8>)
    ensures
        r is Some <==> is_hex_digit_byte(b),
        r matches Some(v) ==> v as nat == hex_byte_val(b),
{
    if 48 <= b && b <= 57 {
        Some(b - 48)
    } else if 97 <= b && b <= 102 {
        Some(b - 87)
    } else if 65 <= b && b <= 70 {
        Some(b - 55)
    } else {
        None
    }
}

/// `usize::from_str_radix(_, 16)` on bytes.
pub fn parse_hex_usize(s: &[u8]) -> (r: Option<usize>)
    ensures
        r == parse_hex_usize_spec(s@),
{
    let n = s.len();
    let start: usize = if n > 0 && s[0] == 43 {
        1
    } else {
        0
    };
    let ghost t = if s@.len() > 0 && s@[0] == 43 {
        s@.drop_first()
    } else {
        s@
    };
    proof {
        assert(t =~= s@.subrange(start as int, n as int));
    }
    if start == n {
        return None;
    }
    let mut acc: usize = 0;
    let mut i: usize = start;
    while i < n
        invariant
            start <= i <= n,
            n == s@.len(),
            start == 0 || start == 1,
            start == 1 ==> s@[0] == 43,
            start == 0 ==> !(s@.len() > 0 && s@[0] == 43),
            t == s@.subrange(start as int, n as int),
            forall|k: int| start <= k < i ==> is_hex_digit_byte(s@[k]),
            acc as nat == hex_value(t.subrange(0, i - start)),
        decreases n - i,
    {
        let d: usize = match hex_digit_of(s[i]) {
            Some(v) => v as usize,
            None => {
                proof {
                    assert((if s@.len() > 0 && s@[0] == 43 {
                        s@.drop_first()
                    } else {
                        s@
                    }) =~= t);
                    assert(t[i - start] == s@[i as int]);
                    assert(!all_hex_digit_bytes(t));
                }
                return None;
            },
        };
        proof {
            lemma_hex_value_step(t, i - start);
        }
        if acc > (usize::MAX - d) / 16 {
            proof {
                assert((if s@.len() > 0 && s@[0] == 43 {
                    s@.drop_first()
                } else {
                    s@
                }) =~= t);
                vstd::arithmetic::div_mod::lemma_fundamental_div_mod((usize::MAX - d) as int, 16);
                assert(acc * 16 + d > usize::MAX);
                lemma_hex_value_grows(t, i + 1 - start);
                assert(hex_value(t) > usize::MAX);
            }
            return None;
        }
        acc = acc * 16 + d;
        i = i + 1;
    }
    proof {
        assert(t.subrange(0, n - start) =~= t);
    }
    Some(acc)
}

/// The decimal digits of `n` as ASCII bytes, most significant first.
pub open spec fn dec_digits(n: nat) -> Seq<u8>
    decreases n,
{
    if n < 10 {
        seq![(48 + n) as u8]
    } else {
        dec_digits(n / 10) + seq![(48 + n % 10) as u8]
    }
}

/// Formats `n` in decimal, as ASCII bytes.
pub fn u64_dec_bytes(n: u64) -> (r: Vec<u8>)
    ensures
        r@ == dec_digits(n as nat),
{
    let mut out: Vec<u8> = Vec::new();
    let mut m: u64 = n;
    if m == 0 {
        out.push(48);
        return out;
    }
    while m > 0
        invariant
            m > 0 ==> dec_digits(n as nat) =~= dec_digits(m as nat) + out@,
            m == 0 ==> dec_digits(n as nat) =~= out@,
        decreases m,
    {
        let d: u8 = (m % 10) as u8 + 48;
        out.insert(0, d);
        m = m / 10;
        proof {
            if m > 0 {
                assert(dec_digits(n as nat) =~= dec_digits(m as nat) + out@);
            } else {
                assert(dec_digits(n as nat) =~= out@);
            }
        }
    }
    out
}

/// The decimal digits of `n` as characters, most significant first.
pub open spec fn dec_chars(n: nat) -> Seq<char> {
    Seq::new(dec_digits(n).len(), |i: int| dec_digits(n)[i] as char)
}

fn dec_digit_str(d: u8) -> (r: &'static str)
    requires
        48 <= d <= 57,
    ensures
        r@ =~= seq![d as char],
{
    proof {
        reveal_strlit("0");
        reveal_strlit("1");
        reveal_strlit("2");
        reveal_strlit("3");
        reveal_strlit("4");
        reveal_strlit("5");
        reveal_strlit("6");
        reveal_strlit("7");
        reveal_strlit("8");
        reveal_strlit("9");
    }
    if d == 48 {
        "0"
    } else if d == 49 {
        "1"
    } else if d == 50 {
        "2"
    } else if d == 51 {
        "3"
    } else if d == 52 {
        "4"
    } else if d == 53 {
        "5"
    } else if d == 54 {
        "6"
    } else if d == 55 {
        "7"
    } else if d == 56 {
        "8"
    } else {
        "9"
    }
}

/// Formats `n` in decimal, as a string.
pub fn u64_dec_string(n: u64) -> (r: String)
    ensures
        r@ == dec_chars(n as nat),
{
    let digits = u64_dec_bytes(n);
    let mut out = String::new();
    let mut i: usize = 0;
    proof {
        assert(forall|k: int| 0 <= k < dec_digits(n as nat).len()
            ==> 48 <= #[trigger] dec_digits(n as nat)[k] <= 57) by {
            lemma_dec_digits_ascii(n as nat);
        }
    }
    while i < digits.len()
        invariant
            0 <= i <= digits@.len(),
            digits@ == dec_digits(n as nat),
            forall|k: int| 0 <= k < digits@.len() ==> 48 <= #[trigger] digits@[k] <= 57,
            out@ =~= dec_chars(n as nat).subrange(0, i as int),
        decreases digits@.len() - i,
    {
        let piece = dec_digit_str(digits[i]);
        out.append(piece);
        proof {
            assert(out@ =~= dec_chars(n as nat).subrange(0, i + 1));
        }
        i = i + 1;
    }
    proof {
        assert(dec_chars(n as nat).subrange(0, digits@.len() as int) =~= dec_chars(n as nat));
    }
    out
}

proof fn lemma_dec_digits_ascii(n: nat)
    ensures
        forall|k: int| 0 <= k < dec_digits(n).len() ==> 48 <= #[trigger] dec_digits(n)[k] <= 57,
    decreases n,
{
    if n < 10 {
        assert(dec_digits(n) =~= seq![(48 + n) as u8]);
    } else {
        lemma_dec_digits_ascii(n / 10);
        assert(dec_digits(n) =~= dec_digits(n / 10) + seq![(48 + n % 10) as u8]);
        assert(forall|k: int| 0 <= k < dec_digits(n).len() ==> 48 <= #[trigger] dec_digits(n)[k]
            <= 57) by {
            assert(dec_digits(n).last() == (48 + n % 10) as u8);
        }
    }
}

pub open spec fn trim_front_bytes(s: Seq<u8>) -> Seq<u8>
    decreases s.len(),
{
    if s.len() > 0 && is_space_byte(s[0]) {
        trim_front_bytes(s.drop_first())
    } else {
        s
    }
}

pub open spec fn trim_back_bytes(s: Seq<u8>) -> Seq<u8>
    decreases s.len(),
{
    if s.len() > 0 && is_space_byte(s[s.len() - 1]) {
        trim_back_bytes(s.drop_last())
    } else {
        s
    }
}

/// ASCII-whitespace trimming on bytes.
pub open spec fn trimmed_bytes(s: Seq<u8>) -> Seq<u8> {
    trim_back_bytes(trim_front_bytes(s))
}

proof fn lemma_trim_front_bytes_at(s: Seq<u8>, i: int)
    requires
        0 <= i <= s.len(),
        forall|k: int| 0 <= k < i ==> is_space_byte(s[k]),
        i == s.len() || !is_space_byte(s[i]),
    ensures
        trim_front_bytes(s) == s.subrange(i, s.len() as int),
    decreases i,
{
    if i == 0 {
        assert(s.subrange(0, s.len() as int) =~= s);
    } else {
        assert(is_space_byte(s[0]));
        let d = s.drop_first();
        lemma_trim_front_bytes_at(d, i - 1);
        assert(d.subrange(i - 1, d.len() as int) =~= s.subrange(i, s.len() as int));
    }
}

proof fn lemma_trim_back_bytes_at(s: Seq<u8>, j: int)
    requires
        0 <= j <= s.len(),
        forall|k: int| j <= k < s.len() ==> is_space_byte(s[k]),
        j == 0 || !is_space_byte(s[j - 1]),
    ensures
        trim_back_bytes(s) == s.subrange(0, j),
    decreases s.len() - j,
{
    if j == s.len() {
        if s.len() > 0 && is_space_byte(s[s.len() - 1]) {
            let d = s.drop_last();
            lemma_trim_back_bytes_at(d, j - 1);
            assert(d.subrange(0, j - 1) =~= s.subrange(0, j - 1));
        } else {
            assert(s.subrange(0, j) =~= s);
        }
    } else {
        assert(is_space_byte(s[s.len() - 1]));
        let d = s.drop_last();
        lemma_trim_back_bytes_at(d, j);
        assert(d.subrange(0, j) =~= s.subrange(0, j));
    }
}

fn is_space_b(b: u8) -> (r: bool)
    ensures
        r == is_space_byte(b),
{
    b == 32 || b == 9 || b == 10 || b == 13 || b == 11 || b == 12
}

/// ASCII-whitespace trimming on a byte slice.
pub fn trim_bytes(s: &[u8]) -> (r: &[u8])
    ensures
        r@ == trimmed_bytes(s@),
{
    let n = s.len();
    let mut i: usize = 0;
    while i < n && is_space_b(s[i])
        invariant
            0 <= i <= n,
            n == s@.len(),
            forall|k: int| 0 <= k < i ==> is_space_byte(s@[k]),
        decreases n - i,
    {
        i = i + 1;
    }
    let mut j: usize = n;
    while j > i && is_space_b(s[j - 1])
        invariant
            i <= j <= n,
            n == s@.len(),
            forall|k: int| j <= k < n ==> is_space_byte(s@[k]),
        decreases j,
    {
        j = j - 1;
    }
    let r = vstd::slice::slice_subrange(s, i, j);
    proof {
        lemma_trim_front_bytes_at(s@, i as int);
        let f = s@.subrange(i as int, n as int);
        lemma_trim_back_bytes_at(f, j - i as int);
        assert(f.subrange(0, j - i as int) =~= s@.subrange(i as int, j as int));
    }
    r
}

/// Byte-for-byte equality of slices.
pub fn bytes_eq(a: &[u8], b: &[u8]) -> (r: bool)
    ensures
        r == (a@ == b@),
{
    let na = a.len();
    let nb = b.len();
    if na != nb {
        return false;
    }
    let mut i: usize = 0;
    while i < na
        invariant
            0 <= i <= na,
            na == a@.len(),
            na == b@.len(),
            forall|k: int| 0 <= k < i ==> a@[k] == b@[k],
        decreases na - i,
    {
        if a[i] != b[i] {
            return false;
        }
        i = i + 1;
    }
    proof {
        assert(a@ =~= b@);
    }
    true
}

pub open spec fn is_digit_byte(b: u8) -> bool {
    48 <= b && b <= 57
}

pub open spec fn digit_byte_val(b: u8) -> nat {
    ((b as int) - 48) as nat
}

pub open spec fn all_digit_bytes(s: Seq<u8>) -> bool {
    forall|i: int| 0 <= i < s.len() ==> is_digit_byte(s[i])
}

pub open spec fn dec_value_bytes(s: Seq<u8>) -> nat
    decreases s.len(),
{
    if s.len() == 0 {
        0
    } else {
        dec_value_bytes(s.drop_last()) * 10 + digit_byte_val(s.last())
    }
}

/// What `str::parse::<u16>` accepts, on ASCII bytes: an optional leading
/// `+`, then at least one decimal digit, denoting a value within `u16`.
pub open spec fn parse_u16_bytes_spec(s: Seq<u8>) -> Option<u16> {
    let t = if s.len() > 0 && s[0] == 43 {
        s.drop_first()
    } else {
        s
    };
    if t.len() > 0 && all_digit_bytes(t) && dec_value_bytes(t) <= u16::MAX {
        Some(dec_value_bytes(t) as u16)
    } else {
        None
    }
}

proof fn lemma_dec_value_bytes_step(s: Seq<u8>, i: int)
    requires
        0 <= i < s.len(),
    ensures
        dec_value_bytes(s.subrange(0, i + 1)) == dec_value_bytes(s.subrange(0, i)) * 10
            + digit_byte_val(s[i]),
{
    let p = s.subrange(0, i + 1);
    assert(p.drop_last() =~= s.subrange(0, i));
    assert(p.last() == s[i]);
}

proof fn lemma_dec_value_bytes_grows(s: Seq<u8>, i: int)
    requires
        0 <= i <= s.len(),
    ensures
        dec_value_bytes(s) >= dec_value_bytes(s.subrange(0, i)),
    decreases s.len() - i,
{
    if i == s.len() {
        assert(s.subrange(0, i) =~= s);
    } else {
        lemma_dec_value_bytes_step(s, i);
        lemma_dec_value_bytes_grows(s, i + 1);
    }
}

/// `str::parse::<u16>` on ASCII bytes.
pub fn parse_u16_bytes(s: &[u8]) -> (r: Option<u16>)
    ensures
        r == parse_u16_bytes_spec(s@),
{
    let n = s.len();
    let start: usize = if n > 0 && s[0] == 43 {
        1
    } else {
        0
    };
    let ghost t = if s@.len() > 0 && s@[0] == 43 {
        s@.drop_first()
    } else {
        s@
    };
    proof {
        assert(t =~= s@.subrange(start as int, n as int));
    }
    if start == n {
        return None;
    }
    let mut acc: u64 = 0;
    let mut i: usize = start;
    while i < n
        invariant
            start <= i <= n,
            n == s@.len(),
            start == 0 || start == 1,
            start == 1 ==> s@[0] == 43,
            start == 0 ==> !(s@.len() > 0 && s@[0] == 43),
            t == s@.subrange(start as int, n as int),
            forall|k: int| start <= k < i ==> is_digit_byte(s@[k]),
            acc as nat == dec_value_bytes(t.subrange(0, i - start)),
            acc <= u16::MAX,
        decreases n - i,
    {
        let b = s[i];
        if !(48 <= b && b <= 57) {
            proof {
                assert((if s@.len() > 0 && s@[0] == 43 {
                    s@.drop_first()
                } else {
                    s@
                }) =~= t);
                assert(t[i - start] == s@[i as int]);
                assert(!all_digit_bytes(t));
            }
            return None;
        }
        let d: u64 = (b - 48) as u64;
        proof {
            lemma_dec_value_bytes_step(t, i - start);
        }
        acc = acc * 10 + d;
        if acc > 65535 {
            proof {
                assert((if s@.len() > 0 && s@[0] == 43 {
                    s@.drop_first()
                } else {
                    s@
                }) =~= t);
                lemma_dec_value_bytes_grows(t, i + 1 - start);
                assert(dec_value_bytes(t) > u16::MAX);
            }
            return None;
        }
        i = i + 1;
    }
    proof {
        assert(t.subrange(0, n - start) =~= t);
    }
    Some(acc as u16)
}

/// Lowers one ASCII letter; other characters pass through.
pub open spec fn lower_char(c: char) -> char {
    if 'A' <= c && c <= 'Z' {
        ((c as u8) + 32) as char
    } else {
        c
    }
}

pub open spec fn lower_byte(b: u8) -> u8 {
    if 65 <= b && b <= 90 {
        (b + 32) as u8
    } else {
        b
    }
}

} // verus!
