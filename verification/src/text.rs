//! Character-level text helpers shared by the parsers and renderers.
//!
//! Every helper works on the characters of a string (`Seq<char>` in
//! specifications, `Vec<char>`/`&[char]` in executable code) and is specified
//! by a small recursive definition that mirrors the corresponding `str` method.
use vstd::prelude::*;
use vstd::string::*;

verus! {

/// The characters that carry the Unicode `White_Space` property, which is what
/// `char::is_whitespace` tests.
pub open spec fn is_ws(c: char) -> bool {
    ||| ('\u{9}' <= c && c <= '\u{d}')
    ||| c == ' '
    ||| c == '\u{85}'
    ||| c == '\u{a0}'
    ||| c == '\u{1680}'
    ||| ('\u{2000}' <= c && c <= '\u{200a}')
    ||| c == '\u{2028}'
    ||| c == '\u{2029}'
    ||| c == '\u{202f}'
    ||| c == '\u{205f}'
    ||| c == '\u{3000}'
}

/// Executable test for [`is_ws`].
pub fn is_whitespace(c: char) -> (b: bool)
    ensures
        b == is_ws(c),
{
    ('\u{9}' <= c && c <= '\u{d}') || c == ' ' || c == '\u{85}' || c == '\u{a0}'
        || c == '\u{1680}' || ('\u{2000}' <= c && c <= '\u{200a}') || c == '\u{2028}'
        || c == '\u{2029}' || c == '\u{202f}' || c == '\u{205f}' || c == '\u{3000}'
}

/// ASCII decimal digit.
pub open spec fn is_digit(c: char) -> bool {
    '0' <= c && c <= '9'
}

/// Value of an ASCII decimal digit.
pub open spec fn digit_value(c: char) -> nat {
    (c as int - '0' as int) as nat
}

/// The ASCII digit for a value below ten.
pub open spec fn digit_char(d: nat) -> char {
    (d + '0' as nat) as char
}

/// ASCII lowercase mapping of one character (other characters are unchanged).
pub open spec fn ascii_lower(c: char) -> char {
    if 'A' <= c && c <= 'Z' {
        ((c as int) + 32) as char
    } else {
        c
    }
}

/// ASCII lowercase mapping of a whole string.
pub open spec fn ascii_lower_seq(s: Seq<char>) -> Seq<char> {
    Seq::new(s.len(), |i: int| ascii_lower(s[i]))
}

/// `s` with leading whitespace removed (`str::trim_start`).
pub open spec fn trim_start(s: Seq<char>) -> Seq<char>
    decreases s.len(),
{
    if s.len() > 0 && is_ws(s[0]) {
        trim_start(s.drop_first())
    } else {
        s
    }
}

/// `s` with trailing whitespace removed (`str::trim_end`).
pub open spec fn trim_end(s: Seq<char>) -> Seq<char>
    decreases s.len(),
{
    if s.len() > 0 && is_ws(s.last()) {
        trim_end(s.drop_last())
    } else {
        s
    }
}

/// `s` with leading and trailing whitespace removed (`str::trim`).
pub open spec fn trim(s: Seq<char>) -> Seq<char> {
    trim_end(trim_start(s))
}

/// The pieces of `s` between occurrences of `d` (`str::split` with a char).
/// There is always at least one piece.
pub open spec fn split_on(s: Seq<char>, d: char) -> Seq<Seq<char>>
    decreases s.len(),
{
    if s.len() == 0 {
        seq![Seq::<char>::empty()]
    } else {
        let r = split_on(s.drop_last(), d);
        if s.last() == d {
            r.push(Seq::<char>::empty())
        } else {
            r.update(r.len() - 1, r.last().push(s.last()))
        }
    }
}

/// The maximal runs of non-whitespace characters of `s` (`str::split_whitespace`).
pub open spec fn words(s: Seq<char>) -> Seq<Seq<char>>
    decreases s.len(),
{
    if s.len() == 0 {
        Seq::<Seq<char>>::empty()
    } else {
        let r = words(s.drop_last());
        let c = s.last();
        if is_ws(c) {
            r
        } else if s.len() >= 2 && !is_ws(s[s.len() - 2]) {
            r.update(r.len() - 1, r.last().push(c))
        } else {
            r.push(seq![c])
        }
    }
}

/// `s` without one trailing `'\r'`.
pub open spec fn strip_cr(s: Seq<char>) -> Seq<char> {
    if s.len() > 0 && s.last() == '\r' {
        s.drop_last()
    } else {
        s
    }
}

/// The lines of `s` (`str::lines`): split on `'\n'`, a final empty piece is
/// not a line, and a line that ends in `"\r\n"` loses its `'\r'`; a final
/// line without a `'\n'` keeps a trailing `'\r'`.
pub open spec fn lines(s: Seq<char>) -> Seq<Seq<char>> {
    let parts = split_on(s, '\n');
    let kept = if parts.last().len() == 0 {
        parts.drop_last()
    } else {
        parts
    };
    Seq::new(kept.len(), |i: int| if i + 1 < parts.len() { strip_cr(kept[i]) } else { kept[i] })
}

/// Index of the first `c` in `s`, or `s.len()` when there is none.
pub open spec fn first_index(s: Seq<char>, c: char) -> nat
    decreases s.len(),
{
    if s.len() == 0 {
        0
    } else if s[0] == c {
        0
    } else {
        1 + first_index(s.drop_first(), c)
    }
}

/// What [`first_index`] is: the position of the first `c`, or the length.
pub proof fn lemma_first_index(s: Seq<char>, c: char)
    ensures
        first_index(s, c) <= s.len(),
        first_index(s, c) < s.len() ==> s[first_index(s, c) as int] == c,
        forall|j: int| 0 <= j < first_index(s, c) ==> s[j] != c,
    decreases s.len(),
{
    if s.len() > 0 && s[0] != c {
        lemma_first_index(s.drop_first(), c);
        assert forall|j: int| 0 <= j < first_index(s, c) implies s[j] != c by {
            if j > 0 {
                assert(s[j] == s.drop_first()[j - 1]);
            }
        }
    }
}

/// The position of the first `c` in `a`, or `a.len()` when there is none.
pub fn find_char(a: &[char], c: char) -> (i: usize)
    ensures
        i == first_index(a@, c),
{
    let mut i: usize = 0;
    assert(a@.skip(0) =~= a@);
    while i < a.len() && a[i] != c
        invariant
            i <= a.len(),
            first_index(a@, c) == i + first_index(a@.skip(i as int), c),
        decreases a.len() - i,
    {
        assert(a@.skip(i as int).drop_first() =~= a@.skip(i + 1));
        i = i + 1;
    }
    proof {
        if i < a.len() {
            assert(a@.skip(i as int)[0] == c);
        } else {
            assert(a@.skip(i as int).len() == 0);
        }
    }
    i
}

/// `p` is a prefix of `s`.
pub open spec fn has_prefix(s: Seq<char>, p: Seq<char>) -> bool {
    p.len() <= s.len() && s.subrange(0, p.len() as int) == p
}

/// `p` is a suffix of `s`.
pub open spec fn has_suffix(s: Seq<char>, p: Seq<char>) -> bool {
    p.len() <= s.len() && s.subrange(s.len() - p.len(), s.len() as int) == p
}

/// Decimal digits of a natural number, without leading zeros.
pub open spec fn decimal(n: nat) -> Seq<char>
    decreases n,
{
    if n < 10 {
        seq![digit_char(n)]
    } else {
        decimal(n / 10).push(digit_char(n % 10))
    }
}

/// Value of a sequence of decimal digits.
pub open spec fn digits_value(s: Seq<char>) -> nat
    decreases s.len(),
{
    if s.len() == 0 {
        0
    } else {
        digits_value(s.drop_last()) * 10 + digit_value(s.last())
    }
}

/// The pieces joined with `sep` between consecutive pieces.
pub open spec fn join(pieces: Seq<Seq<char>>, sep: Seq<char>) -> Seq<char>
    decreases pieces.len(),
{
    if pieces.len() == 0 {
        Seq::<char>::empty()
    } else if pieces.len() == 1 {
        pieces[0]
    } else {
        join(pieces.drop_last(), sep) + sep + pieces.last()
    }
}

/// The character sequences held by a vector of character buffers.
pub open spec fn seqs_of(v: Seq<Vec<char>>) -> Seq<Seq<char>> {
    Seq::new(v.len(), |i: int| v[i]@)
}

/// Appends one character to a `String` (`String::push`).
#[verifier::external_body]
pub(crate) fn push_char(s: &mut String, c: char)
    ensures
        final(s)@ == old(s)@.push(c),
{
    s.push(c);
}

/// The characters of a string slice, in order.
pub fn chars_of(s: &str) -> (v: Vec<char>)
    ensures
        v@ == s@,
{
    broadcast use vstd::string::group_string_axioms;

    let mut v: Vec<char> = Vec::new();
    for c in it: s.chars()
        invariant
            v@ == it.seq().take(it.index()),
            it.seq() == s@,
    {
        v.push(c);
    }
    v
}

/// A `String` holding exactly the given characters.
pub fn string_of(v: &[char]) -> (s: String)
    ensures
        s@ == v@,
{
    let mut s = String::new();
    let mut i: usize = 0;
    while i < v.len()
        invariant
            i <= v.len(),
            s@ == v@.subrange(0, i as int),
        decreases v.len() - i,
    {
        push_char(&mut s, v[i]);
        i = i + 1;
    }
    s
}

/// Appends all characters of `src` to `dst`.
pub fn extend_chars(dst: &mut Vec<char>, src: &[char])
    ensures
        final(dst)@ == old(dst)@ + src@,
{
    let mut i: usize = 0;
    while i < src.len()
        invariant
            i <= src.len(),
            dst@ == old(dst)@ + src@.subrange(0, i as int),
        decreases src.len() - i,
    {
        dst.push(src[i]);
        i = i + 1;
    }
}

/// Appends all characters of a string slice to `dst`.
pub fn extend_str(dst: &mut Vec<char>, src: &str)
    ensures
        final(dst)@ == old(dst)@ + src@,
{
    let cs = chars_of(src);
    extend_chars(dst, cs.as_slice());
}

/// Character-wise equality.
pub fn chars_eq(a: &[char], b: &[char]) -> (r: bool)
    ensures
        r == (a@ == b@),
{
    if a.len() != b.len() {
        return false;
    }
    let mut i: usize = 0;
    while i < a.len()
        invariant
            a.len() == b.len(),
            i <= a.len(),
            forall|j: int| 0 <= j < i ==> a@[j] == b@[j],
        decreases a.len() - i,
    {
        if a[i] != b[i] {
            return false;
        }
        i = i + 1;
    }
    assert(a@ =~= b@);
    true
}

/// Equality of a character buffer with a string slice.
pub fn chars_eq_str(a: &[char], b: &str) -> (r: bool)
    ensures
        r == (a@ == b@),
{
    let bs = chars_of(b);
    chars_eq(a, bs.as_slice())
}

/// Equality of two string slices by their characters.
pub fn str_eq(a: &str, b: &str) -> (r: bool)
    ensures
        r == (a@ == b@),
{
    let cs = chars_of(a);
    chars_eq_str(cs.as_slice(), b)
}

/// Whether `c` occurs in `a`.
pub fn contains_char(a: &[char], c: char) -> (r: bool)
    ensures
        r == a@.contains(c),
{
    let mut i: usize = 0;
    while i < a.len()
        invariant
            i <= a.len(),
            forall|j: int| 0 <= j < i ==> a@[j] != c,
        decreases a.len() - i,
    {
        if a[i] == c {
            assert(a@[i as int] == c);
            return true;
        }
        i = i + 1;
    }
    false
}

/// Whether `p` is a prefix of `a`.
pub fn starts_with(a: &[char], p: &[char]) -> (r: bool)
    ensures
        r == has_prefix(a@, p@),
{
    if p.len() > a.len() {
        return false;
    }
    let mut i: usize = 0;
    while i < p.len()
        invariant
            p.len() <= a.len(),
            i <= p.len(),
            forall|j: int| 0 <= j < i ==> a@[j] == p@[j],
        decreases p.len() - i,
    {
        if a[i] != p[i] {
            assert(a@.subrange(0, p@.len() as int)[i as int] != p@[i as int]);
            return false;
        }
        i = i + 1;
    }
    assert(a@.subrange(0, p@.len() as int) =~= p@);
    true
}

/// Whether `p` is a suffix of `a`.
pub fn ends_with(a: &[char], p: &[char]) -> (r: bool)
    ensures
        r == has_suffix(a@, p@),
{
    if p.len() > a.len() {
        return false;
    }
    let off = a.len() - p.len();
    let mut i: usize = 0;
    while i < p.len()
        invariant
            p.len() <= a.len(),
            off == a.len() - p.len(),
            i <= p.len(),
            forall|j: int| 0 <= j < i ==> a@[off + j] == p@[j],
        decreases p.len() - i,
    {
        if a[off + i] != p[i] {
            assert(a@.subrange(off as int, a@.len() as int)[i as int] != p@[i as int]);
            return false;
        }
        i = i + 1;
    }
    assert(a@.subrange(off as int, a@.len() as int) =~= p@);
    true
}

/// The characters `a[from..to]`.
pub fn slice_chars(a: &[char], from: usize, to: usize) -> (r: Vec<char>)
    requires
        from <= to <= a.len(),
    ensures
        r@ == a@.subrange(from as int, to as int),
{
    let mut r: Vec<char> = Vec::new();
    let mut i: usize = from;
    while i < to
        invariant
            from <= i <= to <= a.len(),
            r@ == a@.subrange(from as int, i as int),
        decreases to - i,
    {
        r.push(a[i]);
        i = i + 1;
    }
    r
}

proof fn lemma_trim_start_skip(s: Seq<char>, i: int)
    requires
        0 <= i <= s.len(),
        forall|j: int| 0 <= j < i ==> is_ws(s[j]),
    ensures
        trim_start(s) == trim_start(s.subrange(i, s.len() as int)),
    decreases i,
{
    if i > 0 {
        assert(s.drop_first().subrange(i - 1, s.drop_first().len() as int) =~= s.subrange(
            i,
            s.len() as int,
        ));
        lemma_trim_start_skip(s.drop_first(), i - 1);
    } else {
        assert(s.subrange(0, s.len() as int) =~= s);
    }
}

proof fn lemma_trim_end_cut(s: Seq<char>, k: int)
    requires
        0 <= k <= s.len(),
        forall|j: int| k <= j < s.len() ==> is_ws(s[j]),
    ensures
        trim_end(s) == trim_end(s.subrange(0, k)),
    decreases s.len() - k,
{
    if k < s.len() {
        assert(s.drop_last().subrange(0, k) =~= s.subrange(0, k));
        lemma_trim_end_cut(s.drop_last(), k);
    } else {
        assert(s.subrange(0, k) =~= s);
    }
}

/// Removes leading and trailing whitespace (`str::trim`).
pub fn trim_chars(a: &[char]) -> (r: Vec<char>)
    ensures
        r@ == trim(a@),
{
    let mut i: usize = 0;
    while i < a.len() && is_whitespace(a[i])
        invariant
            i <= a.len(),
            forall|j: int| 0 <= j < i ==> is_ws(a@[j]),
        decreases a.len() - i,
    {
        i = i + 1;
    }
    proof {
        lemma_trim_start_skip(a@, i as int);
    }
    let ghost t = a@.subrange(i as int, a@.len() as int);
    assert(trim_start(t) == t);
    let mut k: usize = a.len();
    while k > i && is_whitespace(a[k - 1])
        invariant
            i <= k <= a.len(),
            t == a@.subrange(i as int, a@.len() as int),
            forall|j: int| k <= j < a@.len() ==> is_ws(a@[j]),
        decreases k,
    {
        k = k - 1;
    }
    proof {
        lemma_trim_end_cut(t, k - i);
        assert(t.subrange(0, k - i) =~= a@.subrange(i as int, k as int));
    }
    slice_chars(a, i, k)
}


/// Splits at every occurrence of `d` (`str::split` with a char pattern).
pub fn split_chars(a: &[char], d: char) -> (r: Vec<Vec<char>>)
    ensures
        seqs_of(r@) == split_on(a@, d),
        r.len() >= 1,
{
    let mut pieces: Vec<Vec<char>> = Vec::new();
    let mut cur: Vec<char> = Vec::new();
    let mut i: usize = 0;
    assert(a@.take(0) =~= Seq::<char>::empty());
    assert(seqs_of(pieces@).push(cur@) =~= split_on(a@.take(0), d));
    while i < a.len()
        invariant
            i <= a.len(),
            seqs_of(pieces@).push(cur@) == split_on(a@.take(i as int), d),
        decreases a.len() - i,
    {
        let c = a[i];
        assert(a@.take(i + 1).drop_last() =~= a@.take(i as int));
        if c == d {
            let ghost old_p = seqs_of(pieces@);
            let ghost old_c = cur@;
            pieces.push(cur);
            cur = Vec::new();
            assert(seqs_of(pieces@) =~= old_p.push(old_c));
            assert(seqs_of(pieces@).push(cur@) =~= split_on(a@.take(i + 1), d));
        } else {
            let ghost old_p = seqs_of(pieces@);
            cur.push(c);
            assert(seqs_of(pieces@).push(cur@) =~= split_on(a@.take(i + 1), d));
        }
        i = i + 1;
    }
    assert(a@.take(a@.len() as int) =~= a@);
    let ghost old_p = seqs_of(pieces@);
    let ghost old_c = cur@;
    pieces.push(cur);
    assert(seqs_of(pieces@) =~= old_p.push(old_c));
    pieces
}

/// The whitespace-separated words (`str::split_whitespace`).
pub fn split_whitespace_chars(a: &[char]) -> (r: Vec<Vec<char>>)
    ensures
        seqs_of(r@) == words(a@),
{
    let mut out: Vec<Vec<char>> = Vec::new();
    let mut cur: Vec<char> = Vec::new();
    let mut in_word = false;
    let mut i: usize = 0;
    assert(a@.take(0) =~= Seq::<char>::empty());
    while i < a.len()
        invariant
            i <= a.len(),
            in_word == (i > 0 && !is_ws(a@[i - 1])),
            in_word ==> cur@.len() > 0 && seqs_of(out@).push(cur@) == words(a@.take(i as int)),
            !in_word ==> seqs_of(out@) == words(a@.take(i as int)),
        decreases a.len() - i,
    {
        let c = a[i];
        let ghost pre = a@.take(i as int);
        let ghost nxt = a@.take(i + 1);
        assert(nxt.drop_last() =~= pre);
        assert(nxt.last() == c);
        if is_whitespace(c) {
            if in_word {
                let ghost old_o = seqs_of(out@);
                let ghost old_c = cur@;
                out.push(cur);
                cur = Vec::new();
                assert(seqs_of(out@) =~= old_o.push(old_c));
            }
            in_word = false;
        } else {
            if in_word {
                assert(nxt[nxt.len() - 2] == a@[i - 1]);
                cur.push(c);
                assert(seqs_of(out@).push(cur@) =~= words(nxt));
            } else {
                cur = Vec::new();
                cur.push(c);
                if i > 0 {
                    assert(nxt[nxt.len() - 2] == a@[i - 1]);
                }
                assert(seqs_of(out@).push(cur@) =~= words(nxt));
            }
            in_word = true;
        }
        i = i + 1;
    }
    assert(a@.take(a@.len() as int) =~= a@);
    if in_word {
        let ghost old_o = seqs_of(out@);
        let ghost old_c = cur@;
        out.push(cur);
        assert(seqs_of(out@) =~= old_o.push(old_c));
    }
    out
}

/// The lines of a text (`str::lines`).
pub fn lines_chars(a: &[char]) -> (r: Vec<Vec<char>>)
    ensures
        seqs_of(r@) == lines(a@),
{
    let parts = split_chars(a, '\n');
    let ghost ps = seqs_of(parts@);
    let n = if parts[parts.len() - 1].len() == 0 {
        parts.len() - 1
    } else {
        parts.len()
    };
    let ghost kept = if ps.last().len() == 0 {
        ps.drop_last()
    } else {
        ps
    };
    assert(kept.len() == n);
    let mut out: Vec<Vec<char>> = Vec::new();
    let mut i: usize = 0;
    while i < n
        invariant
            i <= n,
            n <= parts.len(),
            ps == seqs_of(parts@),
            kept.len() == n,
            forall|j: int| 0 <= j < n ==> kept[j] == ps[j],
            seqs_of(out@) =~= Seq::new(
                i as nat,
                |j: int| if j + 1 < ps.len() { strip_cr(kept[j]) } else { kept[j] },
            ),
        decreases n - i,
    {
        let p = &parts[i];
        assert(p@ == ps[i as int]);
        let line = if i + 1 < parts.len() && p.len() > 0 && p[p.len() - 1] == '\r' {
            slice_chars(p.as_slice(), 0, p.len() - 1)
        } else {
            slice_chars(p.as_slice(), 0, p.len())
        };
        let ghost want = if i + 1 < ps.len() { strip_cr(kept[i as int]) } else { kept[i as int] };
        assert(line@ == want);
        let ghost old_o = seqs_of(out@);
        out.push(line);
        assert(seqs_of(out@) =~= old_o.push(want));
        i = i + 1;
    }
    out
}

/// Digits of `n` appended to `out`.
pub fn push_decimal(out: &mut Vec<char>, n: u64)
    ensures
        final(out)@ == old(out)@ + decimal(n as nat),
    decreases n,
{
    if n >= 10 {
        push_decimal(out, n / 10);
    }
    let d = (n % 10) as u8;
    let c = (d + 48u8) as char;
    assert(c == digit_char((n % 10) as nat));
    out.push(c);
    assert(out@ =~= old(out)@ + decimal(n as nat));
}

/// Decimal text of a number.
pub fn decimal_string(n: u64) -> (s: String)
    ensures
        s@ == decimal(n as nat),
{
    let mut v: Vec<char> = Vec::new();
    push_decimal(&mut v, n);
    assert(v@ =~= decimal(n as nat));
    string_of(v.as_slice())
}


/// Why text is not an unsigned integer (the kinds of `ParseIntError` that
/// parsing an unsigned type can produce).
#[derive(Debug, Clone, Copy, PartialEq, Eq, Structural)]
pub enum IntErrorKind {
    /// The text is empty.
    Empty,
    /// A character is not a decimal digit.
    InvalidDigit,
    /// The value does not fit in the target type.
    PosOverflow,
}

/// Left-to-right digit scan of `s` starting from `acc`, failing on the first
/// non-digit or on the first step whose value exceeds `max`.
pub open spec fn scan_digits(s: Seq<char>, acc: nat, max: nat) -> Result<nat, IntErrorKind>
    decreases s.len(),
{
    if s.len() == 0 {
        Ok(acc)
    } else if !is_digit(s[0]) {
        Err(IntErrorKind::InvalidDigit)
    } else if acc * 10 + digit_value(s[0]) > max {
        Err(IntErrorKind::PosOverflow)
    } else {
        scan_digits(s.drop_first(), acc * 10 + digit_value(s[0]), max)
    }
}

/// `str::parse` for an unsigned integer type whose largest value is `max`:
/// an optional leading `+`, then at least one decimal digit.
pub open spec fn parse_uint(s: Seq<char>, max: nat) -> Result<nat, IntErrorKind> {
    if s.len() == 0 {
        Err(IntErrorKind::Empty)
    } else if (s[0] == '+' || s[0] == '-') && s.len() == 1 {
        Err(IntErrorKind::InvalidDigit)
    } else if s[0] == '+' {
        scan_digits(s.drop_first(), 0, max)
    } else {
        scan_digits(s, 0, max)
    }
}

/// Parses unsigned decimal text no larger than `max` (`str::parse::<uN>`).
pub fn parse_uint_chars(a: &[char], max: u64) -> (r: Result<u64, IntErrorKind>)
    ensures
        r is Ok <==> parse_uint(a@, max as nat) is Ok,
        r is Ok ==> r->Ok_0 as nat == parse_uint(a@, max as nat)->Ok_0 && r->Ok_0 <= max,
        r is Err ==> r->Err_0 == parse_uint(a@, max as nat)->Err_0,
{
    if a.len() == 0 {
        return Err(IntErrorKind::Empty);
    }
    if (a[0] == '+' || a[0] == '-') && a.len() == 1 {
        return Err(IntErrorKind::InvalidDigit);
    }
    let start: usize = if a[0] == '+' {
        1
    } else {
        0
    };
    let ghost digs = if a@[0] == '+' {
        a@.drop_first()
    } else {
        a@
    };
    assert(digs =~= a@.subrange(start as int, a@.len() as int));
    assert(parse_uint(a@, max as nat) == scan_digits(digs, 0, max as nat));
    let mut acc: u64 = 0;
    let mut i: usize = start;
    while i < a.len()
        invariant
            start <= i <= a.len(),
            acc <= max,
            parse_uint(a@, max as nat) == scan_digits(digs, 0, max as nat),
            scan_digits(digs, 0, max as nat) == scan_digits(
                a@.subrange(i as int, a@.len() as int),
                acc as nat,
                max as nat,
            ),
        decreases a.len() - i,
    {
        let ghost rest = a@.subrange(i as int, a@.len() as int);
        assert(rest[0] == a@[i as int]);
        assert(rest.drop_first() =~= a@.subrange(i + 1, a@.len() as int));
        let c = a[i];
        if !('0' <= c && c <= '9') {
            return Err(IntErrorKind::InvalidDigit);
        }
        let d = ((c as u32) - 48) as u64;
        assert(d as nat == digit_value(c));
        if d > max {
            return Err(IntErrorKind::PosOverflow);
        }
        if acc > (max - d) / 10 {
            assert(acc * 10 + d > max) by (nonlinear_arith)
                requires
                    acc > (max - d) / 10,
                    d <= max,
            {
            }
            return Err(IntErrorKind::PosOverflow);
        }
        assert(acc * 10 + d <= max) by (nonlinear_arith)
            requires
                acc <= (max - d) / 10,
                d <= max,
        {
        }
        acc = acc * 10 + d;
        i = i + 1;
    }
    assert(a@.subrange(i as int, a@.len() as int) =~= Seq::<char>::empty());
    Ok(acc)
}

/// The text `ParseIntError` displays for each kind.
pub open spec fn int_error_text(k: IntErrorKind) -> Seq<char> {
    match k {
        IntErrorKind::Empty => "cannot parse integer from empty string"@,
        IntErrorKind::InvalidDigit => "invalid digit found in string"@,
        IntErrorKind::PosOverflow => "number too large to fit in target type"@,
    }
}

/// Executable [`int_error_text`].
pub fn int_error_message(k: IntErrorKind) -> (s: &'static str)
    ensures
        s@ == int_error_text(k),
{
    match k {
        IntErrorKind::Empty => "cannot parse integer from empty string",
        IntErrorKind::InvalidDigit => "invalid digit found in string",
        IntErrorKind::PosOverflow => "number too large to fit in target type",
    }
}


/// `Path::is_absolute` on Unix: the path starts at the root.
pub open spec fn is_absolute(p: Seq<char>) -> bool {
    p.len() > 0 && p[0] == '/'
}

/// `PathBuf::join` on Unix: an absolute `part` replaces `base`; otherwise a
/// `/` is inserted unless `base` is empty or already ends with one.
pub open spec fn path_join(base: Seq<char>, part: Seq<char>) -> Seq<char> {
    if is_absolute(part) {
        part
    } else if base.len() > 0 && base.last() != '/' {
        base + "/"@ + part
    } else {
        base + part
    }
}

/// Executable [`path_join`] on character buffers.
pub fn join_chars(base: &[char], part: &[char]) -> (r: Vec<char>)
    ensures
        r@ == path_join(base@, part@),
{
    let mut r: Vec<char> = Vec::new();
    if part.len() > 0 && part[0] == '/' {
        extend_chars(&mut r, part);
        return r;
    }
    extend_chars(&mut r, base);
    if base.len() > 0 && base[base.len() - 1] != '/' {
        r.push('/');
        proof {
            reveal_strlit("/");
        }
        assert(r@ =~= base@ + "/"@);
    }
    extend_chars(&mut r, part);
    r
}

/// Executable [`path_join`] on strings.
pub fn join_path(base: &str, part: &str) -> (r: String)
    ensures
        r@ == path_join(base@, part@),
{
    let b = chars_of(base);
    let p = chars_of(part);
    let r = join_chars(b.as_slice(), p.as_slice());
    string_of(r.as_slice())
}

/// Trims a string slice (`str::trim`), giving an owned `String`.
pub fn trim_str(s: &str) -> (r: String)
    ensures
        r@ == trim(s@),
{
    let cs = chars_of(s);
    let t = trim_chars(cs.as_slice());
    string_of(t.as_slice())
}

/// A `String` made of `a` followed by `b`.
pub fn concat2(a: &str, b: &str) -> (r: String)
    ensures
        r@ == a@ + b@,
{
    let mut v: Vec<char> = Vec::new();
    extend_str(&mut v, a);
    extend_str(&mut v, b);
    string_of(v.as_slice())
}

/// A `String` made of `a`, `b` and `c` in order.
pub fn concat3(a: &str, b: &str, c: &str) -> (r: String)
    ensures
        r@ == a@ + b@ + c@,
{
    let mut v: Vec<char> = Vec::new();
    extend_str(&mut v, a);
    extend_str(&mut v, b);
    extend_str(&mut v, c);
    string_of(v.as_slice())
}

/// What `String::from_utf8_lossy` makes of `b`: the decoded text, with each
/// invalid sequence replaced by U+FFFD.
pub uninterp spec fn utf8_lossy(b: Seq<u8>) -> Seq<char>;

/// The message of the error `String::from_utf8` reports for `b`.
pub uninterp spec fn utf8_error_text(b: Seq<u8>) -> Seq<char>;

/// `String::from_utf8_lossy`, as an owned string. Valid UTF-8 is decoded as
/// it is; what is made of invalid input is only named.
#[verifier::external_body]
pub(crate) fn lossy_string(b: &[u8]) -> (s: String)
    ensures
        s@ == utf8_lossy(b@),
        vstd::utf8::valid_utf8(b@) ==> s@ == vstd::utf8::decode_utf8(b@),
{
    String::from_utf8_lossy(b).into_owned()
}

/// `String::from_utf8`: succeeds exactly on valid UTF-8 and then holds the
/// decoded text; otherwise gives the error's message.
#[verifier::external_body]
pub(crate) fn utf8_string(b: Vec<u8>) -> (r: Result<String, String>)
    ensures
        r is Ok <==> vstd::utf8::valid_utf8(b@),
        r matches Ok(s) ==> s@ == vstd::utf8::decode_utf8(b@),
        r matches Err(m) ==> m@ == utf8_error_text(b@),
{
    match String::from_utf8(b) {
        Ok(s) => Ok(s),
        Err(e) => Err(e.to_string()),
    }
}

/// What `str::to_lowercase` gives for `s`: its Unicode lowercase mapping.
pub uninterp spec fn unicode_lower(s: Seq<char>) -> Seq<char>;

/// `str::to_lowercase`: the Unicode lowercase mapping, which for ASCII text
/// is the ASCII one (`A`-`Z` to `a`-`z`, every other character kept).
#[verifier::external_body]
pub(crate) fn to_lowercase(s: &str) -> (r: String)
    ensures
        r@ == unicode_lower(s@),
        (forall|i: int| 0 <= i < s@.len() ==> (s@[i] as u32) < 128) ==> r@ == ascii_lower_seq(s@),
{
    s.to_lowercase()
}

/// The UTF-8 bytes of a string (`str::as_bytes`, copied).
pub fn utf8_bytes(s: &str) -> (r: Vec<u8>)
    ensures
        r@ == vstd::utf8::encode_utf8(s@),
{
    let b = s.as_bytes();
    let mut out: Vec<u8> = Vec::new();
    let mut i: usize = 0;
    while i < b.len()
        invariant
            i <= b@.len(),
            out@ == b@.take(i as int),
        decreases b.len() - i,
    {
        out.push(b[i]);
        assert(out@ =~= b@.take(i + 1));
        i = i + 1;
    }
    assert(b@.take(b.len() as int) =~= b@);
    out
}

/// ASCII uppercase of one character.
pub open spec fn ascii_upper(c: char) -> char {
    if 'a' <= c && c <= 'z' {
        ((c as int) - 32) as char
    } else {
        c
    }
}

/// ASCII uppercase mapping of a whole string.
pub open spec fn ascii_upper_seq(s: Seq<char>) -> Seq<char> {
    Seq::new(s.len(), |i: int| ascii_upper(s[i]))
}

/// ASCII lowercase of a character buffer (`to_ascii_lowercase`).
pub fn ascii_lower_chars(a: &[char]) -> (r: Vec<char>)
    ensures
        r@ == ascii_lower_seq(a@),
{
    let mut out: Vec<char> = Vec::new();
    let mut i: usize = 0;
    while i < a.len()
        invariant
            i <= a.len(),
            out@ == ascii_lower_seq(a@).take(i as int),
        decreases a.len() - i,
    {
        let c = a[i];
        let l = if 'A' <= c && c <= 'Z' {
            ((c as u8) + 32u8) as char
        } else {
            c
        };
        assert(l == ascii_lower(c));
        out.push(l);
        assert(out@ =~= ascii_lower_seq(a@).take(i + 1));
        i = i + 1;
    }
    assert(out@ =~= ascii_lower_seq(a@));
    out
}

/// ASCII uppercase of a character buffer (`to_ascii_uppercase`).
pub fn ascii_upper_chars(a: &[char]) -> (r: Vec<char>)
    ensures
        r@ == ascii_upper_seq(a@),
{
    let mut out: Vec<char> = Vec::new();
    let mut i: usize = 0;
    while i < a.len()
        invariant
            i <= a.len(),
            out@ == ascii_upper_seq(a@).take(i as int),
        decreases a.len() - i,
    {
        let c = a[i];
        let u = if 'a' <= c && c <= 'z' {
            ((c as u8) - 32u8) as char
        } else {
            c
        };
        assert(u == ascii_upper(c));
        out.push(u);
        assert(out@ =~= ascii_upper_seq(a@).take(i + 1));
        i = i + 1;
    }
    assert(out@ =~= ascii_upper_seq(a@));
    out
}

/// Equality of two strings with ASCII letters compared case-insensitively
/// (`str::eq_ignore_ascii_case`).
pub fn eq_ignore_ascii_case(a: &str, b: &str) -> (r: bool)
    ensures
        r == (ascii_lower_seq(a@) == ascii_lower_seq(b@)),
{
    let x = chars_of(a);
    let y = chars_of(b);
    let lx = ascii_lower_chars(x.as_slice());
    let ly = ascii_lower_chars(y.as_slice());
    chars_eq(lx.as_slice(), ly.as_slice())
}

/// Joins the strings with `sep` between them (`[String]::join`).
pub fn join_with(pieces: &[String], sep: &str) -> (r: String)
    ensures
        r@ == join(Seq::new(pieces@.len(), |i: int| pieces@[i]@), sep@),
{
    let ghost ps = Seq::new(pieces@.len(), |i: int| pieces@[i]@);
    let mut v: Vec<char> = Vec::new();
    let mut i: usize = 0;
    while i < pieces.len()
        invariant
            i <= pieces.len(),
            ps == Seq::new(pieces@.len(), |k: int| pieces@[k]@),
            v@ == join(ps.take(i as int), sep@),
        decreases pieces.len() - i,
    {
        assert(ps.take(i + 1).drop_last() =~= ps.take(i as int));
        if i > 0 {
            extend_str(&mut v, sep);
        }
        extend_str(&mut v, pieces[i].as_str());
        proof {
            if i == 0 {
                assert(v@ =~= join(ps.take(1), sep@));
            } else {
                assert(v@ =~= join(ps.take(i + 1), sep@));
            }
        }
        i = i + 1;
    }
    assert(ps.take(pieces.len() as int) =~= ps);
    string_of(v.as_slice())
}

/// A decimal numeral is a non-empty run of digits.
pub proof fn lemma_decimal_digits(n: nat)
    ensures
        decimal(n).len() >= 1,
        forall|i: int| 0 <= i < decimal(n).len() ==> is_digit(#[trigger] decimal(n)[i]),
    decreases n,
{
    if n >= 10 {
        lemma_decimal_digits(n / 10);
        assert forall|i: int| 0 <= i < decimal(n).len() implies is_digit(#[trigger] decimal(n)[i]) by {
            if i < decimal(n / 10).len() {
                assert(decimal(n)[i] == decimal(n / 10)[i]);
            }
        }
    }
}

/// Scanning one more digit extends the scanned value by it.
pub proof fn lemma_scan_digits_push(s: Seq<char>, c: char, acc: nat, max: nat)
    requires
        is_digit(c),
    ensures
        scan_digits(s.push(c), acc, max) == match scan_digits(s, acc, max) {
            Ok(v) => if v * 10 + digit_value(c) > max {
                Err(IntErrorKind::PosOverflow)
            } else {
                Ok((v * 10 + digit_value(c)) as nat)
            },
            Err(e) => Err(e),
        },
    decreases s.len(),
{
    reveal_with_fuel(scan_digits, 2);
    if s.len() == 0 {
        assert(s.push(c).drop_first() =~= Seq::<char>::empty());
        assert(s.push(c)[0] == c);
    } else {
        assert(s.push(c).drop_first() =~= s.drop_first().push(c));
        assert(s.push(c)[0] == s[0]);
        if is_digit(s[0]) && acc * 10 + digit_value(s[0]) <= max {
            lemma_scan_digits_push(s.drop_first(), c, (acc * 10 + digit_value(s[0])) as nat, max);
        }
    }
}

/// A decimal numeral reads back as its number.
pub proof fn lemma_parse_decimal(n: nat, max: nat)
    requires
        n <= max,
    ensures
        scan_digits(decimal(n), 0, max) == Ok::<nat, IntErrorKind>(n),
        parse_uint(decimal(n), max) == Ok::<nat, IntErrorKind>(n),
    decreases n,
{
    lemma_decimal_digits(n);
    reveal_with_fuel(scan_digits, 2);
    if n < 10 {
        assert(decimal(n) == seq![digit_char(n)]);
        assert(digit_value(digit_char(n)) == n);
        assert(decimal(n).drop_first() =~= Seq::<char>::empty());
        assert(is_digit(decimal(n)[0]));
    } else {
        lemma_parse_decimal(n / 10, max);
        assert(digit_value(digit_char(n % 10)) == n % 10);
        assert(is_digit(digit_char(n % 10)));
        lemma_scan_digits_push(decimal(n / 10), digit_char(n % 10), 0, max);
        assert((n / 10) * 10 + n % 10 == n);
    }
    assert(is_digit(decimal(n)[0]));
}

/// A text whose first and last characters are not whitespace trims to itself.
pub proof fn lemma_trim_unchanged(s: Seq<char>)
    requires
        s.len() > 0,
        !is_ws(s[0]),
        !is_ws(s.last()),
    ensures
        trim(s) == s,
{
    assert(trim_start(s) == s);
    assert(trim_end(s) == s);
}


/// The lines that hold more than whitespace, in order.
pub open spec fn nonblank(ls: Seq<Seq<char>>) -> Seq<Seq<char>>
    decreases ls.len(),
{
    if ls.len() == 0 {
        Seq::empty()
    } else if trim(ls.last()).len() > 0 {
        nonblank(ls.drop_last()).push(ls.last())
    } else {
        nonblank(ls.drop_last())
    }
}

/// The lines of `text` that hold more than whitespace, in order, as they
/// are (`str::lines` without the blank ones).
pub fn nonblank_lines(text: &str) -> (r: Vec<String>)
    ensures
        Seq::new(r@.len(), |i: int| r@[i]@) == nonblank(lines(text@)),
{
    let cs = chars_of(text);
    let ls = lines_chars(cs.as_slice());
    let ghost all = seqs_of(ls@);
    let mut out: Vec<String> = Vec::new();
    let mut i: usize = 0;
    assert(all.take(0) =~= Seq::<Seq<char>>::empty());
    assert(Seq::new(out@.len(), |k: int| out@[k]@) =~= Seq::<Seq<char>>::empty());
    while i < ls.len()
        invariant
            all == seqs_of(ls@),
            all == lines(text@),
            i <= ls.len(),
            Seq::new(out@.len(), |k: int| out@[k]@) == nonblank(all.take(i as int)),
        decreases ls.len() - i,
    {
        assert(all.take(i + 1).drop_last() =~= all.take(i as int));
        assert(all.take(i + 1).last() == ls@[i as int]@);
        let t = trim_chars(ls[i].as_slice());
        if t.len() > 0 {
            let ghost before = Seq::new(out@.len(), |k: int| out@[k]@);
            out.push(string_of(ls[i].as_slice()));
            assert(Seq::new(out@.len(), |k: int| out@[k]@) =~= before.push(ls@[i as int]@));
        }
        i = i + 1;
    }
    assert(all.take(ls.len() as int) =~= all);
    out
}

} // verus!
