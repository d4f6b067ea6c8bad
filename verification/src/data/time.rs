//! Compact duration text: `30s`, `5m`, `2h`, `1h30m5s`.
use vstd::prelude::*;

use crate::error::{Result, VeltrixError};
use crate::text::{
    chars_of, decimal, extend_str, is_digit, is_ws, lemma_decimal_digits, lemma_parse_decimal,
    lemma_trim_unchanged, parse_uint, parse_uint_chars, push_decimal, string_of, trim, trim_chars,
    digits_value, digit_value, scan_digits, lemma_scan_digits_push, IntErrorKind,
};

verus! {

/// A span of time: whole seconds plus a sub-second part in nanoseconds
/// (the value that `std::time::Duration` holds).
#[derive(Debug, Clone, Copy, PartialEq, Eq, Structural, PartialOrd, Ord)]
pub struct Duration {
    secs: u64,
    nanos: u32,
}

impl Duration {
    /// Whole seconds.
    pub closed spec fn secs_spec(&self) -> nat {
        self.secs as nat
    }

    /// Sub-second nanoseconds.
    pub closed spec fn nanos_spec(&self) -> nat {
        self.nanos as nat
    }

    /// Validity: the sub-second part is below one second.
    pub closed spec fn wf(&self) -> bool {
        self.nanos < 1_000_000_000
    }

    /// A duration of whole seconds.
    pub fn from_secs(secs: u64) -> (d: Self)
        ensures
            d.secs_spec() == secs,
            d.nanos_spec() == 0,
            d.wf(),
    {
        Duration { secs, nanos: 0 }
    }

    /// A duration of `secs` seconds and `nanos` nanoseconds; whole seconds
    /// in `nanos` carry over into the seconds (`Duration::new`).
    pub fn new(secs: u64, nanos: u32) -> (d: Self)
        requires
            secs + nanos / 1_000_000_000 <= u64::MAX,
        ensures
            d.secs_spec() == secs + nanos / 1_000_000_000,
            d.nanos_spec() == nanos % 1_000_000_000,
            d.wf(),
    {
        let extra = (nanos / 1_000_000_000) as u64;
        Duration { secs: secs + extra, nanos: nanos % 1_000_000_000 }
    }

    /// Whole seconds.
    pub fn as_secs(&self) -> (s: u64)
        ensures
            s == self.secs_spec(),
    {
        self.secs
    }

    /// Sub-second nanoseconds.
    pub fn subsec_nanos(&self) -> (n: u32)
        ensures
            n == self.nanos_spec(),
    {
        self.nanos
    }
}

/// The compact text for a number of seconds: hours, minutes and seconds,
/// leaving out zero parts except that a nonzero hour count followed by a
/// nonzero second count keeps `0m` between them, and zero is `0s`.
pub open spec fn format_duration_spec(total: nat) -> Seq<char> {
    let h = total / 3600;
    let m = (total % 3600) / 60;
    let s = total % 60;
    if h == 0 && m == 0 {
        decimal(s) + "s"@
    } else if h == 0 && s == 0 {
        decimal(m) + "m"@
    } else if h == 0 {
        decimal(m) + "m"@ + decimal(s) + "s"@
    } else if m == 0 && s == 0 {
        decimal(h) + "h"@
    } else if s == 0 {
        decimal(h) + "h"@ + decimal(m) + "m"@
    } else {
        decimal(h) + "h"@ + decimal(m) + "m"@ + decimal(s) + "s"@
    }
}

/// Format a duration as compact `1h2m3s` text.
pub fn format_duration(duration: Duration) -> (out: String)
    ensures
        out@ == format_duration_spec(duration.secs_spec()),
{
    let seconds = duration.as_secs();
    let hours = seconds / 3600;
    let minutes = (seconds % 3600) / 60;
    let secs = seconds % 60;
    let mut v: Vec<char> = Vec::new();
    if hours == 0 && minutes == 0 {
        push_decimal(&mut v, secs);
        extend_str(&mut v, "s");
    } else if hours == 0 && secs == 0 {
        push_decimal(&mut v, minutes);
        extend_str(&mut v, "m");
    } else if hours == 0 {
        push_decimal(&mut v, minutes);
        extend_str(&mut v, "m");
        push_decimal(&mut v, secs);
        extend_str(&mut v, "s");
    } else if minutes == 0 && secs == 0 {
        push_decimal(&mut v, hours);
        extend_str(&mut v, "h");
    } else if secs == 0 {
        push_decimal(&mut v, hours);
        extend_str(&mut v, "h");
        push_decimal(&mut v, minutes);
        extend_str(&mut v, "m");
    } else {
        push_decimal(&mut v, hours);
        extend_str(&mut v, "h");
        push_decimal(&mut v, minutes);
        extend_str(&mut v, "m");
        push_decimal(&mut v, secs);
        extend_str(&mut v, "s");
    }
    assert(v@ =~= format_duration_spec(duration.secs_spec()));
    string_of(v.as_slice())
}

/// Seconds per duration unit character, if it is one.
pub open spec fn unit_seconds(c: char) -> Option<nat> {
    if c == 's' {
        Some(1)
    } else if c == 'm' {
        Some(60)
    } else if c == 'h' {
        Some(3600)
    } else if c == 'd' {
        Some(86_400)
    } else {
        None
    }
}

/// State of the left-to-right duration scan.
pub struct DurationScan {
    /// Seconds accumulated so far.
    pub total: int,
    /// Digits read since the last unit.
    pub number: Seq<char>,
    /// The error message, once the scan has failed.
    pub failed: Option<Seq<char>>,
    /// Some step's arithmetic went past `u64::MAX`.
    pub overflow: bool,
}

/// One step of the duration scan.
pub open spec fn duration_step(st: DurationScan, c: char) -> DurationScan {
    if st.failed is Some {
        st
    } else if is_digit(c) {
        DurationScan { number: st.number.push(c), ..st }
    } else {
        match parse_uint(st.number, u64::MAX as nat) {
            Err(_) => DurationScan {
                failed: Some("missing amount before `"@ + seq![c] + "`"@),
                ..st
            },
            Ok(amount) => match unit_seconds(c) {
                None => DurationScan {
                    number: Seq::empty(),
                    failed: Some("unsupported duration unit: "@ + seq![c]),
                    ..st
                },
                Some(mult) => DurationScan {
                    total: st.total + amount * mult,
                    number: Seq::empty(),
                    failed: None,
                    overflow: st.overflow || amount * mult > u64::MAX || st.total + amount * mult
                        > u64::MAX,
                },
            },
        }
    }
}

/// The duration scan over all of `s`.
pub open spec fn duration_scan(s: Seq<char>) -> DurationScan
    decreases s.len(),
{
    if s.len() == 0 {
        DurationScan { total: 0, number: Seq::empty(), failed: None, overflow: false }
    } else {
        duration_step(duration_scan(s.drop_last()), s.last())
    }
}

/// What `parse_duration` gives for `text`: the total seconds, or the message
/// of the validation error on field `duration`.
pub open spec fn parse_duration_spec(text: Seq<char>) -> std::result::Result<nat, Seq<char>> {
    let t = trim(text);
    if t.len() == 0 {
        Err("duration must not be empty"@)
    } else {
        let st = duration_scan(t);
        match st.failed {
            Some(msg) => Err(msg),
            None => if st.number.len() > 0 {
                Err("duration is missing a unit"@)
            } else {
                Ok(st.total as nat)
            },
        }
    }
}

/// The arithmetic of parsing `text` stays within `u64`.
pub open spec fn duration_fits(text: Seq<char>) -> bool {
    !duration_scan(trim(text)).overflow
}

proof fn lemma_scan_overflow_persists(s: Seq<char>, i: int)
    requires
        0 <= i <= s.len(),
        duration_scan(s.take(i)).overflow,
    ensures
        duration_scan(s).overflow,
    decreases s.len() - i,
{
    if i < s.len() {
        assert(s.take(i + 1).drop_last() =~= s.take(i));
        lemma_scan_overflow_persists(s, i + 1);
    } else {
        assert(s.take(i) =~= s);
    }
}

proof fn lemma_scan_total_bounded(s: Seq<char>, i: int)
    requires
        0 <= i <= s.len(),
        !duration_scan(s).overflow,
    ensures
        !duration_scan(s.take(i)).overflow,
        0 <= duration_scan(s.take(i)).total <= u64::MAX,
    decreases i,
{
    if duration_scan(s.take(i)).overflow {
        lemma_scan_overflow_persists(s, i);
    }
    if i > 0 {
        lemma_scan_total_bounded(s, i - 1);
        assert(s.take(i).drop_last() =~= s.take(i - 1));
    }
}

fn missing_amount_message(c: char) -> (m: String)
    ensures
        m@ == "missing amount before `"@ + seq![c] + "`"@,
{
    let mut v: Vec<char> = Vec::new();
    extend_str(&mut v, "missing amount before `");
    v.push(c);
    extend_str(&mut v, "`");
    assert(v@ =~= "missing amount before `"@ + seq![c] + "`"@);
    string_of(v.as_slice())
}

fn unsupported_unit_message(c: char) -> (m: String)
    ensures
        m@ == "unsupported duration unit: "@ + seq![c],
{
    let mut v: Vec<char> = Vec::new();
    extend_str(&mut v, "unsupported duration unit: ");
    v.push(c);
    string_of(v.as_slice())
}

/// Parse a compact duration such as `30s`, `5m`, `2h`, or `1h30m5s`.
///
/// Leading and trailing whitespace is ignored; each number is followed by a
/// unit (`s`, `m`, `h`, `d`) and the amounts are summed.
pub fn parse_duration(value: &str) -> (r: Result<Duration>)
    requires
        duration_fits(value@),
    ensures
        match parse_duration_spec(value@) {
            Ok(total) => r matches Ok(d) && d.secs_spec() == total && d.nanos_spec() == 0,
            Err(msg) => r matches Err(VeltrixError::Validation { field, reason }) && field@
                == "duration"@ && reason@ == msg,
        },
{
    let all = chars_of(value);
    let t = trim_chars(all.as_slice());
    if t.len() == 0 {
        return Err(VeltrixError::validation("duration", "duration must not be empty"));
    }
    let mut total: u64 = 0;
    let mut number: Vec<char> = Vec::new();
    let mut i: usize = 0;
    assert(t@.take(0) =~= Seq::<char>::empty());
    while i < t.len()
        invariant
            t@ == trim(value@),
            !duration_scan(t@).overflow,
            i <= t.len(),
            duration_scan(t@.take(i as int)).failed is None,
            duration_scan(t@.take(i as int)).total == total as int,
            duration_scan(t@.take(i as int)).number == number@,
            forall|j: int| 0 <= j < number@.len() ==> is_digit(number@[j]),
        decreases t.len() - i,
    {
        let ch = t[i];
        let ghost pre = t@.take(i as int);
        assert(t@.take(i + 1).drop_last() =~= pre);
        assert(t@.take(i + 1).last() == ch);
        proof {
            lemma_scan_total_bounded(t@, i + 1);
        }
        if '0' <= ch && ch <= '9' {
            number.push(ch);
            i = i + 1;
            continue;
        }
        let amount = match parse_uint_chars(number.as_slice(), u64::MAX) {
            Ok(a) => a,
            Err(_) => {
                let msg = missing_amount_message(ch);
                proof {
                    assert(duration_scan(t@.take(i + 1)).failed == Some(msg@));
                    lemma_failed_persists(t@, i as int + 1);
                }
                return Err(VeltrixError::validation("duration", msg.as_str()));
            },
        };
        let mult: u64 = if ch == 's' {
            1
        } else if ch == 'm' {
            60
        } else if ch == 'h' {
            3600
        } else if ch == 'd' {
            86_400
        } else {
            let msg = unsupported_unit_message(ch);
            proof {
                assert(duration_scan(t@.take(i + 1)).failed == Some(msg@));
                lemma_failed_persists(t@, i as int + 1);
            }
            return Err(VeltrixError::validation("duration", msg.as_str()));
        };
        assert(amount * mult <= u64::MAX);
        total = total + amount * mult;
        number = Vec::new();
        i = i + 1;
    }
    assert(t@.take(t@.len() as int) =~= t@);
    if number.len() > 0 {
        return Err(VeltrixError::validation("duration", "duration is missing a unit"));
    }
    Ok(Duration::from_secs(total))
}

proof fn lemma_failed_persists(s: Seq<char>, i: int)
    requires
        0 <= i <= s.len(),
        duration_scan(s.take(i)).failed is Some,
    ensures
        duration_scan(s).failed == duration_scan(s.take(i)).failed,
    decreases s.len() - i,
{
    if i < s.len() {
        assert(s.take(i + 1).drop_last() =~= s.take(i));
        lemma_failed_persists(s, i + 1);
    } else {
        assert(s.take(i) =~= s);
    }
}

/// Return a duration's total whole seconds.
pub fn seconds(duration: Duration) -> (s: u64)
    ensures
        s == duration.secs_spec(),
{
    duration.as_secs()
}

/// The duration scan of `s` continued from the state `st`.
pub open spec fn scan_from(st: DurationScan, s: Seq<char>) -> DurationScan
    decreases s.len(),
{
    if s.len() == 0 {
        st
    } else {
        duration_step(scan_from(st, s.drop_last()), s.last())
    }
}

proof fn lemma_scan_from_concat(st: DurationScan, a: Seq<char>, b: Seq<char>)
    ensures
        scan_from(st, a + b) == scan_from(scan_from(st, a), b),
    decreases b.len(),
{
    if b.len() == 0 {
        assert(a + b =~= a);
    } else {
        assert((a + b).drop_last() =~= a + b.drop_last());
        lemma_scan_from_concat(st, a, b.drop_last());
    }
}

proof fn lemma_scan_is_scan_from(s: Seq<char>)
    ensures
        duration_scan(s) == scan_from(
            DurationScan { total: 0, number: Seq::empty(), failed: None, overflow: false },
            s,
        ),
    decreases s.len(),
{
    if s.len() > 0 {
        lemma_scan_is_scan_from(s.drop_last());
    }
}

proof fn lemma_scan_digits_run(st: DurationScan, d: Seq<char>)
    requires
        st.failed is None,
        forall|i: int| 0 <= i < d.len() ==> is_digit(#[trigger] d[i]),
    ensures
        scan_from(st, d) == (DurationScan { number: st.number + d, ..st }),
    decreases d.len(),
{
    if d.len() == 0 {
        assert(st.number + d =~= st.number);
    } else {
        lemma_scan_digits_run(st, d.drop_last());
        assert(is_digit(d[d.len() - 1]));
        assert((st.number + d.drop_last()).push(d.last()) =~= st.number + d);
    }
}

/// Scanning `<k><unit>` from a state between parts adds `k` units to the
/// total.
proof fn lemma_scan_part(st: DurationScan, k: nat, u: char, mult: nat)
    requires
        st.failed is None,
        st.number == Seq::<char>::empty(),
        k <= u64::MAX,
        unit_seconds(u) == Some(mult),
    ensures
        scan_from(st, decimal(k) + seq![u]) == (DurationScan {
            total: st.total + k * mult,
            number: Seq::empty(),
            failed: None,
            overflow: st.overflow || k * mult > u64::MAX || st.total + k * mult > u64::MAX,
        }),
{
    lemma_decimal_digits(k);
    lemma_parse_decimal(k, u64::MAX as nat);
    lemma_scan_digits_run(st, decimal(k));
    lemma_scan_from_concat(st, decimal(k), seq![u]);
    assert(st.number + decimal(k) =~= decimal(k));
    assert(seq![u].drop_last() =~= Seq::<char>::empty());
    assert(seq![u].last() == u);
    assert(!is_digit(u));
    reveal_with_fuel(scan_from, 2);
    let mid = DurationScan { number: decimal(k), ..st };
    assert(scan_from(st, decimal(k)) == mid);
    assert(scan_from(mid, seq![u]) == duration_step(mid, u));
}

/// Formatting a whole number of seconds and parsing the text back gives the
/// same number, and parsing it stays within `u64`.
pub proof fn format_then_parse_round_trip(n: nat)
    requires
        n <= u64::MAX,
    ensures
        duration_fits(format_duration_spec(n)),
        parse_duration_spec(format_duration_spec(n)) == Ok::<nat, Seq<char>>(n),
{
    let h = n / 3600;
    let m = (n % 3600) / 60;
    let s = n % 60;
    assert(h * 3600 + m * 60 + s == n) by (nonlinear_arith)
        requires
            h == n / 3600,
            m == (n % 3600) / 60,
            s == n % 60,
    {
    }
    assert(h * 3600 <= n && m * 60 <= n && s <= n) by (nonlinear_arith)
        requires
            h * 3600 + m * 60 + s == n,
            h >= 0,
            m >= 0,
            s >= 0,
    {
    }
    reveal_strlit("h");
    reveal_strlit("m");
    reveal_strlit("s");
    let init = DurationScan { total: 0, number: Seq::empty(), failed: None, overflow: false };
    let text = format_duration_spec(n);
    lemma_decimal_digits(h);
    lemma_decimal_digits(m);
    lemma_decimal_digits(s);
    let ph = decimal(h) + seq!['h'];
    let pm = decimal(m) + seq!['m'];
    let ps = decimal(s) + seq!['s'];
    lemma_scan_part(init, h, 'h', 3600);
    let after_h = scan_from(init, ph);
    lemma_scan_part(init, m, 'm', 60);
    lemma_scan_part(init, s, 's', 1);
    lemma_scan_part(after_h, m, 'm', 60);
    let after_hm = scan_from(after_h, pm);
    lemma_scan_part(after_h, s, 's', 1);
    lemma_scan_part(after_hm, s, 's', 1);
    let after_m = scan_from(init, pm);
    lemma_scan_part(after_m, s, 's', 1);
    lemma_scan_from_concat(init, ph, pm);
    lemma_scan_from_concat(init, ph + pm, ps);
    lemma_scan_from_concat(init, ph, ps);
    lemma_scan_from_concat(init, pm, ps);
    assert("h"@ =~= seq!['h']);
    assert("m"@ =~= seq!['m']);
    assert("s"@ =~= seq!['s']);
    if h == 0 && m == 0 {
        assert(text =~= ps);
    } else if h == 0 && s == 0 {
        assert(text =~= pm);
    } else if h == 0 {
        assert(text =~= pm + ps);
    } else if m == 0 && s == 0 {
        assert(text =~= ph);
    } else if s == 0 {
        assert(text =~= ph + pm);
    } else {
        assert(text =~= ph + pm + ps);
    }
    lemma_scan_is_scan_from(text);
    assert(text.len() > 0 && is_digit(text[0]) && !is_ws(text[0]));
    assert(!is_ws(text.last()));
    lemma_trim_unchanged(text);
}

/// A duration made from seconds and nanoseconds keeps their total: the
/// seconds carried out of the nanoseconds make up for what they lose.
pub proof fn new_keeps_total(secs: u64, nanos: u32, d: Duration)
    requires
        d.secs_spec() == secs + nanos / 1_000_000_000,
        d.nanos_spec() == nanos % 1_000_000_000,
    ensures
        d.secs_spec() * 1_000_000_000 + d.nanos_spec() == secs * 1_000_000_000 + nanos,
        d.nanos_spec() < 1_000_000_000,
{
    assert((nanos / 1_000_000_000) * 1_000_000_000 + nanos % 1_000_000_000 == nanos) by (nonlinear_arith);
    assert((secs + nanos / 1_000_000_000) * 1_000_000_000 == secs * 1_000_000_000 + (nanos
        / 1_000_000_000) * 1_000_000_000) by (nonlinear_arith);
}


/// The number of decimal digits that `s` ends with.
pub open spec fn trailing_digits(s: Seq<char>) -> nat
    decreases s.len(),
{
    if s.len() > 0 && is_digit(s.last()) {
        trailing_digits(s.drop_last()) + 1
    } else {
        0
    }
}

/// The trailing digits of a text are digits, and preceded by a non-digit.
pub proof fn lemma_trailing_digits(s: Seq<char>)
    ensures
        trailing_digits(s) <= s.len(),
        forall|i: int| s.len() - trailing_digits(s) <= i < s.len() ==> is_digit(#[trigger] s[i]),
        trailing_digits(s) < s.len() ==> !is_digit(s[s.len() - trailing_digits(s) - 1]),
    decreases s.len(),
{
    if s.len() > 0 && is_digit(s.last()) {
        lemma_trailing_digits(s.drop_last());
        assert forall|i: int| s.len() - trailing_digits(s) <= i < s.len() implies is_digit(
            #[trigger] s[i],
        ) by {
            if i < s.len() - 1 {
                assert(s[i] == s.drop_last()[i]);
            }
        }
        if trailing_digits(s) < s.len() {
            assert(s[s.len() - trailing_digits(s) - 1] == s.drop_last()[s.drop_last().len()
                - trailing_digits(s.drop_last()) - 1]);
        }
    }
}

/// The seconds that `t` spells when it is a run of pieces, each one or more
/// decimal digits followed by a unit (`s` 1, `m` 60, `h` 3600, `d` 86400):
/// the sum over the pieces of amount times unit. `None` when `t` is not such
/// a run (the empty text is the empty run).
pub open spec fn pattern_total(t: Seq<char>) -> Option<nat>
    decreases t.len(),
{
    if t.len() == 0 {
        Some(0)
    } else {
        let body = t.drop_last();
        let k = trailing_digits(body);
        proof {
            lemma_trailing_digits(body);
        }
        match unit_seconds(t.last()) {
            Some(w) => if k > 0 {
                match pattern_total(body.take(body.len() - k)) {
                    Some(sum) => Some(sum + digits_value(body.skip(body.len() - k)) * w),
                    None => None,
                }
            } else {
                None
            },
            None => None,
        }
    }
}

/// Every piece's amount of a run of pieces (see [`pattern_total`]) fits in
/// `u64`.
pub open spec fn amounts_fit(t: Seq<char>) -> bool
    decreases t.len(),
{
    if t.len() == 0 {
        true
    } else {
        let body = t.drop_last();
        let k = trailing_digits(body);
        proof {
            lemma_trailing_digits(body);
        }
        if unit_seconds(t.last()) is Some && k > 0 {
            digits_value(body.skip(body.len() - k)) <= u64::MAX && amounts_fit(
                body.take(body.len() - k),
            )
        } else {
            true
        }
    }
}

proof fn lemma_digits_scan(s: Seq<char>, max: nat)
    requires
        forall|i: int| 0 <= i < s.len() ==> is_digit(#[trigger] s[i]),
    ensures
        scan_digits(s, 0, max) == (if digits_value(s) <= max {
            Ok::<nat, IntErrorKind>(digits_value(s))
        } else {
            Err::<nat, IntErrorKind>(IntErrorKind::PosOverflow)
        }),
    decreases s.len(),
{
    if s.len() > 0 {
        let c = s.last();
        assert(s.drop_last().push(c) =~= s);
        assert forall|i: int| 0 <= i < s.drop_last().len() implies is_digit(
            #[trigger] s.drop_last()[i],
        ) by {
            assert(s.drop_last()[i] == s[i]);
        }
        lemma_digits_scan(s.drop_last(), max);
        lemma_scan_digits_push(s.drop_last(), c, 0, max);
        assert(digits_value(s) == digits_value(s.drop_last()) * 10 + digit_value(c));
    }
}

proof fn lemma_digits_parse(s: Seq<char>)
    requires
        s.len() > 0,
        forall|i: int| 0 <= i < s.len() ==> is_digit(#[trigger] s[i]),
    ensures
        parse_uint(s, u64::MAX as nat) == (if digits_value(s) <= u64::MAX {
            Ok::<nat, IntErrorKind>(digits_value(s))
        } else {
            Err::<nat, IntErrorKind>(IntErrorKind::PosOverflow)
        }),
{
    assert(is_digit(s[0]));
    lemma_digits_scan(s, u64::MAX as nat);
}

proof fn lemma_scan_pattern(s: Seq<char>)
    requires
        !duration_scan(s).overflow,
    ensures
        duration_scan(s).failed is None ==> duration_scan(s).number == s.skip(
            s.len() - trailing_digits(s),
        ) && duration_scan(s).total >= 0 && pattern_total(s.take(s.len() - trailing_digits(s)))
            == Some(duration_scan(s).total as nat),
        (pattern_total(s.take(s.len() - trailing_digits(s))) is Some && amounts_fit(
            s.take(s.len() - trailing_digits(s)),
        )) ==> duration_scan(s).failed is None,
    decreases s.len(),
{
    lemma_trailing_digits(s);
    if s.len() == 0 {
        assert(s.skip(0) =~= s);
        assert(s.take(0) =~= s);
    } else {
        let s1 = s.drop_last();
        let c = s.last();
        if duration_scan(s1).overflow {
            assert(s.take(s.len() - 1) =~= s1);
            lemma_scan_overflow_persists(s, s.len() - 1);
        }
        lemma_scan_pattern(s1);
        lemma_trailing_digits(s1);
        let k1 = trailing_digits(s1);
        if is_digit(c) {
            assert(s.take(s.len() - trailing_digits(s)) =~= s1.take(s1.len() - k1));
            assert(s.skip(s.len() - trailing_digits(s)) =~= s1.skip(s1.len() - k1).push(c));
        } else {
            assert(trailing_digits(s) == 0);
            assert(s.take(s.len() as int) =~= s);
            assert(s.skip(s.len() as int) =~= Seq::<char>::empty());
            assert(s.drop_last() == s1);
            let num = s1.skip(s1.len() - k1);
            if duration_scan(s1).failed is None {
                if k1 > 0 {
                    assert forall|i: int| 0 <= i < num.len() implies is_digit(#[trigger] num[i]) by {
                        assert(num[i] == s1[s1.len() - k1 + i]);
                    }
                    lemma_digits_parse(num);
                } else {
                    assert(num.len() == 0);
                }
            }
        }
    }
}

/// A text parses as a duration exactly when, trimmed, it is a non-empty run
/// of pieces `[0-9]+[smhd]` whose amounts fit in `u64`, and then it gives
/// the sum of each amount times its unit's seconds (`s` 1, `m` 60, `h` 3600,
/// `d` 86400). This holds where the sum stays within `u64`.
pub proof fn parse_duration_follows_the_pattern(value: Seq<char>)
    requires
        duration_fits(value),
    ensures
        parse_duration_spec(value) is Ok ==> trim(value).len() > 0 && pattern_total(trim(value))
            is Some && amounts_fit(trim(value)),
        parse_duration_spec(value) matches Ok(n) ==> pattern_total(trim(value)) == Some(n),
        (trim(value).len() > 0 && pattern_total(trim(value)) is Some && amounts_fit(trim(value)))
            ==> parse_duration_spec(value) is Ok,
{
    let t = trim(value);
    lemma_scan_pattern(t);
    lemma_trailing_digits(t);
    if t.len() > 0 {
        if parse_duration_spec(value) is Ok {
            assert(t.skip(t.len() - trailing_digits(t)).len() == trailing_digits(t));
            assert(trailing_digits(t) == 0);
            assert(t.take(t.len() as int) =~= t);
            lemma_scan_amounts_fit(t);
        }
        if pattern_total(t) is Some {
            assert(unit_seconds(t.last()) is Some);
            assert(!is_digit(t.last()));
            assert(trailing_digits(t) == 0);
            assert(t.take(t.len() as int) =~= t);
            assert(t.skip(t.len() as int) =~= Seq::<char>::empty());
        }
    }
}

proof fn lemma_scan_amounts_fit(s: Seq<char>)
    requires
        !duration_scan(s).overflow,
        duration_scan(s).failed is None,
    ensures
        amounts_fit(s.take(s.len() - trailing_digits(s))),
    decreases s.len(),
{
    lemma_trailing_digits(s);
    if s.len() == 0 {
        assert(s.take(0) =~= s);
    } else {
        let s1 = s.drop_last();
        let c = s.last();
        if duration_scan(s1).overflow {
            assert(s.take(s.len() - 1) =~= s1);
            lemma_scan_overflow_persists(s, s.len() - 1);
        }
        lemma_scan_pattern(s1);
        lemma_trailing_digits(s1);
        let k1 = trailing_digits(s1);
        lemma_scan_amounts_fit(s1);
        if is_digit(c) {
            assert(s.take(s.len() - trailing_digits(s)) =~= s1.take(s1.len() - k1));
        } else {
            assert(s.take(s.len() as int) =~= s);
            let num = s1.skip(s1.len() - k1);
            if k1 > 0 {
                assert forall|i: int| 0 <= i < num.len() implies is_digit(#[trigger] num[i]) by {
                    assert(num[i] == s1[s1.len() - k1 + i]);
                }
                lemma_digits_parse(num);
            }
        }
    }
}

} // verus!
