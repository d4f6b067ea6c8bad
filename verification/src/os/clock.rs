//! Clock values read from the platform: the wall clock and the monotonic
//! clock, and decoding `/proc/uptime` text and `clock_gettime` results into
//! durations.
use vstd::prelude::*;

use crate::data::time::Duration;
use crate::error::{Result, VeltrixError};
use crate::text::{
    chars_of, digit_value, first_index, extend_chars, extend_str, int_error_message, int_error_text, is_digit,
    parse_uint, parse_uint_chars, scan_digits, seqs_of, slice_chars, split_whitespace_chars,
    string_of, words,
};

verus! {

/// Ten to the power `n`.
pub open spec fn pow10(n: nat) -> nat
    decreases n,
{
    if n == 0 {
        1
    } else {
        10 * pow10((n - 1) as nat)
    }
}

/// `n` zero digits.
pub open spec fn zeros(n: nat) -> Seq<char> {
    Seq::new(n, |i: int| '0')
}

/// The fraction digits of a seconds value, cut to nine characters and padded
/// with zeros to nine.
pub open spec fn padded_fraction(f: Seq<char>) -> Seq<char> {
    if f.len() >= 9 {
        f.take(9)
    } else {
        f + zeros((9 - f.len()) as nat)
    }
}

/// What `parse_seconds_duration` gives for `v`: whole seconds before the
/// first `.`, nanoseconds from up to nine digits after it; or the message of
/// the parse error.
pub open spec fn seconds_duration_spec(v: Seq<char>) -> std::result::Result<(nat, nat), Seq<char>> {
    let i = first_index(v, '.');
    let secs = v.take(i as int);
    let frac = if i < v.len() {
        v.skip(i + 1 as int)
    } else {
        Seq::empty()
    };
    match parse_uint(secs, u64::MAX as nat) {
        Err(k) => Err("invalid seconds value `"@ + v + "`: "@ + int_error_text(k)),
        Ok(s) => if frac.len() == 0 {
            Ok((s, 0))
        } else {
            match parse_uint(padded_fraction(frac), u32::MAX as nat) {
                Err(k) => Err("invalid fractional seconds value `"@ + v + "`: "@ + int_error_text(k)),
                Ok(n) => Ok((s, n)),
            }
        },
    }
}

proof fn lemma_scan_bound(s: Seq<char>, acc: nat, max: nat)
    requires
        scan_digits(s, acc, max) is Ok,
    ensures
        scan_digits(s, acc, max)->Ok_0 + 1 <= (acc + 1) * pow10(s.len()),
    decreases s.len(),
{
    if s.len() > 0 {
        let d = digit_value(s[0]);
        let a2 = acc * 10 + d;
        lemma_scan_bound(s.drop_first(), a2, max);
        let p = pow10((s.len() - 1) as nat);
        assert(pow10(s.len()) == 10 * p);
        assert(scan_digits(s, acc, max) == scan_digits(s.drop_first(), a2, max));
        assert(d <= 9);
        assert((a2 + 1) * p <= (acc + 1) * (10 * p)) by (nonlinear_arith)
            requires
                a2 == acc * 10 + d,
                d <= 9,
                p >= 0,
        {
        }
    } else {
        assert(pow10(0) == 1);
        assert((acc + 1) * 1 == acc + 1) by (nonlinear_arith);
    }
}

proof fn lemma_fraction_below_second(f: Seq<char>)
    requires
        f.len() > 0,
        parse_uint(padded_fraction(f), u32::MAX as nat) is Ok,
    ensures
        parse_uint(padded_fraction(f), u32::MAX as nat)->Ok_0 < 1_000_000_000,
{
    let p = padded_fraction(f);
    assert(p.len() == 9);
    assert(pow10(9) == 1_000_000_000) by {
        reveal_with_fuel(pow10, 10);
    }
    if p[0] == '+' {
        lemma_scan_bound(p.drop_first(), 0, u32::MAX as nat);
    } else {
        lemma_scan_bound(p, 0, u32::MAX as nat);
    }
}

fn error_with_value(prefix: &str, value: &[char], k: crate::text::IntErrorKind) -> (e: VeltrixError)
    ensures
        e matches VeltrixError::Parsing { reason } && reason@ == prefix@ + value@ + "`: "@
            + int_error_text(k),
{
    let mut v: Vec<char> = Vec::new();
    extend_str(&mut v, prefix);
    extend_chars(&mut v, value);
    extend_str(&mut v, "`: ");
    extend_str(&mut v, int_error_message(k));
    let m = string_of(v.as_slice());
    VeltrixError::parsing(m.as_str())
}

/// Parse a seconds value such as `12.345` (as found in `/proc/uptime`).
pub fn parse_seconds_duration(value: &str) -> (r: Result<Duration>)
    ensures
        match seconds_duration_spec(value@) {
            Ok((s, n)) => r matches Ok(d) && d.secs_spec() == s && d.nanos_spec() == n,
            Err(msg) => r matches Err(VeltrixError::Parsing { reason }) && reason@ == msg,
        },
{
    let v = chars_of(value);
    let mut i: usize = 0;
    assert(value@.skip(0) =~= value@);
    while i < v.len() && v[i] != '.'
        invariant
            v@ == value@,
            i <= v.len(),
            forall|j: int| 0 <= j < i ==> v@[j] != '.',
            first_index(value@, '.') == i + first_index(value@.skip(i as int), '.'),
        decreases v.len() - i,
    {
        assert(value@.skip(i as int).drop_first() =~= value@.skip(i + 1));
        i = i + 1;
    }
    proof {
        if i < v.len() {
            assert(value@.skip(i as int)[0] == '.');
        } else {
            assert(value@.skip(i as int).len() == 0);
        }
    }
    let secs_part = slice_chars(v.as_slice(), 0, i);
    let frac: Vec<char> = if i < v.len() {
        slice_chars(v.as_slice(), i + 1, v.len())
    } else {
        Vec::new()
    };
    assert(secs_part@ =~= value@.take(i as int));
    assert(i < v.len() ==> frac@ =~= value@.skip(i + 1));
    let seconds = match parse_uint_chars(secs_part.as_slice(), u64::MAX) {
        Ok(s) => s,
        Err(k) => {
            return Err(error_with_value("invalid seconds value `", v.as_slice(), k));
        },
    };
    let nanos: u32 = if frac.len() == 0 {
        0
    } else {
        let mut padded: Vec<char> = Vec::new();
        let mut j: usize = 0;
        while j < frac.len() && j < 9
            invariant
                j <= frac.len(),
                j <= 9,
                padded@ == frac@.take(j as int),
            decreases 9 - j,
        {
            padded.push(frac[j]);
            j = j + 1;
        }
        while padded.len() < 9
            invariant
                j <= frac.len(),
                j <= 9,
                j == frac.len() || j == 9,
                padded@.len() <= 9,
                padded@ == frac@.take(j as int) + zeros((padded@.len() - j) as nat),
            decreases 9 - padded.len(),
        {
            padded.push('0');
            assert(padded@ =~= frac@.take(j as int) + zeros((padded@.len() - j) as nat));
        }
        assert(padded@ =~= padded_fraction(frac@));
        match parse_uint_chars(padded.as_slice(), 4294967295u64) {
            Ok(n) => {
                proof {
                    lemma_fraction_below_second(frac@);
                }
                n as u32
            },
            Err(k) => {
                return Err(error_with_value("invalid fractional seconds value `", v.as_slice(), k));
            },
        }
    };
    assert(nanos < 1_000_000_000);
    Ok(Duration::new(seconds, nanos))
}

/// System uptime from the text of `/proc/uptime`: its first
/// whitespace-separated value, read by [`parse_seconds_duration`].
pub fn uptime_from_text(proc_uptime: &str) -> (r: Result<Duration>)
    ensures
        words(proc_uptime@).len() == 0 ==> (r matches Err(VeltrixError::Parsing { reason })
            && reason@ == "missing uptime value in /proc/uptime"@),
        words(proc_uptime@).len() > 0 ==> match seconds_duration_spec(words(proc_uptime@)[0]) {
            Ok((s, n)) => r matches Ok(d) && d.secs_spec() == s && d.nanos_spec() == n,
            Err(msg) => r matches Err(VeltrixError::Parsing { reason }) && reason@ == msg,
        },
{
    let cs = chars_of(proc_uptime);
    let ws = split_whitespace_chars(cs.as_slice());
    if ws.len() == 0 {
        return Err(VeltrixError::parsing("missing uptime value in /proc/uptime"));
    }
    assert(ws@[0]@ == words(proc_uptime@)[0]);
    let first = string_of(ws[0].as_slice());
    parse_seconds_duration(first.as_str())
}

fn clock_error(name: &str, what: &str) -> (e: VeltrixError)
    ensures
        e matches VeltrixError::Parsing { reason } && reason@ == name@ + what@,
{
    let mut v: Vec<char> = Vec::new();
    extend_str(&mut v, name);
    extend_str(&mut v, what);
    let m = string_of(v.as_slice());
    VeltrixError::parsing(m.as_str())
}

/// The duration a `clock_gettime` call reported for the clock `name`.
/// Negative seconds, and nanoseconds that are negative or beyond `u32`, are
/// errors; whole seconds in the nanoseconds carry over.
pub fn duration_from_timespec(tv_sec: i64, tv_nsec: i64, name: &str) -> (r: Result<Duration>)
    ensures
        tv_sec < 0 ==> (r matches Err(VeltrixError::Parsing { reason }) && reason@ == name@
            + " returned a negative seconds value"@),
        tv_sec >= 0 && (tv_nsec < 0 || tv_nsec > u32::MAX) ==> (r matches Err(
            VeltrixError::Parsing { reason },
        ) && reason@ == name@ + " returned an invalid nanoseconds value"@),
        tv_sec >= 0 && 0 <= tv_nsec <= u32::MAX ==> (r matches Ok(d) && d.secs_spec() == tv_sec
            + tv_nsec / 1_000_000_000 && d.nanos_spec() == tv_nsec % 1_000_000_000),
{
    if tv_sec < 0 {
        return Err(clock_error(name, " returned a negative seconds value"));
    }
    if tv_nsec < 0 || tv_nsec > 4294967295i64 {
        return Err(clock_error(name, " returned an invalid nanoseconds value"));
    }
    Ok(Duration::new(tv_sec as u64, tv_nsec as u32))
}

/// The system wall clock's time value.
#[verifier::external_type_specification]
#[verifier::external_body]
pub struct ExSystemTime(std::time::SystemTime);

/// A monotonic clock reading.
#[verifier::external_type_specification]
#[verifier::external_body]
pub struct ExInstant(std::time::Instant);

/// The current system wall-clock time (`SystemTime::now`).
#[verifier::external_body]
pub fn now() -> std::time::SystemTime {
    std::time::SystemTime::now()
}

/// The current monotonic instant (`Instant::now`).
#[verifier::external_body]
pub fn monotonic() -> std::time::Instant {
    std::time::Instant::now()
}

/// `Instant::elapsed`, as whole seconds and the sub-second nanoseconds,
/// which std documents as below one billion.
#[verifier::external_body]
fn elapsed_parts(instant: &std::time::Instant) -> (r: (u64, u32))
    ensures
        r.1 < 1_000_000_000,
{
    let e = instant.elapsed();
    (e.as_secs(), e.subsec_nanos())
}

/// The monotonic time elapsed since an earlier instant.
pub fn elapsed_since(instant: std::time::Instant) -> (d: Duration)
    ensures
        d.wf(),
{
    let (secs, nanos) = elapsed_parts(&instant);
    Duration::new(secs, nanos)
}

/// `SystemTime::duration_since(UNIX_EPOCH)` as whole seconds and
/// nanoseconds: after the epoch the distance since it, before it (the error
/// case) the distance to it. std documents the nanoseconds as below one
/// billion.
#[verifier::external_body]
fn since_unix_epoch(t: &std::time::SystemTime) -> (r: std::result::Result<(u64, u32), (u64, u32)>)
    ensures
        r matches Ok(p) ==> p.1 < 1_000_000_000,
        r matches Err(p) ==> p.1 < 1_000_000_000,
{
    match t.duration_since(std::time::UNIX_EPOCH) {
        Ok(d) => Ok((d.as_secs(), d.subsec_nanos())),
        Err(e) => Err((e.duration().as_secs(), e.duration().subsec_nanos())),
    }
}

/// The `Debug` text of a `std::time::Duration` of `secs` seconds and `nanos`
/// nanoseconds (such as `1.5s`).
pub uninterp spec fn duration_debug(secs: nat, nanos: nat) -> Seq<char>;

/// Formats a duration the way `{:?}` formats `std::time::Duration`.
#[verifier::external_body]
fn duration_debug_text(secs: u64, nanos: u32) -> (s: String)
    requires
        nanos < 1_000_000_000,
    ensures
        s@ == duration_debug(secs as nat, nanos as nat),
{
    format!("{:?}", std::time::Duration::new(secs, nanos))
}

/// The Unix timestamp for a wall-clock reading's distance from the epoch:
/// after the epoch, that distance; before it, a validation error naming how
/// far before.
pub fn timestamp_from_epoch_distance(since: std::result::Result<(u64, u32), (u64, u32)>) -> (r: Result<Duration>)
    requires
        since matches Ok(p) ==> p.1 < 1_000_000_000,
        since matches Err(p) ==> p.1 < 1_000_000_000,
    ensures
        since matches Ok(p) ==> (r matches Ok(d) && d.secs_spec() == p.0 && d.nanos_spec() == p.1 && d.wf()),
        since matches Err(p) ==> (r matches Err(VeltrixError::Validation { field, reason })
            && field@ == "system_time"@ && reason@ == "system clock is before Unix epoch by "@
            + duration_debug(p.0 as nat, p.1 as nat)),
{
    match since {
        Ok((secs, nanos)) => Ok(Duration::new(secs, nanos)),
        Err((secs, nanos)) => {
            let d = duration_debug_text(secs, nanos);
            let m = crate::text::concat2("system clock is before Unix epoch by ", d.as_str());
            Err(VeltrixError::validation("system_time", m.as_str()))
        },
    }
}

/// The current Unix timestamp as a duration since the epoch; a clock set
/// before the epoch is an error.
pub fn unix_timestamp() -> (r: Result<Duration>)
    ensures
        r matches Ok(d) ==> d.wf(),
        r matches Err(e) ==> e matches VeltrixError::Validation { field, .. } && field@
            == "system_time"@,
{
    let t = now();
    timestamp_from_epoch_distance(since_unix_epoch(&t))
}

} // verus!
