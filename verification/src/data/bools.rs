//! Words for boolean values, and the reverse check.
use vstd::prelude::*;

use crate::text::{ascii_lower, ascii_lower_seq, chars_eq_str, chars_of};

verus! {

/// `"yes"` or `"no"`.
pub fn yes_no(value: bool) -> (s: &'static str)
    ensures
        s@ == (if value { "yes"@ } else { "no"@ }),
{
    if value {
        "yes"
    } else {
        "no"
    }
}

/// `"on"` or `"off"`.
pub fn on_off(value: bool) -> (s: &'static str)
    ensures
        s@ == (if value { "on"@ } else { "off"@ }),
{
    if value {
        "on"
    } else {
        "off"
    }
}

/// `"enabled"` or `"disabled"`.
pub fn enabled_disabled(value: bool) -> (s: &'static str)
    ensures
        s@ == (if value { "enabled"@ } else { "disabled"@ }),
{
    if value {
        "enabled"
    } else {
        "disabled"
    }
}

/// `"true"` or `"false"`.
pub fn true_false(value: bool) -> (s: &'static str)
    ensures
        s@ == (if value { "true"@ } else { "false"@ }),
{
    if value {
        "true"
    } else {
        "false"
    }
}

/// `"active"` or `"inactive"`.
pub fn active_inactive(value: bool) -> (s: &'static str)
    ensures
        s@ == (if value { "active"@ } else { "inactive"@ }),
{
    if value {
        "active"
    } else {
        "inactive"
    }
}

/// `"up"` or `"down"`.
pub fn up_down(value: bool) -> (s: &'static str)
    ensures
        s@ == (if value { "up"@ } else { "down"@ }),
{
    if value {
        "up"
    } else {
        "down"
    }
}

/// `"open"` or `"closed"`.
pub fn open_closed(value: bool) -> (s: &'static str)
    ensures
        s@ == (if value { "open"@ } else { "closed"@ }),
{
    if value {
        "open"
    } else {
        "closed"
    }
}

/// `"connected"` or `"disconnected"`.
pub fn connected_disconnected(value: bool) -> (s: &'static str)
    ensures
        s@ == (if value { "connected"@ } else { "disconnected"@ }),
{
    if value {
        "connected"
    } else {
        "disconnected"
    }
}

/// `"pass"` or `"fail"`.
pub fn pass_fail(value: bool) -> (s: &'static str)
    ensures
        s@ == (if value { "pass"@ } else { "fail"@ }),
{
    if value {
        "pass"
    } else {
        "fail"
    }
}

/// The words that [`is_true`] accepts, in lowercase.
pub open spec fn truthy_word(w: Seq<char>) -> bool {
    ||| w == "true"@
    ||| w == "y"@
    ||| w == "yes"@
    ||| w == "on"@
    ||| w == "enabled"@
    ||| w == "active"@
    ||| w == "up"@
    ||| w == "open"@
    ||| w == "connected"@
    ||| w == "pass"@
}

/// Whether `string` is one of the truthy words, ignoring case.
///
/// The words are ASCII and contain no `k`, so lowercasing with the full
/// Unicode mapping and with the ASCII mapping accept the same strings: the
/// only non-ASCII character whose lowercase is an ASCII letter is the Kelvin
/// sign, which lowercases to `k`.
pub fn is_true(string: &str) -> (b: bool)
    ensures
        b == truthy_word(ascii_lower_seq(string@)),
{
    let cs = chars_of(string);
    let mut low: Vec<char> = Vec::new();
    let mut i: usize = 0;
    while i < cs.len()
        invariant
            cs@ == string@,
            i <= cs.len(),
            low@ == ascii_lower_seq(cs@).subrange(0, i as int),
        decreases cs.len() - i,
    {
        let c = cs[i];
        let l = if 'A' <= c && c <= 'Z' {
            ((c as u8) + 32u8) as char
        } else {
            c
        };
        assert(l == ascii_lower(c));
        low.push(l);
        assert(low@ =~= ascii_lower_seq(cs@).subrange(0, i + 1));
        i = i + 1;
    }
    assert(low@ =~= ascii_lower_seq(string@));
    let l = low.as_slice();
    chars_eq_str(l, "true") || chars_eq_str(l, "y") || chars_eq_str(l, "yes") || chars_eq_str(
        l,
        "on",
    ) || chars_eq_str(l, "enabled") || chars_eq_str(l, "active") || chars_eq_str(l, "up")
        || chars_eq_str(l, "open") || chars_eq_str(l, "connected") || chars_eq_str(l, "pass")
}

/// The word a formatter gives for `value`, read back through [`is_true`], is
/// `value`: each "true" word is truthy and each "false" word is not.
pub proof fn formatted_words_read_back(value: bool)
    ensures
        truthy_word(ascii_lower_seq(if value { "yes"@ } else { "no"@ })) == value,
        truthy_word(ascii_lower_seq(if value { "on"@ } else { "off"@ })) == value,
        truthy_word(ascii_lower_seq(if value { "enabled"@ } else { "disabled"@ })) == value,
        truthy_word(ascii_lower_seq(if value { "true"@ } else { "false"@ })) == value,
        truthy_word(ascii_lower_seq(if value { "active"@ } else { "inactive"@ })) == value,
        truthy_word(ascii_lower_seq(if value { "up"@ } else { "down"@ })) == value,
        truthy_word(ascii_lower_seq(if value { "open"@ } else { "closed"@ })) == value,
        truthy_word(ascii_lower_seq(if value { "connected"@ } else { "disconnected"@ })) == value,
        truthy_word(ascii_lower_seq(if value { "pass"@ } else { "fail"@ })) == value,
{
    reveal_strlit("yes");
    reveal_strlit("no");
    reveal_strlit("on");
    reveal_strlit("off");
    reveal_strlit("enabled");
    reveal_strlit("disabled");
    reveal_strlit("true");
    reveal_strlit("false");
    reveal_strlit("active");
    reveal_strlit("inactive");
    reveal_strlit("up");
    reveal_strlit("down");
    reveal_strlit("open");
    reveal_strlit("closed");
    reveal_strlit("connected");
    reveal_strlit("disconnected");
    reveal_strlit("pass");
    reveal_strlit("fail");
    reveal_strlit("y");
    assert(ascii_lower_seq("yes"@) =~= "yes"@);
    assert(ascii_lower_seq("no"@) =~= "no"@);
    assert(ascii_lower_seq("on"@) =~= "on"@);
    assert(ascii_lower_seq("off"@) =~= "off"@);
    assert(ascii_lower_seq("enabled"@) =~= "enabled"@);
    assert(ascii_lower_seq("disabled"@) =~= "disabled"@);
    assert(ascii_lower_seq("true"@) =~= "true"@);
    assert(ascii_lower_seq("false"@) =~= "false"@);
    assert(ascii_lower_seq("active"@) =~= "active"@);
    assert(ascii_lower_seq("inactive"@) =~= "inactive"@);
    assert(ascii_lower_seq("up"@) =~= "up"@);
    assert(ascii_lower_seq("down"@) =~= "down"@);
    assert(ascii_lower_seq("open"@) =~= "open"@);
    assert(ascii_lower_seq("closed"@) =~= "closed"@);
    assert(ascii_lower_seq("connected"@) =~= "connected"@);
    assert(ascii_lower_seq("disconnected"@) =~= "disconnected"@);
    assert(ascii_lower_seq("pass"@) =~= "pass"@);
    assert(ascii_lower_seq("fail"@) =~= "fail"@);
    assert("no"@[0] != "on"@[0] && "no"@[0] != "up"@[0]);
    assert("off"@[0] != "yes"@[0]);
    assert("down"@[0] != "true"@[0] && "down"@[0] != "open"@[0] && "down"@[0] != "pass"@[0]);
    assert("closed"@[0] != "active"@[0]);
    assert("fail"@[0] != "true"@[0] && "fail"@[0] != "open"@[0] && "fail"@[0] != "pass"@[0]);
}

} // verus!
