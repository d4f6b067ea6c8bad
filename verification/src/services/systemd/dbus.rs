//! The systemd D-Bus client: which `busctl` calls each operation makes, and
//! how `busctl` output is read.
//!
//! As with the CLI client, each operation returns the command to run; the
//! parsers here read what it printed.
use vstd::prelude::*;

use super::cli::{opt_view, tool_base, tool_view, user_prefix};
use super::spec::{SystemdBackendUsed, SystemdDbusSpec};
use super::types::{SystemdUnitStatus, SystemdUnitSummary};
use crate::error::{Result, VeltrixError};
use crate::os::process::{CmdSpec, CmdSpecView};
use crate::text::{
    chars_of, decimal, extend_chars, extend_str, first_index, lemma_first_index, seqs_of,
    slice_chars, split_whitespace_chars, str_eq, string_of, trim, trim_chars, words,
};

verus! {

/// The arguments of a call to a method of systemd's manager object.
pub open spec fn manager_args(args: Seq<Seq<char>>) -> Seq<Seq<char>> {
    seq![
        "call"@,
        "org.freedesktop.systemd1"@,
        "/org/freedesktop/systemd1"@,
        "org.freedesktop.systemd1.Manager"@,
    ] + args
}

/// `s` without leading `c`s.
pub open spec fn strip_leading(s: Seq<char>, c: char) -> Seq<char>
    decreases s.len(),
{
    if s.len() > 0 && s[0] == c {
        strip_leading(s.drop_first(), c)
    } else {
        s
    }
}

/// `s` without trailing `c`s.
pub open spec fn strip_trailing(s: Seq<char>, c: char) -> Seq<char>
    decreases s.len(),
{
    if s.len() > 0 && s.last() == c {
        strip_trailing(s.drop_last(), c)
    } else {
        s
    }
}

/// `s` without the double quotes around it (`str::trim_matches('"')`).
pub open spec fn strip_quotes(s: Seq<char>) -> Seq<char> {
    strip_trailing(strip_leading(s, '"'), '"')
}

fn strip_quotes_chars(a: &[char]) -> (r: Vec<char>)
    ensures
        r@ == strip_quotes(a@),
{
    let mut i: usize = 0;
    assert(a@.skip(0) =~= a@);
    while i < a.len() && a[i] == '"'
        invariant
            i <= a.len(),
            strip_leading(a@, '"') == strip_leading(a@.skip(i as int), '"'),
        decreases a.len() - i,
    {
        assert(a@.skip(i as int).drop_first() =~= a@.skip(i + 1));
        i = i + 1;
    }
    let ghost s = a@.skip(i as int);
    assert(strip_leading(s, '"') == s);
    let mut k: usize = a.len();
    assert(a@.subrange(i as int, k as int) =~= s);
    while k > i && a[k - 1] == '"'
        invariant
            i <= k <= a.len(),
            strip_trailing(s, '"') == strip_trailing(a@.subrange(i as int, k as int), '"'),
        decreases k,
    {
        assert(a@.subrange(i as int, k as int).drop_last() =~= a@.subrange(i as int, k - 1));
        k = k - 1;
    }
    slice_chars(a, i, k)
}

/// The last whitespace-separated token of `ws`, without quotes, that starts
/// with `/`.
pub open spec fn last_object_path(ws: Seq<Seq<char>>) -> Option<Seq<char>>
    decreases ws.len(),
{
    if ws.len() == 0 {
        None
    } else {
        let t = strip_quotes(ws.last());
        if t.len() > 0 && t[0] == '/' {
            Some(t)
        } else {
            last_object_path(ws.drop_last())
        }
    }
}

/// Reads the object path that a `busctl call` printed: the last token that is
/// a path once its quotes are removed.
pub fn parse_busctl_object_path(output: &str) -> (r: Result<String>)
    ensures
        match last_object_path(words(trim(output@))) {
            Some(p) => r matches Ok(s) && s@ == p,
            None => r matches Err(VeltrixError::Parsing { reason }) && reason@
                == "systemd D-Bus output did not contain an object path: "@ + trim(output@),
        },
{
    let cs = chars_of(output);
    let t = trim_chars(cs.as_slice());
    let ws = split_whitespace_chars(t.as_slice());
    let ghost all = seqs_of(ws@);
    let mut k: usize = ws.len();
    assert(all.take(k as int) =~= all);
    while k > 0
        invariant
            k <= ws.len(),
            all == seqs_of(ws@),
            all == words(trim(output@)),
            last_object_path(all) == last_object_path(all.take(k as int)),
        decreases k,
    {
        let tok = strip_quotes_chars(ws[k - 1].as_slice());
        assert(all.take(k as int).last() == ws@[k - 1]@);
        assert(all.take(k as int).drop_last() =~= all.take(k - 1));
        if tok.len() > 0 && tok[0] == '/' {
            return Ok(string_of(tok.as_slice()));
        }
        k = k - 1;
    }
    let mut v: Vec<char> = Vec::new();
    extend_str(&mut v, "systemd D-Bus output did not contain an object path: ");
    extend_chars(&mut v, t.as_slice());
    let m = string_of(v.as_slice());
    Err(VeltrixError::parsing(m.as_str()))
}

/// Index of the last `c` in `s`, or `-1`.
pub open spec fn last_index(s: Seq<char>, c: char) -> int
    decreases s.len(),
{
    if s.len() == 0 {
        -1
    } else if s.last() == c {
        s.len() - 1
    } else {
        last_index(s.drop_last(), c)
    }
}

/// What a `busctl get-property` of a string property printed, read as the
/// property's value: the text between the first and the last double quote,
/// or else the second token without quotes; an empty string is no value.
pub open spec fn string_property_of(t: Seq<char>) -> Option<Seq<char>> {
    let start = first_index(t, '"');
    let rest = t.skip(start + 1 as int);
    if t == "s \"\""@ {
        None
    } else if start < t.len() && last_index(rest, '"') >= 0 {
        Some(rest.take(last_index(rest, '"')))
    } else if words(t).len() > 1 && strip_quotes(words(t)[1]).len() > 0 {
        Some(strip_quotes(words(t)[1]))
    } else {
        None
    }
}

proof fn lemma_last_index(s: Seq<char>, c: char)
    ensures
        -1 <= last_index(s, c) < s.len(),
        last_index(s, c) >= 0 ==> s[last_index(s, c)] == c,
    decreases s.len(),
{
    if s.len() > 0 && s.last() != c {
        lemma_last_index(s.drop_last(), c);
    }
}

/// Reads a string property printed by `busctl get-property`.
pub fn parse_busctl_string_property(output: &str) -> (r: Option<String>)
    ensures
        opt_view(r) == string_property_of(trim(output@)),
{
    let cs = chars_of(output);
    let t = trim_chars(cs.as_slice());
    let ts = string_of(t.as_slice());
    proof {
        reveal_strlit("s \"\"");
    }
    if str_eq(ts.as_str(), "s \"\"") {
        return None;
    }
    let start = crate::text::find_char(t.as_slice(), '"');
    proof {
        lemma_first_index(t@, '"');
    }
    if start < t.len() {
        let rest = slice_chars(t.as_slice(), start + 1, t.len());
        assert(rest@ =~= t@.skip(start + 1 as int));
        let mut e: usize = rest.len();
        assert(rest@.take(e as int) =~= rest@);
        while e > 0 && rest[e - 1] != '"'
            invariant
                e <= rest.len(),
                last_index(rest@, '"') == last_index(rest@.take(e as int), '"'),
            decreases e,
        {
            assert(rest@.take(e as int).drop_last() =~= rest@.take(e - 1));
            e = e - 1;
        }
        proof {
            if e > 0 {
                assert(rest@.take(e as int).last() == '"');
            }
        }
        if e > 0 {
            let v = slice_chars(rest.as_slice(), 0, e - 1);
            assert(v@ =~= rest@.take(e - 1));
            return Some(string_of(v.as_slice()));
        }
    }
    let ws = split_whitespace_chars(t.as_slice());
    assert(seqs_of(ws@) == words(t@));
    if ws.len() > 1 {
        assert(ws@[1]@ == words(t@)[1]);
        let v = strip_quotes_chars(ws[1].as_slice());
        if v.len() > 0 {
            return Some(string_of(v.as_slice()));
        }
    }
    None
}

/// State of the scan for double-quoted strings: the strings so far, the one
/// being read, whether inside quotes, and whether the last character was a
/// backslash inside quotes.
pub type QuoteScan = (Seq<Seq<char>>, Seq<char>, bool, bool);

/// One character of the scan.
pub open spec fn quote_step(st: QuoteScan, ch: char) -> QuoteScan {
    let (strings, current, in_string, escaped) = st;
    if escaped {
        (strings, current.push(ch), in_string, false)
    } else if ch == '\\' && in_string {
        (strings, current, in_string, true)
    } else if ch == '"' && in_string {
        (strings.push(current), Seq::empty(), false, false)
    } else if ch == '"' {
        (strings, current, true, false)
    } else if in_string {
        (strings, current.push(ch), in_string, false)
    } else {
        st
    }
}

/// The scan over all of `s`.
pub open spec fn quote_scan(s: Seq<char>) -> QuoteScan
    decreases s.len(),
{
    if s.len() == 0 {
        (Seq::empty(), Seq::empty(), false, false)
    } else {
        quote_step(quote_scan(s.drop_last()), s.last())
    }
}

/// The double-quoted strings of `output`, with backslash escapes resolved.
pub fn quoted_strings(output: &str) -> (r: Vec<String>)
    ensures
        r.len() == quote_scan(output@).0.len(),
        forall|i: int| 0 <= i < r.len() ==> r@[i]@ == quote_scan(output@).0[i],
{
    let cs = chars_of(output);
    let mut strings: Vec<String> = Vec::new();
    let mut current: Vec<char> = Vec::new();
    let mut in_string = false;
    let mut escaped = false;
    let mut i: usize = 0;
    while i < cs.len()
        invariant
            i <= cs.len(),
            cs@ == output@,
            quote_scan(cs@.take(i as int)).0.len() == strings.len(),
            forall|k: int| 0 <= k < strings.len() ==> strings@[k]@ == quote_scan(cs@.take(i as int)).0[k],
            quote_scan(cs@.take(i as int)).1 == current@,
            quote_scan(cs@.take(i as int)).2 == in_string,
            quote_scan(cs@.take(i as int)).3 == escaped,
        decreases cs.len() - i,
    {
        let ch = cs[i];
        assert(cs@.take(i + 1).drop_last() =~= cs@.take(i as int));
        assert(cs@.take(i + 1).last() == ch);
        if escaped {
            current.push(ch);
            escaped = false;
        } else if ch == '\\' && in_string {
            escaped = true;
        } else if ch == '"' && in_string {
            strings.push(string_of(current.as_slice()));
            current = Vec::new();
            in_string = false;
        } else if ch == '"' {
            in_string = true;
        } else if in_string {
            current.push(ch);
        }
        i = i + 1;
    }
    assert(cs@.take(cs.len() as int) =~= cs@);
    strings
}

/// `None` for an empty string, else the string.
pub open spec fn optional_text(s: Seq<char>) -> Option<Seq<char>> {
    if s.len() == 0 {
        None
    } else {
        Some(s)
    }
}

/// `None` for an empty string, else the string.
pub fn optional_string(value: &str) -> (r: Option<String>)
    ensures
        opt_view(r) == optional_text(value@),
{
    if value.is_empty() {
        None
    } else {
        Some(value.to_owned())
    }
}

/// Reads `ListUnits` output: its quoted strings in groups of seven, of which
/// the first five are the unit, description, load, active and sub state.
pub fn parse_list_units(output: &str) -> (r: Result<Vec<SystemdUnitSummary>>)
    ensures
        ({
            let q = quote_scan(output@).0;
            &&& q.len() % 7 == 0 ==> (r matches Ok(units) && units.len() == q.len() / 7 && forall|
                i: int,
            |
                0 <= i < units.len() ==> units@[i].unit@ == q[7 * i] && opt_view(
                    units@[i].description,
                ) == optional_text(q[7 * i + 1]) && opt_view(units@[i].load_state)
                    == optional_text(q[7 * i + 2]) && opt_view(units@[i].active_state)
                    == optional_text(q[7 * i + 3]) && opt_view(units@[i].sub_state)
                    == optional_text(q[7 * i + 4]))
            &&& q.len() % 7 != 0 ==> (r matches Err(VeltrixError::Parsing { reason }) && reason@
                == "unexpected systemd ListUnits D-Bus output: "@ + decimal(q.len()) + " quoted fields"@)
        }),
{
    let strings = quoted_strings(output);
    let ghost q = quote_scan(output@).0;
    let n = strings.len();
    if n % 7 != 0 {
        let mut v: Vec<char> = Vec::new();
        extend_str(&mut v, "unexpected systemd ListUnits D-Bus output: ");
        crate::text::push_decimal(&mut v, n as u64);
        extend_str(&mut v, " quoted fields");
        let m = string_of(v.as_slice());
        return Err(VeltrixError::parsing(m.as_str()));
    }
    let mut units: Vec<SystemdUnitSummary> = Vec::new();
    let mut c: usize = 0;
    while c < n / 7
        invariant
            n == strings.len(),
            n == q.len(),
            n % 7 == 0,
            c <= n / 7,
            units.len() == c,
            forall|k: int| 0 <= k < n ==> strings@[k]@ == q[k],
            forall|i: int|
                0 <= i < c ==> units@[i].unit@ == q[7 * i] && opt_view(units@[i].description)
                    == optional_text(q[7 * i + 1]) && opt_view(units@[i].load_state)
                    == optional_text(q[7 * i + 2]) && opt_view(units@[i].active_state)
                    == optional_text(q[7 * i + 3]) && opt_view(units@[i].sub_state)
                    == optional_text(q[7 * i + 4]),
        decreases n / 7 - c,
    {
        let b = 7 * c;
        assert(b + 6 < n) by (nonlinear_arith)
            requires
                c < n / 7,
                n % 7 == 0,
                b == 7 * c,
        ;
        units.push(
            SystemdUnitSummary {
                unit: strings[b].clone(),
                description: optional_string(strings[b + 1].as_str()),
                load_state: optional_string(strings[b + 2].as_str()),
                active_state: optional_string(strings[b + 3].as_str()),
                sub_state: optional_string(strings[b + 4].as_str()),
            },
        );
        c = c + 1;
    }
    Ok(units)
}

/// systemd D-Bus client backed by `busctl`.
#[derive(Debug, Clone)]
pub struct SystemdDbusClient {
    spec: SystemdDbusSpec,
}

impl SystemdDbusClient {
    /// The configuration this client was made with.
    pub closed spec fn config(&self) -> SystemdDbusSpec {
        self.spec
    }

    /// `busctl` with `args`, as configured.
    pub open spec fn busctl_view(&self, args: Seq<Seq<char>>) -> CmdSpecView {
        tool_view(self.config().busctl@, self.config().sudo, self.config().user, args)
    }

    /// A client for `spec`.
    pub fn new(spec: SystemdDbusSpec) -> (c: Self)
        ensures
            c.config() == spec,
    {
        SystemdDbusClient { spec }
    }

    /// The underlying spec.
    pub fn spec(&self) -> (s: &SystemdDbusSpec)
        ensures
            *s == self.config(),
    {
        &self.spec
    }

    /// The backend recorded in this client's responses.
    pub fn backend_used(&self) -> (b: SystemdBackendUsed)
        ensures
            b matches SystemdBackendUsed::Dbus { user, sudo, busctl } && user == self.config().user
                && sudo == self.config().sudo && busctl@ == self.config().busctl@,
    {
        SystemdBackendUsed::Dbus {
            user: self.spec.user,
            sudo: self.spec.sudo,
            busctl: self.spec.busctl.clone(),
        }
    }

    fn manager(&self) -> (c: CmdSpec)
        ensures
            c@ == self.busctl_view(manager_args(Seq::empty())),
    {
        let c = tool_base(self.spec.busctl.as_str(), self.spec.sudo, self.spec.user).arg4(
            "call",
            "org.freedesktop.systemd1",
            "/org/freedesktop/systemd1",
            "org.freedesktop.systemd1.Manager",
        );
        assert(c@.args =~= user_prefix(self.config().user) + manager_args(Seq::empty()));
        c
    }

    fn unit_job(&self, method: &str, unit: &str) -> (c: CmdSpec)
        ensures
            c@ == self.busctl_view(manager_args(seq![method@, "ss"@, unit@, "replace"@])),
    {
        let c = self.manager().arg4(method, "ss", unit, "replace");
        assert(c@.args =~= user_prefix(self.config().user) + manager_args(
            seq![method@, "ss"@, unit@, "replace"@],
        ));
        c
    }

    /// `StartUnit(unit, "replace")`; the job path is read by
    /// [`parse_busctl_object_path`].
    pub fn start_unit(&self, unit: &str) -> (c: CmdSpec)
        ensures
            c@ == self.busctl_view(manager_args(seq!["StartUnit"@, "ss"@, unit@, "replace"@])),
    {
        self.unit_job("StartUnit", unit)
    }

    /// `StopUnit(unit, "replace")`.
    pub fn stop_unit(&self, unit: &str) -> (c: CmdSpec)
        ensures
            c@ == self.busctl_view(manager_args(seq!["StopUnit"@, "ss"@, unit@, "replace"@])),
    {
        self.unit_job("StopUnit", unit)
    }

    /// `RestartUnit(unit, "replace")`.
    pub fn restart_unit(&self, unit: &str) -> (c: CmdSpec)
        ensures
            c@ == self.busctl_view(manager_args(seq!["RestartUnit"@, "ss"@, unit@, "replace"@])),
    {
        self.unit_job("RestartUnit", unit)
    }

    /// `ReloadUnit(unit, "replace")`.
    pub fn reload_unit(&self, unit: &str) -> (c: CmdSpec)
        ensures
            c@ == self.busctl_view(manager_args(seq!["ReloadUnit"@, "ss"@, unit@, "replace"@])),
    {
        self.unit_job("ReloadUnit", unit)
    }

    /// The manager's `Reload`.
    pub fn daemon_reload(&self) -> (c: CmdSpec)
        ensures
            c@ == self.busctl_view(manager_args(seq!["Reload"@])),
    {
        let c = self.manager().arg("Reload");
        assert(c@.args =~= user_prefix(self.config().user) + manager_args(seq!["Reload"@]));
        c
    }

    /// `LoadUnit(unit)`, the first step of reading a unit's status: it prints
    /// the unit's object path, whose properties are then read with
    /// [`Self::unit_property`].
    pub fn status(&self, unit: &str) -> (c: CmdSpec)
        ensures
            c@ == self.busctl_view(manager_args(seq!["LoadUnit"@, "s"@, unit@])),
    {
        let c = self.manager().arg2("LoadUnit", "s").arg(unit);
        assert(c@.args =~= user_prefix(self.config().user) + manager_args(
            seq!["LoadUnit"@, "s"@, unit@],
        ));
        c
    }

    /// `get-property` of a unit property; the value is read by
    /// [`parse_busctl_string_property`].
    pub fn unit_property(&self, path: &str, property: &str) -> (c: CmdSpec)
        ensures
            c@ == self.busctl_view(
                seq![
                    "get-property"@,
                    "org.freedesktop.systemd1"@,
                    path@,
                    "org.freedesktop.systemd1.Unit"@,
                    property@,
                ],
            ),
    {
        let c = tool_base(self.spec.busctl.as_str(), self.spec.sudo, self.spec.user).arg5(
            "get-property",
            "org.freedesktop.systemd1",
            path,
            "org.freedesktop.systemd1.Unit",
            property,
        );
        assert(c@.args =~= user_prefix(self.config().user) + seq![
            "get-property"@,
            "org.freedesktop.systemd1"@,
            path@,
            "org.freedesktop.systemd1.Unit"@,
            property@,
        ]);
        c
    }

    /// Whether a unit's status says it is active.
    pub fn is_active(&self, status: &SystemdUnitStatus) -> (b: bool)
        ensures
            b == (opt_view(status.active_state) == Some("active"@)),
    {
        match &status.active_state {
            Some(s) => str_eq(s.as_str(), "active"),
            None => false,
        }
    }

    /// Whether a unit's `UnitFileState` says it is enabled.
    pub fn is_enabled(&self, unit_file_state: Option<&str>) -> (b: bool)
        ensures
            b == (unit_file_state matches Some(s) && (s@ == "enabled"@ || s@ == "enabled-runtime"@)),
    {
        match unit_file_state {
            Some(s) => str_eq(s, "enabled") || str_eq(s, "enabled-runtime"),
            None => false,
        }
    }

    /// Whether a unit's status says it has failed.
    pub fn is_failed(&self, status: &SystemdUnitStatus) -> (b: bool)
        ensures
            b == (opt_view(status.active_state) == Some("failed"@)),
    {
        match &status.active_state {
            Some(s) => str_eq(s.as_str(), "failed"),
            None => false,
        }
    }

    /// The manager's `ListUnits`; its output is read by [`parse_list_units`].
    pub fn list_units(&self) -> (c: CmdSpec)
        ensures
            c@ == self.busctl_view(manager_args(seq!["ListUnits"@])),
    {
        let c = self.manager().arg("ListUnits");
        assert(c@.args =~= user_prefix(self.config().user) + manager_args(seq!["ListUnits"@]));
        c
    }
}

} // verus!
