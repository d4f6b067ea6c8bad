//! The systemd CLI client: which `systemctl` and `journalctl` commands each
//! operation runs, and how their output is read.
//!
//! Each operation returns the command to run; the caller runs it, turns what
//! it printed into text with [`command_output`](crate::os::process::command_output),
//! and reads that text with the parsers here.
use vstd::prelude::*;

use super::spec::{SystemdBackendUsed, SystemdCliSpec};
use super::types::{SystemdDependency, SystemdResourceLimit, SystemdUnitFile, SystemdUnitStatus};
use crate::os::process::{strings_view, CmdSpec, CmdSpecView};
use crate::text::{
    chars_of, concat2, decimal, decimal_string, ends_with, extend_chars, extend_str, find_char,
    first_index, has_suffix, lemma_first_index, lines, lines_chars, seqs_of, slice_chars,
    split_whitespace_chars, string_of, trim, trim_chars, words,
};

verus! {

/// `["--user"]` when the user manager is targeted.
pub open spec fn user_prefix(user: bool) -> Seq<Seq<char>> {
    if user {
        seq!["--user"@]
    } else {
        Seq::empty()
    }
}

/// A systemd tool run with `args`: through sudo when asked, with `--user`
/// first for the user manager.
pub open spec fn tool_view(program: Seq<char>, sudo: bool, user: bool, args: Seq<Seq<char>>) -> CmdSpecView {
    CmdSpecView { program, args: user_prefix(user) + args, sudo, uid: None, gid: None }
}

/// The command for a systemd tool before its operation's arguments.
pub fn tool_base(program: &str, sudo: bool, user: bool) -> (c: CmdSpec)
    ensures
        c@ == tool_view(program@, sudo, user, Seq::empty()),
{
    let mut c = CmdSpec::new(program);
    if sudo {
        c = c.sudo();
    }
    if user {
        c = c.arg("--user");
    }
    assert(c@.args =~= user_prefix(user) + Seq::<Seq<char>>::empty());
    c
}

/// `s` with every trailing repetition of `p` removed (`str::trim_end_matches`).
pub open spec fn strip_suffixes(s: Seq<char>, p: Seq<char>) -> Seq<char>
    decreases s.len(),
{
    if p.len() > 0 && has_suffix(s, p) {
        strip_suffixes(s.take(s.len() - p.len()), p)
    } else {
        s
    }
}

fn strip_suffixes_chars(a: &[char], p: &[char]) -> (r: Vec<char>)
    requires
        p@.len() > 0,
    ensures
        r@ == strip_suffixes(a@, p@),
{
    let mut cur: Vec<char> = slice_chars(a, 0, a.len());
    assert(cur@ =~= a@);
    while ends_with(cur.as_slice(), p)
        invariant
            p@.len() > 0,
            strip_suffixes(cur@, p@) == strip_suffixes(a@, p@),
        decreases cur@.len(),
    {
        let n = cur.len() - p.len();
        cur = slice_chars(cur.as_slice(), 0, n);
    }
    cur
}

/// The value of `key` in `systemctl show` output: the text after the first
/// `=` of the first line whose part before it is `key`.
pub open spec fn property_in(ls: Seq<Seq<char>>, key: Seq<char>) -> Option<Seq<char>>
    decreases ls.len(),
{
    if ls.len() == 0 {
        None
    } else {
        let l = ls[0];
        let i = first_index(l, '=');
        if i < l.len() && l.take(i as int) == key {
            Some(l.skip(i + 1 as int))
        } else {
            property_in(ls.drop_first(), key)
        }
    }
}

/// The optional text of an optional string.
pub open spec fn opt_view(o: Option<String>) -> Option<Seq<char>> {
    match o {
        Some(s) => Some(s@),
        None => None,
    }
}

/// Reads one property from `systemctl show` output.
pub fn property(output: &str, key: &str) -> (r: Option<String>)
    ensures
        opt_view(r) == property_in(lines(output@), key@),
{
    let cs = chars_of(output);
    let ls = lines_chars(cs.as_slice());
    let ghost all = seqs_of(ls@);
    let k = chars_of(key);
    let mut j: usize = 0;
    assert(all.skip(0) =~= all);
    while j < ls.len()
        invariant
            j <= ls.len(),
            all == seqs_of(ls@),
            all == lines(output@),
            k@ == key@,
            property_in(all, key@) == property_in(all.skip(j as int), key@),
        decreases ls.len() - j,
    {
        assert(all.skip(j as int).drop_first() =~= all.skip(j + 1));
        let l = &ls[j];
        assert(l@ == all.skip(j as int)[0]);
        let i = find_char(l.as_slice(), '=');
        proof {
            lemma_first_index(l@, '=');
        }
        if i < l.len() {
            let name = slice_chars(l.as_slice(), 0, i);
            assert(name@ =~= l@.take(i as int));
            if crate::text::chars_eq(name.as_slice(), k.as_slice()) {
                let value = slice_chars(l.as_slice(), i + 1, l.len());
                assert(value@ =~= l@.skip(i + 1 as int));
                return Some(string_of(value.as_slice()));
            }
        }
        j = j + 1;
    }
    assert(all.skip(j as int).len() == 0);
    None
}

/// The status of `unit` read from its `systemctl show` output.
pub fn parse_status(unit: &str, output: &str) -> (s: SystemdUnitStatus)
    ensures
        s.unit@ == unit@,
        opt_view(s.active_state) == property_in(lines(output@), "ActiveState"@),
        opt_view(s.sub_state) == property_in(lines(output@), "SubState"@),
        opt_view(s.load_state) == property_in(lines(output@), "LoadState"@),
        opt_view(s.description) == property_in(lines(output@), "Description"@),
{
    SystemdUnitStatus {
        unit: unit.to_owned(),
        active_state: property(output, "ActiveState"),
        sub_state: property(output, "SubState"),
        load_state: property(output, "LoadState"),
        description: property(output, "Description"),
    }
}

/// The trimmed lines of `ls` that are not empty, in order.
pub open spec fn nonempty_trimmed(ls: Seq<Seq<char>>) -> Seq<Seq<char>>
    decreases ls.len(),
{
    if ls.len() == 0 {
        Seq::empty()
    } else {
        let r = nonempty_trimmed(ls.drop_last());
        let t = trim(ls.last());
        if t.len() == 0 {
            r
        } else {
            r.push(t)
        }
    }
}

/// The units listed by `systemctl list-dependencies --plain`: one per
/// non-empty line, trimmed.
pub fn parse_dependencies(output: &str) -> (r: Vec<SystemdDependency>)
    ensures
        r.len() == nonempty_trimmed(lines(output@)).len(),
        forall|i: int| 0 <= i < r.len() ==> r@[i].unit@ == nonempty_trimmed(lines(output@))[i],
{
    let cs = chars_of(output);
    let ls = lines_chars(cs.as_slice());
    let ghost all = seqs_of(ls@);
    let mut out: Vec<SystemdDependency> = Vec::new();
    let mut j: usize = 0;
    while j < ls.len()
        invariant
            j <= ls.len(),
            all == seqs_of(ls@),
            all == lines(output@),
            out.len() == nonempty_trimmed(all.take(j as int)).len(),
            forall|i: int| 0 <= i < out.len() ==> out@[i].unit@ == nonempty_trimmed(all.take(j as int))[i],
        decreases ls.len() - j,
    {
        assert(all.take(j + 1).drop_last() =~= all.take(j as int));
        let t = trim_chars(ls[j].as_slice());
        if t.len() > 0 {
            out.push(SystemdDependency { unit: string_of(t.as_slice()) });
        }
        j = j + 1;
    }
    assert(all.take(ls.len() as int) =~= all);
    out
}

/// One `systemctl list-unit-files` line read as a unit file: its first word
/// is the name and its second, if any, the state; a header (`UNIT`) or a
/// footer line (a first word ending in `.`) is none.
pub open spec fn unit_file_of(line: Seq<char>) -> Option<(Seq<char>, Option<Seq<char>>)> {
    let w = words(line);
    if w.len() == 0 || w[0] == "UNIT"@ || has_suffix(w[0], "."@) {
        None
    } else {
        Some((w[0], if w.len() > 1 { Some(w[1]) } else { None }))
    }
}

/// The unit files of `systemctl list-unit-files` output, in order.
pub open spec fn unit_files_in(ls: Seq<Seq<char>>) -> Seq<(Seq<char>, Option<Seq<char>>)>
    decreases ls.len(),
{
    if ls.len() == 0 {
        Seq::empty()
    } else {
        let r = unit_files_in(ls.drop_last());
        match unit_file_of(ls.last()) {
            Some(f) => r.push(f),
            None => r,
        }
    }
}

/// Reads `systemctl list-unit-files` output.
pub fn parse_unit_files(output: &str) -> (r: Vec<SystemdUnitFile>)
    ensures
        r.len() == unit_files_in(lines(output@)).len(),
        forall|i: int|
            0 <= i < r.len() ==> r@[i].name@ == unit_files_in(lines(output@))[i].0 && opt_view(
                r@[i].state,
            ) == unit_files_in(lines(output@))[i].1,
{
    let cs = chars_of(output);
    let ls = lines_chars(cs.as_slice());
    let ghost all = seqs_of(ls@);
    let mut out: Vec<SystemdUnitFile> = Vec::new();
    let mut j: usize = 0;
    while j < ls.len()
        invariant
            j <= ls.len(),
            all == seqs_of(ls@),
            all == lines(output@),
            out.len() == unit_files_in(all.take(j as int)).len(),
            forall|i: int|
                0 <= i < out.len() ==> out@[i].name@ == unit_files_in(all.take(j as int))[i].0
                    && opt_view(out@[i].state) == unit_files_in(all.take(j as int))[i].1,
        decreases ls.len() - j,
    {
        assert(all.take(j + 1).drop_last() =~= all.take(j as int));
        assert(all.take(j + 1).last() == ls@[j as int]@);
        let w = split_whitespace_chars(ls[j].as_slice());
        let ghost ws = seqs_of(w@);
        if w.len() > 0 {
            let first = &w[0];
            let dot: [char; 1] = ['.'];
            let unit_hdr: [char; 4] = ['U', 'N', 'I', 'T'];
            proof {
                reveal_strlit(".");
                reveal_strlit("UNIT");
            }
            let is_hdr = crate::text::chars_eq(first.as_slice(), &unit_hdr);
            let is_footer = ends_with(first.as_slice(), &dot);
            assert(unit_hdr@ =~= "UNIT"@);
            assert(dot@ =~= "."@);
            if !is_hdr && !is_footer {
                let state = if w.len() > 1 {
                    Some(string_of(w[1].as_slice()))
                } else {
                    None
                };
                out.push(SystemdUnitFile { name: string_of(first.as_slice()), state });
            }
        }
        j = j + 1;
    }
    assert(all.take(ls.len() as int) =~= all);
    out
}

/// systemd CLI client backed by systemctl and journalctl.
#[derive(Debug, Clone)]
pub struct SystemdCliClient {
    spec: SystemdCliSpec,
}

impl SystemdCliClient {
    /// The configuration this client was made with.
    pub closed spec fn config(&self) -> SystemdCliSpec {
        self.spec
    }

    /// `systemctl` with `args`, as configured.
    pub open spec fn systemctl_view(&self, args: Seq<Seq<char>>) -> CmdSpecView {
        tool_view(self.config().systemctl@, self.config().sudo, self.config().user, args)
    }

    /// `journalctl` with `args`, as configured.
    pub open spec fn journalctl_view(&self, args: Seq<Seq<char>>) -> CmdSpecView {
        tool_view(self.config().journalctl@, self.config().sudo, self.config().user, args)
    }

    /// A client for `spec`.
    pub fn new(spec: SystemdCliSpec) -> (c: Self)
        ensures
            c.config() == spec,
    {
        SystemdCliClient { spec }
    }

    /// The underlying spec.
    pub fn spec(&self) -> (s: &SystemdCliSpec)
        ensures
            *s == self.config(),
    {
        &self.spec
    }

    /// The backend recorded in this client's responses.
    pub fn backend_used(&self) -> (b: SystemdBackendUsed)
        ensures
            b == (SystemdBackendUsed::Cli { user: self.config().user, sudo: self.config().sudo }),
    {
        SystemdBackendUsed::Cli { user: self.spec.user, sudo: self.spec.sudo }
    }

    fn systemctl(&self) -> (c: CmdSpec)
        ensures
            c@ == self.systemctl_view(Seq::empty()),
    {
        tool_base(self.spec.systemctl.as_str(), self.spec.sudo, self.spec.user)
    }

    fn journalctl(&self) -> (c: CmdSpec)
        ensures
            c@ == self.journalctl_view(Seq::empty()),
    {
        tool_base(self.spec.journalctl.as_str(), self.spec.sudo, self.spec.user)
    }

    fn systemctl2(&self, a: &str, b: &str) -> (c: CmdSpec)
        ensures
            c@ == self.systemctl_view(seq![a@, b@]),
    {
        let c = self.systemctl().arg2(a, b);
        assert(c@.args =~= user_prefix(self.config().user) + seq![a@, b@]);
        c
    }

    fn systemctl3(&self, a: &str, b: &str, d: &str) -> (c: CmdSpec)
        ensures
            c@ == self.systemctl_view(seq![a@, b@, d@]),
    {
        let c = self.systemctl().arg3(a, b, d);
        assert(c@.args =~= user_prefix(self.config().user) + seq![a@, b@, d@]);
        c
    }

    /// `systemctl start <unit>`.
    pub fn start_unit(&self, unit: &str) -> (c: CmdSpec)
        ensures
            c@ == self.systemctl_view(seq!["start"@, unit@]),
    {
        self.systemctl2("start", unit)
    }

    /// `systemctl stop <unit>`.
    pub fn stop_unit(&self, unit: &str) -> (c: CmdSpec)
        ensures
            c@ == self.systemctl_view(seq!["stop"@, unit@]),
    {
        self.systemctl2("stop", unit)
    }

    /// `systemctl restart <unit>`.
    pub fn restart_unit(&self, unit: &str) -> (c: CmdSpec)
        ensures
            c@ == self.systemctl_view(seq!["restart"@, unit@]),
    {
        self.systemctl2("restart", unit)
    }

    /// `systemctl reload <unit>`.
    pub fn reload_unit(&self, unit: &str) -> (c: CmdSpec)
        ensures
            c@ == self.systemctl_view(seq!["reload"@, unit@]),
    {
        self.systemctl2("reload", unit)
    }

    /// `systemctl enable <unit>`.
    pub fn enable_unit(&self, unit: &str) -> (c: CmdSpec)
        ensures
            c@ == self.systemctl_view(seq!["enable"@, unit@]),
    {
        self.systemctl2("enable", unit)
    }

    /// `systemctl enable --now <unit>`.
    pub fn enable_now_unit(&self, unit: &str) -> (c: CmdSpec)
        ensures
            c@ == self.systemctl_view(seq!["enable"@, "--now"@, unit@]),
    {
        self.systemctl3("enable", "--now", unit)
    }

    /// `systemctl disable <unit>`.
    pub fn disable_unit(&self, unit: &str) -> (c: CmdSpec)
        ensures
            c@ == self.systemctl_view(seq!["disable"@, unit@]),
    {
        self.systemctl2("disable", unit)
    }

    /// `systemctl mask <unit>`.
    pub fn mask_unit(&self, unit: &str) -> (c: CmdSpec)
        ensures
            c@ == self.systemctl_view(seq!["mask"@, unit@]),
    {
        self.systemctl2("mask", unit)
    }

    /// `systemctl unmask <unit>`.
    pub fn unmask_unit(&self, unit: &str) -> (c: CmdSpec)
        ensures
            c@ == self.systemctl_view(seq!["unmask"@, unit@]),
    {
        self.systemctl2("unmask", unit)
    }

    /// `systemctl daemon-reload`.
    pub fn daemon_reload(&self) -> (c: CmdSpec)
        ensures
            c@ == self.systemctl_view(seq!["daemon-reload"@]),
    {
        let c = self.systemctl().arg("daemon-reload");
        assert(c@.args =~= user_prefix(self.config().user) + seq!["daemon-reload"@]);
        c
    }

    /// `systemctl show <unit> --no-page`; its output is read by [`parse_status`].
    pub fn status(&self, unit: &str) -> (c: CmdSpec)
        ensures
            c@ == self.systemctl_view(seq!["show"@, unit@, "--no-page"@]),
    {
        self.systemctl3("show", unit, "--no-page")
    }

    /// `systemctl show <unit> --no-page`, whose output is the answer.
    pub fn properties(&self, unit: &str) -> (c: CmdSpec)
        ensures
            c@ == self.systemctl_view(seq!["show"@, unit@, "--no-page"@]),
    {
        self.systemctl3("show", unit, "--no-page")
    }

    /// `systemctl list-dependencies <unit> --plain --no-pager`; its output is
    /// read by [`parse_dependencies`].
    pub fn dependencies(&self, unit: &str) -> (c: CmdSpec)
        ensures
            c@ == self.systemctl_view(seq!["list-dependencies"@, unit@, "--plain"@, "--no-pager"@]),
    {
        let c = self.systemctl().arg4("list-dependencies", unit, "--plain", "--no-pager");
        assert(c@.args =~= user_prefix(self.config().user) + seq![
            "list-dependencies"@,
            unit@,
            "--plain"@,
            "--no-pager"@,
        ]);
        c
    }

    fn journal_with(&self, Ghost(base): Ghost<Seq<Seq<char>>>, c: CmdSpec, lines: Option<u32>) -> (r: CmdSpec)
        requires
            c@ == self.journalctl_view(base),
        ensures
            r@ == self.journalctl_view(base + lines_args(lines)),
    {
        match lines {
            Some(n) => {
                let count = decimal_string(n as u64);
                let r = c.arg2("-n", count.as_str());
                assert(r@.args =~= user_prefix(self.config().user) + (base + lines_args(lines)));
                r
            },
            None => {
                assert(base + lines_args(lines) =~= base);
                c
            },
        }
    }

    /// `journalctl -u <unit> --no-pager`, with `-n <lines>` when given.
    pub fn journal(&self, unit: &str, lines: Option<u32>) -> (c: CmdSpec)
        ensures
            c@ == self.journalctl_view(seq!["-u"@, unit@, "--no-pager"@] + lines_args(lines)),
    {
        let c = self.journalctl().arg3("-u", unit, "--no-pager");
        assert(c@.args =~= user_prefix(self.config().user) + seq!["-u"@, unit@, "--no-pager"@]);
        let ghost base = seq!["-u"@, unit@, "--no-pager"@];
        self.journal_with(Ghost(base), c, lines)
    }

    /// `journalctl -u <unit> -o json --no-pager`, with `-n <lines>` when
    /// given; each output line is one JSON record.
    pub fn journal_entries(&self, unit: &str, lines: Option<u32>) -> (c: CmdSpec)
        ensures
            c@ == self.journalctl_view(
                seq!["-u"@, unit@, "-o"@, "json"@, "--no-pager"@] + lines_args(lines),
            ),
    {
        let c = self.journalctl().arg5("-u", unit, "-o", "json", "--no-pager");
        assert(c@.args =~= user_prefix(self.config().user) + seq![
            "-u"@,
            unit@,
            "-o"@,
            "json"@,
            "--no-pager"@,
        ]);
        let ghost base = seq!["-u"@, unit@, "-o"@, "json"@, "--no-pager"@];
        self.journal_with(Ghost(base), c, lines)
    }

    /// The last `lines` journal lines of `unit`.
    pub fn tail_journal(&self, unit: &str, lines: u32) -> (c: CmdSpec)
        ensures
            c@ == self.journalctl_view(seq!["-u"@, unit@, "--no-pager"@] + lines_args(Some(lines))),
    {
        self.journal(unit, Some(lines))
    }

    /// The last `lines` structured journal records of `unit`.
    pub fn tail_journal_entries(&self, unit: &str, lines: u32) -> (c: CmdSpec)
        ensures
            c@ == self.journalctl_view(
                seq!["-u"@, unit@, "-o"@, "json"@, "--no-pager"@] + lines_args(Some(lines)),
            ),
    {
        self.journal_entries(unit, Some(lines))
    }

    fn until_with(&self, Ghost(base): Ghost<Seq<Seq<char>>>, c: CmdSpec, until: Option<&str>) -> (r: CmdSpec)
        requires
            c@ == self.journalctl_view(base),
        ensures
            r@ == self.journalctl_view(base + until_args(until)),
    {
        match until {
            Some(u) => {
                let r = c.arg2("--until", u);
                assert(r@.args =~= user_prefix(self.config().user) + (base + until_args(until)));
                r
            },
            None => {
                assert(base + until_args(until) =~= base);
                c
            },
        }
    }

    /// `journalctl -u <unit> --since <since> --no-pager`, with
    /// `--until <until>` when given.
    pub fn journal_since(&self, unit: &str, since: &str, until: Option<&str>) -> (c: CmdSpec)
        ensures
            c@ == self.journalctl_view(
                seq!["-u"@, unit@, "--since"@, since@, "--no-pager"@] + until_args(until),
            ),
    {
        let c = self.journalctl().arg5("-u", unit, "--since", since, "--no-pager");
        assert(c@.args =~= user_prefix(self.config().user) + seq![
            "-u"@,
            unit@,
            "--since"@,
            since@,
            "--no-pager"@,
        ]);
        let ghost base = seq!["-u"@, unit@, "--since"@, since@, "--no-pager"@];
        self.until_with(Ghost(base), c, until)
    }

    /// `journalctl -u <unit> --since <since> -o json --no-pager`, with
    /// `--until <until>` when given.
    pub fn journal_entries_since(&self, unit: &str, since: &str, until: Option<&str>) -> (c: CmdSpec)
        ensures
            c@ == self.journalctl_view(
                seq!["-u"@, unit@, "--since"@, since@, "-o"@, "json"@, "--no-pager"@]
                    + until_args(until),
            ),
    {
        let c = self.journalctl().arg4("-u", unit, "--since", since).arg3("-o", "json", "--no-pager");
        assert(c@.args =~= user_prefix(self.config().user) + seq![
            "-u"@,
            unit@,
            "--since"@,
            since@,
            "-o"@,
            "json"@,
            "--no-pager"@,
        ]);
        let ghost base = seq!["-u"@, unit@, "--since"@, since@, "-o"@, "json"@, "--no-pager"@];
        self.until_with(Ghost(base), c, until)
    }

    /// `journalctl -u <unit> -b --no-pager`: the current boot's journal.
    pub fn journal_boot(&self, unit: &str) -> (c: CmdSpec)
        ensures
            c@ == self.journalctl_view(seq!["-u"@, unit@, "-b"@, "--no-pager"@]),
    {
        let c = self.journalctl().arg4("-u", unit, "-b", "--no-pager");
        assert(c@.args =~= user_prefix(self.config().user) + seq!["-u"@, unit@, "-b"@, "--no-pager"@]);
        c
    }

    /// `journalctl -u <unit> -b -o json --no-pager`.
    pub fn journal_entries_boot(&self, unit: &str) -> (c: CmdSpec)
        ensures
            c@ == self.journalctl_view(seq!["-u"@, unit@, "-b"@, "-o"@, "json"@, "--no-pager"@]),
    {
        let c = self.journalctl().arg6("-u", unit, "-b", "-o", "json", "--no-pager");
        assert(c@.args =~= user_prefix(self.config().user) + seq![
            "-u"@,
            unit@,
            "-b"@,
            "-o"@,
            "json"@,
            "--no-pager"@,
        ]);
        c
    }

    /// `journalctl -u <unit> -p <priority> --no-pager`.
    pub fn journal_priority(&self, unit: &str, priority: &str) -> (c: CmdSpec)
        ensures
            c@ == self.journalctl_view(seq!["-u"@, unit@, "-p"@, priority@, "--no-pager"@]),
    {
        let c = self.journalctl().arg5("-u", unit, "-p", priority, "--no-pager");
        assert(c@.args =~= user_prefix(self.config().user) + seq![
            "-u"@,
            unit@,
            "-p"@,
            priority@,
            "--no-pager"@,
        ]);
        c
    }

    /// `journalctl -u <unit> -p <priority> -o json --no-pager`.
    pub fn journal_entries_priority(&self, unit: &str, priority: &str) -> (c: CmdSpec)
        ensures
            c@ == self.journalctl_view(
                seq!["-u"@, unit@, "-p"@, priority@, "-o"@, "json"@, "--no-pager"@],
            ),
    {
        let c = self.journalctl().arg4("-u", unit, "-p", priority).arg3("-o", "json", "--no-pager");
        assert(c@.args =~= user_prefix(self.config().user) + seq![
            "-u"@,
            unit@,
            "-p"@,
            priority@,
            "-o"@,
            "json"@,
            "--no-pager"@,
        ]);
        c
    }

    /// `systemctl edit <unit>`.
    pub fn edit_unit(&self, unit: &str) -> (c: CmdSpec)
        ensures
            c@ == self.systemctl_view(seq!["edit"@, unit@]),
    {
        self.systemctl2("edit", unit)
    }

    /// `systemctl edit <unit> --drop-in <drop_in>`.
    pub fn edit_unit_drop_in(&self, unit: &str, drop_in: &str) -> (c: CmdSpec)
        ensures
            c@ == self.systemctl_view(seq!["edit"@, unit@, "--drop-in"@, drop_in@]),
    {
        let c = self.systemctl().arg4("edit", unit, "--drop-in", drop_in);
        assert(c@.args =~= user_prefix(self.config().user) + seq![
            "edit"@,
            unit@,
            "--drop-in"@,
            drop_in@,
        ]);
        c
    }

    /// `systemctl edit --full <unit>`.
    pub fn edit_unit_full(&self, unit: &str) -> (c: CmdSpec)
        ensures
            c@ == self.systemctl_view(seq!["edit"@, "--full"@, unit@]),
    {
        self.systemctl3("edit", "--full", unit)
    }

    /// `systemctl revert <unit>`.
    pub fn revert_unit(&self, unit: &str) -> (c: CmdSpec)
        ensures
            c@ == self.systemctl_view(seq!["revert"@, unit@]),
    {
        self.systemctl2("revert", unit)
    }

    /// `systemctl list-unit-files --no-pager`, with the pattern when given;
    /// its output is read by [`parse_unit_files`].
    pub fn list_unit_files(&self, pattern: Option<&str>) -> (c: CmdSpec)
        ensures
            c@ == self.systemctl_view(
                seq!["list-unit-files"@, "--no-pager"@] + match pattern {
                    Some(p) => seq![p@],
                    None => Seq::empty(),
                },
            ),
    {
        let c = self.systemctl2("list-unit-files", "--no-pager");
        match pattern {
            Some(p) => {
                let r = c.arg(p);
                assert(r@.args =~= user_prefix(self.config().user) + (seq![
                    "list-unit-files"@,
                    "--no-pager"@,
                ] + seq![p@]));
                r
            },
            None => {
                assert(seq!["list-unit-files"@, "--no-pager"@] + Seq::<Seq<char>>::empty() =~= seq![
                    "list-unit-files"@,
                    "--no-pager"@,
                ]);
                c
            },
        }
    }

    /// `systemctl list-timers --all --no-pager`.
    pub fn list_timers(&self) -> (c: CmdSpec)
        ensures
            c@ == self.systemctl_view(seq!["list-timers"@, "--all"@, "--no-pager"@]),
    {
        self.systemctl3("list-timers", "--all", "--no-pager")
    }

    /// Enables a timer unit, as [`Self::enable_unit`].
    pub fn enable_timer(&self, timer: &str) -> (c: CmdSpec)
        ensures
            c@ == self.systemctl_view(seq!["enable"@, timer@]),
    {
        self.enable_unit(timer)
    }

    /// Disables a timer unit, as [`Self::disable_unit`].
    pub fn disable_timer(&self, timer: &str) -> (c: CmdSpec)
        ensures
            c@ == self.systemctl_view(seq!["disable"@, timer@]),
    {
        self.disable_unit(timer)
    }

    /// `systemctl cat <unit> --no-pager`.
    pub fn cat_unit(&self, unit: &str) -> (c: CmdSpec)
        ensures
            c@ == self.systemctl_view(seq!["cat"@, unit@, "--no-pager"@]),
    {
        self.systemctl3("cat", unit, "--no-pager")
    }

    /// The instance `instance` of a template unit: the template's name without
    /// its trailing `.service` and `@`s, then `@<instance>.service`.
    pub fn template_instance(template: &str, instance: &str) -> (s: String)
        ensures
            s@ == strip_suffixes(strip_suffixes(template@, ".service"@), "@"@) + "@"@ + instance@
                + ".service"@,
    {
        let t = chars_of(template);
        let service = chars_of(".service");
        let at = chars_of("@");
        proof {
            reveal_strlit(".service");
            reveal_strlit("@");
        }
        let t1 = strip_suffixes_chars(t.as_slice(), service.as_slice());
        let t2 = strip_suffixes_chars(t1.as_slice(), at.as_slice());
        let mut v: Vec<char> = t2;
        extend_str(&mut v, "@");
        extend_str(&mut v, instance);
        extend_str(&mut v, ".service");
        string_of(v.as_slice())
    }

    /// `systemctl set-property <unit>` followed by each limit's assignment.
    pub fn set_resource_limits(&self, unit: &str, limits: Vec<SystemdResourceLimit>) -> (c: CmdSpec)
        ensures
            c@ == self.systemctl_view(
                seq!["set-property"@, unit@] + Seq::new(
                    limits.len() as nat,
                    |i: int| limits@[i].property@ + "="@ + limits@[i].value@,
                ),
            ),
    {
        let mut c = self.systemctl2("set-property", unit);
        let ghost base = user_prefix(self.config().user) + seq!["set-property"@, unit@];
        let ghost all = Seq::new(
            limits.len() as nat,
            |i: int| limits@[i].property@ + "="@ + limits@[i].value@,
        );
        let mut i: usize = 0;
        while i < limits.len()
            invariant
                i <= limits.len(),
                all.len() == limits.len(),
                forall|k: int| 0 <= k < limits.len() ==> all[k] == limits@[k].property@ + "="@ + limits@[k].value@,
                c@ == (CmdSpecView { args: base + all.take(i as int), ..self.systemctl_view(Seq::empty()) }),
            decreases limits.len() - i,
        {
            let a = limits[i].assignment();
            c = c.arg(a.as_str());
            assert(all.take(i + 1) =~= all.take(i as int).push(all[i as int]));
            assert(c@.args =~= base + all.take(i + 1));
            i = i + 1;
        }
        assert(all.take(limits.len() as int) =~= all);
        assert(c@.args =~= user_prefix(self.config().user) + (seq!["set-property"@, unit@] + all));
        c
    }

    /// `systemctl show <unit> -p WatchdogUSec -p WatchdogTimestamp`.
    pub fn watchdog_status(&self, unit: &str) -> (c: CmdSpec)
        ensures
            c@ == self.systemctl_view(
                seq!["show"@, unit@, "-p"@, "WatchdogUSec"@, "-p"@, "WatchdogTimestamp"@],
            ),
    {
        let c = self.systemctl().arg6("show", unit, "-p", "WatchdogUSec", "-p", "WatchdogTimestamp");
        assert(c@.args =~= user_prefix(self.config().user) + seq![
            "show"@,
            unit@,
            "-p"@,
            "WatchdogUSec"@,
            "-p"@,
            "WatchdogTimestamp"@,
        ]);
        c
    }

    /// Sets the unit's `WatchdogUSec` through [`Self::set_resource_limits`].
    pub fn set_watchdog_usec(&self, unit: &str, watchdog_usec: &str) -> (c: CmdSpec)
        ensures
            c@ == self.systemctl_view(
                seq!["set-property"@, unit@, "WatchdogUSec"@ + "="@ + watchdog_usec@],
            ),
    {
        let mut limits: Vec<SystemdResourceLimit> = Vec::new();
        limits.push(SystemdResourceLimit::new("WatchdogUSec", watchdog_usec));
        let c = self.set_resource_limits(unit, limits);
        assert(seq!["set-property"@, unit@] + Seq::new(
            1nat,
            |i: int| limits@[i].property@ + "="@ + limits@[i].value@,
        ) =~= seq!["set-property"@, unit@, "WatchdogUSec"@ + "="@ + watchdog_usec@]);
        c
    }

    /// The commands that deploy a unit, to run in order until one fails:
    /// `daemon-reload`, `enable <unit>`, `restart <unit>`.
    pub fn deploy_unit(&self, unit: &str) -> (cs: Vec<CmdSpec>)
        ensures
            cs.len() == 3,
            cs@[0]@ == self.systemctl_view(seq!["daemon-reload"@]),
            cs@[1]@ == self.systemctl_view(seq!["enable"@, unit@]),
            cs@[2]@ == self.systemctl_view(seq!["restart"@, unit@]),
    {
        let mut cs: Vec<CmdSpec> = Vec::new();
        cs.push(self.daemon_reload());
        cs.push(self.enable_unit(unit));
        cs.push(self.restart_unit(unit));
        cs
    }
}

/// `["-n", <lines>]` when a line count is given.
pub open spec fn lines_args(lines: Option<u32>) -> Seq<Seq<char>> {
    match lines {
        Some(n) => seq!["-n"@, decimal(n as nat)],
        None => Seq::empty(),
    }
}

/// `["--until", <until>]` when an end is given.
pub open spec fn until_args(until: Option<&str>) -> Seq<Seq<char>> {
    match until {
        Some(u) => seq!["--until"@, u@],
        None => Seq::empty(),
    }
}


/// A `list-unit-files` line whose first word is neither `UNIT` nor ends in
/// `.` adds exactly one unit file after those of the lines before it: named
/// by its first word, with its second word (the one right after the name) as
/// the state, whatever words follow, and no state when there is no second
/// word. Any other line adds nothing.
pub proof fn unit_file_state_is_the_second_word(ls: Seq<Seq<char>>, line: Seq<char>)
    ensures
        ({
            let w = words(line);
            if w.len() > 0 && w[0] != "UNIT"@ && !has_suffix(w[0], "."@) {
                unit_files_in(ls.push(line)) == unit_files_in(ls).push(
                    (w[0], if w.len() >= 2 { Some(w[1]) } else { None }),
                )
            } else {
                unit_files_in(ls.push(line)) == unit_files_in(ls)
            }
        }),
{
    assert(ls.push(line).drop_last() =~= ls);
}

} // verus!
