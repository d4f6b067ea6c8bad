//! Unix identities, and the text formats of `/etc/subuid`, `/etc/subgid`,
//! `/etc/group` and `/etc/sudoers` that the identity helpers read.
use vstd::prelude::*;

use crate::os::process::{CmdSpec, CmdSpecView};
use crate::text::{
    chars_eq, chars_eq_str, chars_of, decimal, extend_str, has_prefix, lines, lines_chars,
    parse_uint, parse_uint_chars, push_decimal, seqs_of, split_chars, split_on,
    split_whitespace_chars, string_of, trim, trim_chars, words,
};

verus! {

/// Common Unix group names that often grant administrative privileges.
///
/// This list is heuristic and not an authoritative sudo policy check.
pub const COMMON_ADMIN_GROUPS: [&'static str; 3] = ["sudo", "wheel", "admin"];

/// The `/etc/subuid` file.
pub const SUBUID_FILE: &'static str = "/etc/subuid";

/// The `/etc/subgid` file.
pub const SUBGID_FILE: &'static str = "/etc/subgid";

/// A Unix user identifier.
#[derive(Debug, Clone, Copy, PartialEq, Eq, Structural, Hash, PartialOrd, Ord)]
pub struct Uid(u32);

/// A Unix group identifier.
#[derive(Debug, Clone, Copy, PartialEq, Eq, Structural, Hash, PartialOrd, Ord)]
pub struct Gid(u32);

/// A Unix process identifier.
#[derive(Debug, Clone, Copy, PartialEq, Eq, Structural, Hash, PartialOrd, Ord)]
pub struct Pid(i32);

impl View for Uid {
    type V = u32;

    closed spec fn view(&self) -> u32 {
        self.0
    }
}

impl View for Gid {
    type V = u32;

    closed spec fn view(&self) -> u32 {
        self.0
    }
}

impl View for Pid {
    type V = i32;

    closed spec fn view(&self) -> i32 {
        self.0
    }
}

impl Uid {
    /// Creates a [`Uid`] from a raw numeric user ID.
    pub fn from_raw(uid: u32) -> (u: Self)
        ensures
            u@ == uid,
    {
        Uid(uid)
    }

    /// Returns the raw numeric user ID.
    pub fn as_raw(self) -> (r: u32)
        ensures
            r == self@,
    {
        self.0
    }

    /// Returns `true` if this UID is root.
    pub fn is_root(self) -> (b: bool)
        ensures
            b == (self@ == 0),
    {
        self.0 == 0
    }
}

impl Gid {
    /// Creates a [`Gid`] from a raw numeric group ID.
    pub fn from_raw(gid: u32) -> (g: Self)
        ensures
            g@ == gid,
    {
        Gid(gid)
    }

    /// Returns the raw numeric group ID.
    pub fn as_raw(self) -> (r: u32)
        ensures
            r == self@,
    {
        self.0
    }
}

impl Pid {
    /// Creates a [`Pid`] from a raw numeric process ID.
    pub fn from_raw(pid: i32) -> (p: Self)
        ensures
            p@ == pid,
    {
        Pid(pid)
    }

    /// Returns the raw numeric process ID.
    pub fn as_raw(self) -> (r: i32)
        ensures
            r == self@,
    {
        self.0
    }
}

/// A contiguous sub-UID/GID allocation: starting id and count.
///
/// Use `SubUidRange` or `SubGidRange` type aliases for convenience.
#[derive(Debug, Clone, Copy, PartialEq, Eq, Structural)]
pub struct SubIdRange<T> {
    pub start: T,
    pub count: u32,
}

/// Convenience alias for sub-UID ranges.
pub type SubUidRange = SubIdRange<Uid>;

/// Convenience alias for sub-GID ranges.
pub type SubGidRange = SubIdRange<Gid>;

impl SubIdRange<Uid> {
    /// A range of `count` sub-UIDs starting at `start`.
    pub fn from_raw(start: u32, count: u32) -> (r: Self)
        ensures
            r.start@ == start,
            r.count == count,
    {
        SubIdRange { start: Uid::from_raw(start), count }
    }

    /// The raw `(start, count)` pair.
    pub fn as_raw(&self) -> (r: Option<(u32, u32)>)
        ensures
            r == Some((self.start@, self.count)),
    {
        Some((self.start.as_raw(), self.count))
    }

    /// Whether the range starts above zero and is non-empty.
    pub fn is_valid(&self) -> (b: bool)
        ensures
            b == (self.start@ > 0 && self.count > 0),
    {
        self.start.as_raw() > 0 && self.count > 0
    }
}

impl SubIdRange<Gid> {
    /// A range of `count` sub-GIDs starting at `start`.
    pub fn from_raw(start: u32, count: u32) -> (r: Self)
        ensures
            r.start@ == start,
            r.count == count,
    {
        SubIdRange { start: Gid::from_raw(start), count }
    }

    /// The raw `(start, count)` pair.
    pub fn as_raw(&self) -> (r: Option<(u32, u32)>)
        ensures
            r == Some((self.start@, self.count)),
    {
        Some((self.start.as_raw(), self.count))
    }

    /// Whether the range starts above zero and is non-empty.
    pub fn is_valid(&self) -> (b: bool)
        ensures
            b == (self.start@ > 0 && self.count > 0),
    {
        self.start.as_raw() > 0 && self.count > 0
    }
}

/// The `(start, count)` of the first line of a subordinate-id file that has
/// exactly three `:`-separated fields, names `name` in the first, and holds
/// two `u32` numbers in the others. Lines that do not fit are skipped.
pub open spec fn subid_lookup(ls: Seq<Seq<char>>, name: Seq<char>) -> Option<(u32, u32)>
    decreases ls.len(),
{
    if ls.len() == 0 {
        None
    } else {
        let parts = split_on(ls[0], ':');
        if parts.len() == 3 && parts[0] == name && parse_uint(parts[1], u32::MAX as nat) is Ok
            && parse_uint(parts[2], u32::MAX as nat) is Ok {
            Some(
                (
                    parse_uint(parts[1], u32::MAX as nat)->Ok_0 as u32,
                    parse_uint(parts[2], u32::MAX as nat)->Ok_0 as u32,
                ),
            )
        } else {
            subid_lookup(ls.drop_first(), name)
        }
    }
}

/// The subordinate-id range of `name` in the text of a subordinate-id file;
/// none when `name` holds a NUL character.
pub open spec fn subid_spec(text: Seq<char>, name: Seq<char>) -> Option<(u32, u32)> {
    if name.contains('\0') {
        None
    } else {
        subid_lookup(lines(text), name)
    }
}

fn parse_u32(a: &[char]) -> (r: Option<u32>)
    ensures
        r is Some <==> parse_uint(a@, u32::MAX as nat) is Ok,
        r is Some ==> r->0 as nat == parse_uint(a@, u32::MAX as nat)->Ok_0,
{
    match parse_uint_chars(a, 4294967295u64) {
        Ok(v) => Some(v as u32),
        Err(_) => None,
    }
}

fn subid_raw(text: &str, name: &str) -> (r: Option<(u32, u32)>)
    ensures
        r == subid_spec(text@, name@),
{
    let n = chars_of(name);
    let mut k: usize = 0;
    while k < n.len()
        invariant
            n@ == name@,
            k <= n.len(),
            forall|j: int| 0 <= j < k ==> n@[j] != '\0',
        decreases n.len() - k,
    {
        if n[k] == '\0' {
            assert(name@.contains('\0'));
            return None;
        }
        k = k + 1;
    }
    let t = chars_of(text);
    let ls = lines_chars(t.as_slice());
    let ghost all = seqs_of(ls@);
    let mut i: usize = 0;
    assert(all.subrange(0, all.len() as int) =~= all);
    while i < ls.len()
        invariant
            all == seqs_of(ls@),
            all == lines(text@),
            !name@.contains('\0'),
            n@ == name@,
            i <= ls.len(),
            subid_lookup(all, name@) == subid_lookup(all.subrange(i as int, all.len() as int), name@),
        decreases ls.len() - i,
    {
        let ghost rest = all.subrange(i as int, all.len() as int);
        assert(rest[0] == ls@[i as int]@);
        assert(rest.drop_first() =~= all.subrange(i + 1, all.len() as int));
        let parts = split_chars(ls[i].as_slice(), ':');
        if parts.len() == 3 && chars_eq(parts[0].as_slice(), n.as_slice()) {
            let a = parse_u32(parts[1].as_slice());
            let b = parse_u32(parts[2].as_slice());
            if a.is_some() && b.is_some() {
                return Some((a.unwrap(), b.unwrap()));
            }
        }
        i = i + 1;
    }
    None
}

/// Looks up a subuid range by username in the text of `/etc/subuid`.
///
/// The file format is `name:start:count` (for example, `alice:100000:65536`).
/// Returns the first well-formed entry for `username`, or `None` if there is
/// none or the name contains a NUL character.
pub fn subuid_by_username(subuid_text: &str, username: &str) -> (r: Option<SubUidRange>)
    ensures
        match subid_spec(subuid_text@, username@) {
            Some((s, c)) => r matches Some(x) && x.start@ == s && x.count == c,
            None => r is None,
        },
{
    match subid_raw(subuid_text, username) {
        Some((s, c)) => Some(SubIdRange::<Uid>::from_raw(s, c)),
        None => None,
    }
}

/// [`subuid_by_username`] as raw numbers.
pub fn subuid_by_username_raw(subuid_text: &str, username: &str) -> (r: Option<(u32, u32)>)
    ensures
        r == subid_spec(subuid_text@, username@),
{
    match subuid_by_username(subuid_text, username) {
        Some(range) => range.as_raw(),
        None => None,
    }
}

/// Looks up a subgid range by group name in the text of `/etc/subgid`.
pub fn subgid_by_groupname(subgid_text: &str, groupname: &str) -> (r: Option<SubGidRange>)
    ensures
        match subid_spec(subgid_text@, groupname@) {
            Some((s, c)) => r matches Some(x) && x.start@ == s && x.count == c,
            None => r is None,
        },
{
    match subid_raw(subgid_text, groupname) {
        Some((s, c)) => Some(SubIdRange::<Gid>::from_raw(s, c)),
        None => None,
    }
}

/// [`subgid_by_groupname`] as raw numbers.
pub fn subgid_by_groupname_raw(subgid_text: &str, groupname: &str) -> (r: Option<(u32, u32)>)
    ensures
        r == subid_spec(subgid_text@, groupname@),
{
    match subgid_by_groupname(subgid_text, groupname) {
        Some(range) => range.as_raw(),
        None => None,
    }
}


/// The names of the groups in `/etc/group` text whose member list (the
/// fourth `:`-separated field, split on `,`, each member trimmed) holds
/// `user`. Lines with fewer than four fields are skipped.
pub open spec fn member_groups(ls: Seq<Seq<char>>, user: Seq<char>) -> Seq<Seq<char>>
    decreases ls.len(),
{
    if ls.len() == 0 {
        Seq::empty()
    } else {
        let parts = split_on(ls[0], ':');
        let rest = member_groups(ls.drop_first(), user);
        if parts.len() >= 4 && exists|k: int|
            0 <= k < split_on(parts[3], ',').len() && #[trigger] trim(split_on(parts[3], ',')[k])
                == user {
            seq![parts[0]] + rest
        } else {
            rest
        }
    }
}

fn member_listed(members: &[char], user: &[char]) -> (b: bool)
    ensures
        b == exists|k: int|
            0 <= k < split_on(members@, ',').len() && #[trigger] trim(split_on(members@, ',')[k])
                == user@,
{
    let ms = split_chars(members, ',');
    let ghost all = split_on(members@, ',');
    let mut i: usize = 0;
    while i < ms.len()
        invariant
            seqs_of(ms@) == all,
            all == split_on(members@, ','),
            i <= ms.len(),
            forall|j: int| 0 <= j < i ==> trim(all[j]) != user@,
        decreases ms.len() - i,
    {
        let t = trim_chars(ms[i].as_slice());
        assert(all.len() == ms@.len());
        assert(ms@[i as int]@ == all[i as int]);
        assert(t@ == trim(all[i as int]));
        if chars_eq(t.as_slice(), user) {
            assert(trim(split_on(members@, ',')[i as int]) == user@);
            return true;
        }
        i = i + 1;
    }
    false
}

/// The texts of a vector of strings.
pub open spec fn names_view(v: Seq<String>) -> Seq<Seq<char>> {
    Seq::new(v.len(), |i: int| v[i]@)
}

/// The group names that list `username` as a member in `/etc/group` text,
/// in file order.
pub fn member_groups_in(group_text: &str, username: &str) -> (r: Vec<String>)
    ensures
        names_view(r@) == member_groups(lines(group_text@), username@),
{
    let t = chars_of(group_text);
    let u = chars_of(username);
    let ls = lines_chars(t.as_slice());
    let ghost all = seqs_of(ls@);
    let mut out: Vec<String> = Vec::new();
    let mut i: usize = ls.len();
    assert(all.subrange(ls@.len() as int, all.len() as int) =~= Seq::<Seq<char>>::empty());
    while i > 0
        invariant
            all == seqs_of(ls@),
            all == lines(group_text@),
            u@ == username@,
            i <= ls.len(),
            names_view(out@) == member_groups(all.subrange(i as int, all.len() as int), username@),
        decreases i,
    {
        let ghost rest = all.subrange(i - 1, all.len() as int);
        assert(rest[0] == ls@[i - 1]@);
        assert(rest.drop_first() =~= all.subrange(i as int, all.len() as int));
        let parts = split_chars(ls[i - 1].as_slice(), ':');
        if parts.len() >= 4 && member_listed(parts[3].as_slice(), u.as_slice()) {
            let name = string_of(parts[0].as_slice());
            let ghost before = names_view(out@);
            out.insert(0, name);
            assert(names_view(out@) =~= seq![parts@[0]@] + before);
        }
        i = i - 1;
    }
    assert(all.subrange(0, all.len() as int) =~= all);
    out
}

/// The group names of a user: the primary group's name when it resolved,
/// then, when the user's name resolved and `/etc/group` could be read, every
/// group whose member list holds that name.
///
/// This is a lightweight heuristic and may not include groups provided only
/// by NSS, LDAP, SSSD, Active Directory, or other external directory services.
pub fn groups_for_uid(
    primary_group: Option<&str>,
    username: Option<&str>,
    group_text: Option<&str>,
) -> (r: Vec<String>)
    ensures
        names_view(r@) == (match primary_group {
            Some(p) => seq![p@],
            None => Seq::empty(),
        }) + (match (username, group_text) {
            (Some(u), Some(t)) => member_groups(lines(t@), u@),
            _ => Seq::empty(),
        }),
{
    let mut groups: Vec<String> = Vec::new();
    if let Some(p) = primary_group {
        groups.push(p.to_owned());
    }
    let ghost first = names_view(groups@);
    match (username, group_text) {
        (Some(u), Some(t)) => {
            let mut more = member_groups_in(t, u);
            groups.append(&mut more);
            assert(names_view(groups@) =~= first + member_groups(lines(t@), u@));
        },
        _ => {
            assert(names_view(groups@) =~= first + Seq::<Seq<char>>::empty());
        },
    }
    groups
}

/// Whether `group` is among the group names.
pub fn user_in_group(groups: &[String], group: &str) -> (b: bool)
    ensures
        b == names_view(groups@).contains(group@),
{
    let mut i: usize = 0;
    while i < groups.len()
        invariant
            i <= groups.len(),
            forall|j: int| 0 <= j < i ==> groups@[j]@ != group@,
        decreases groups.len() - i,
    {
        let g = chars_of(groups[i].as_str());
        if chars_eq_str(g.as_slice(), group) {
            assert(names_view(groups@)[i as int] == group@);
            return true;
        }
        i = i + 1;
    }
    assert(!names_view(groups@).contains(group@));
    false
}

/// One of the common admin group names: `sudo`, `wheel`, `admin`.
pub open spec fn admin_group(g: Seq<char>) -> bool {
    g == "sudo"@ || g == "wheel"@ || g == "admin"@
}

/// Whether the group names include a common admin group.
///
/// This is a convenience heuristic, not an authoritative sudo policy check.
pub fn user_in_admin_group(groups: &[String]) -> (b: bool)
    ensures
        b == exists|k: int| 0 <= k < groups@.len() && admin_group(#[trigger] groups@[k]@),
{
    let r = user_in_group(groups, "sudo") || user_in_group(groups, "wheel") || user_in_group(
        groups,
        "admin",
    );
    proof {
        if r {
            let g = if names_view(groups@).contains("sudo"@) {
                "sudo"@
            } else if names_view(groups@).contains("wheel"@) {
                "wheel"@
            } else {
                "admin"@
            };
            let k = choose|k: int| 0 <= k < names_view(groups@).len() && names_view(groups@)[k] == g;
            assert(admin_group(groups@[k]@));
        } else {
            assert forall|k: int| 0 <= k < groups@.len() implies !admin_group(#[trigger] groups@[k]@) by {
                assert(names_view(groups@)[k] == groups@[k]@);
            }
        }
    }
    r
}

/// A line of `/etc/sudoers` text grants a common admin group: after
/// trimming it is not empty, not a `#` comment, and one of its
/// whitespace-separated tokens is `%sudo`, `%wheel` or `%admin`.
pub open spec fn sudoers_line_grants_admin(l: Seq<char>) -> bool {
    let t = trim(l);
    t.len() > 0 && t[0] != '#' && (words(t).contains("%sudo"@) || words(t).contains("%wheel"@)
        || words(t).contains("%admin"@))
}

fn words_contain(ws: &Vec<Vec<char>>, token: &str) -> (b: bool)
    ensures
        b == seqs_of(ws@).contains(token@),
{
    let mut i: usize = 0;
    while i < ws.len()
        invariant
            i <= ws.len(),
            forall|j: int| 0 <= j < i ==> ws@[j]@ != token@,
        decreases ws.len() - i,
    {
        if chars_eq_str(ws[i].as_slice(), token) {
            assert(seqs_of(ws@)[i as int] == token@);
            return true;
        }
        i = i + 1;
    }
    assert(!seqs_of(ws@).contains(token@));
    false
}

/// Returns `true` if `/etc/sudoers` text references a common admin group
/// (`%sudo`, `%wheel`, `%admin`); `None` (the file could not be read)
/// gives `false`.
///
/// This is a lightweight heuristic and does not parse `/etc/sudoers.d`,
/// aliases, includes, LDAP, SSSD, or command-specific rules.
pub fn has_common_admin_group(sudoers_text: Option<&str>) -> (b: bool)
    ensures
        b == (sudoers_text is Some && exists|k: int|
            0 <= k < lines(sudoers_text->0@).len() && sudoers_line_grants_admin(
                #[trigger] lines(sudoers_text->0@)[k],
            )),
{
    let text = match sudoers_text {
        Some(t) => t,
        None => return false,
    };
    let cs = chars_of(text);
    let ls = lines_chars(cs.as_slice());
    let ghost all = seqs_of(ls@);
    let mut i: usize = 0;
    while i < ls.len()
        invariant
            all == seqs_of(ls@),
            all == lines(text@),
            sudoers_text == Some(text),
            i <= ls.len(),
            forall|j: int| 0 <= j < i ==> !sudoers_line_grants_admin(#[trigger] all[j]),
        decreases ls.len() - i,
    {
        assert(all[i as int] == ls@[i as int]@);
        let t = trim_chars(ls[i].as_slice());
        if t.len() > 0 && t[0] != '#' {
            let ws = split_whitespace_chars(t.as_slice());
            if words_contain(&ws, "%sudo") || words_contain(&ws, "%wheel") || words_contain(
                &ws,
                "%admin",
            ) {
                assert(all.len() == ls@.len());
                assert(t@ == trim(all[i as int]));
                assert(words(t@).contains("%sudo"@) || words(t@).contains("%wheel"@) || words(
                    t@,
                ).contains("%admin"@));
                assert(sudoers_line_grants_admin(lines(text@)[i as int]));
                assert(sudoers_text == Some(text));
                assert((i as int) < lines(text@).len());
                assert(sudoers_text->0@ == text@);
                return true;
            }
        }
        i = i + 1;
    }
    false
}

/// The invoking user: the user id in `$SUDO_UID` when it is set and parses
/// as a `u32`, otherwise the current real user id.
pub fn invoking_uid(sudo_uid: Option<&str>, current_uid: Uid) -> (u: Uid)
    ensures
        u@ == (match sudo_uid {
            Some(s) => if parse_uint(s@, u32::MAX as nat) is Ok {
                parse_uint(s@, u32::MAX as nat)->Ok_0 as u32
            } else {
                current_uid@
            },
            None => current_uid@,
        }),
{
    match sudo_uid {
        Some(s) => {
            let cs = chars_of(s);
            match parse_u32(cs.as_slice()) {
                Some(v) => Uid::from_raw(v),
                None => current_uid,
            }
        },
        None => current_uid,
    }
}

/// The owner argument of `chown` for the given ids: `uid:gid`, `uid`, or
/// `:gid`; none when neither id is given.
pub open spec fn owner_arg_spec(uid: Option<Uid>, gid: Option<Gid>) -> Option<Seq<char>> {
    match (uid, gid) {
        (Some(u), Some(g)) => Some(decimal(u@ as nat) + ":"@ + decimal(g@ as nat)),
        (Some(u), None) => Some(decimal(u@ as nat)),
        (None, Some(g)) => Some(":"@ + decimal(g@ as nat)),
        (None, None) => None,
    }
}

/// The owner argument of `chown` for the given ids.
pub fn chown_owner_arg(uid: Option<Uid>, gid: Option<Gid>) -> (r: Option<String>)
    ensures
        match owner_arg_spec(uid, gid) {
            Some(a) => r matches Some(s) && s@ == a,
            None => r is None,
        },
{
    let mut v: Vec<char> = Vec::new();
    proof {
        reveal_strlit(":");
    }
    match (uid, gid) {
        (Some(u), Some(g)) => {
            push_decimal(&mut v, u.as_raw() as u64);
            v.push(':');
            push_decimal(&mut v, g.as_raw() as u64);
            assert(v@ =~= decimal(u@ as nat) + ":"@ + decimal(g@ as nat));
        },
        (Some(u), None) => {
            push_decimal(&mut v, u.as_raw() as u64);
            assert(v@ =~= decimal(u@ as nat));
        },
        (None, Some(g)) => {
            v.push(':');
            push_decimal(&mut v, g.as_raw() as u64);
            assert(v@ =~= ":"@ + decimal(g@ as nat));
        },
        (None, None) => {
            return None;
        },
    }
    Some(string_of(v.as_slice()))
}

/// The privileged fallback of a failed `chown`: `sudo chown <owner> <path>`;
/// none when neither id is given.
pub fn sudo_chown_command(path: &str, uid: Option<Uid>, gid: Option<Gid>) -> (r: Option<CmdSpec>)
    ensures
        match owner_arg_spec(uid, gid) {
            Some(a) => r matches Some(c) && c@ == (CmdSpecView {
                program: "chown"@,
                args: seq![a, path@],
                sudo: true,
                uid: None,
                gid: None,
            }),
            None => r is None,
        },
{
    match chown_owner_arg(uid, gid) {
        Some(owner) => {
            let c = CmdSpec::new("chown").arg(owner.as_str()).arg(path).sudo();
            assert(c@.args =~= seq![owner@, path@]);
            Some(c)
        },
        None => None,
    }
}

/// Whether the real user id is root.
pub fn is_root(uid: Uid) -> (b: bool)
    ensures
        b == (uid@ == 0),
{
    uid.is_root()
}

/// Whether the effective user id is root.
pub fn is_effective_root(euid: Uid) -> (b: bool)
    ensures
        b == (euid@ == 0),
{
    euid.is_root()
}

/// The owner ids for a change of ownership by names, from what looking the
/// names up found: a name that was given but not found is an error naming
/// it (the user first); a name that was not given leaves that id unchanged.
pub fn resolve_owner(
    username: Option<&str>,
    found_uid: Option<Uid>,
    groupname: Option<&str>,
    found_gid: Option<Gid>,
) -> (r: std::result::Result<(Option<Uid>, Option<Gid>), String>)
    ensures
        username matches Some(n) ==> (found_uid is None ==> (r matches Err(m) && m@
            == "user not found: "@ + n@)),
        !(username is Some && found_uid is None) ==> (groupname matches Some(g) ==> (found_gid
            is None ==> (r matches Err(m) && m@ == "group not found: "@ + g@))),
        !(username is Some && found_uid is None) && !(groupname is Some && found_gid is None)
            ==> (r matches Ok((u, g)) && u == (if username is Some {
            found_uid
        } else {
            None::<Uid>
        }) && g == (if groupname is Some {
            found_gid
        } else {
            None::<Gid>
        })),
{
    let uid = match username {
        Some(name) => match found_uid {
            Some(u) => Some(u),
            None => {
                return Err(crate::text::concat2("user not found: ", name));
            },
        },
        None => None,
    };
    let gid = match groupname {
        Some(name) => match found_gid {
            Some(g) => Some(g),
            None => {
                return Err(crate::text::concat2("group not found: ", name));
            },
        },
        None => None,
    };
    Ok((uid, gid))
}


/// The index of the first zero byte, if any.
pub open spec fn first_nul(b: Seq<u8>) -> Option<int> {
    if exists|i: int| 0 <= i < b.len() && b[i] == 0 {
        Some(choose|i: int| 0 <= i < b.len() && b[i] == 0 && forall|j: int| 0 <= j < i ==> b[j] != 0)
    } else {
        None
    }
}

/// What to do after `gethostname(2)` filled a buffer.
#[derive(Debug, Clone)]
pub enum HostnameStep {
    /// The name was terminated: here it is.
    Done(String),
    /// No terminator yet: call again with a buffer of this length.
    Grow(usize),
    /// No terminator within the largest buffer tried.
    Unterminated,
}

/// The largest hostname buffer that is tried.
pub const HOSTNAME_BUFFER_LIMIT: usize = 4096;

/// Decides on a hostname buffer that `gethostname(2)` filled: the text
/// before the first zero byte when there is one; otherwise a buffer twice as
/// long, until the buffer has reached the limit.
pub fn hostname_step(buffer: &[u8]) -> (r: HostnameStep)
    ensures
        match first_nul(buffer@) {
            Some(p) => r matches HostnameStep::Done(s) && s@ == crate::text::utf8_lossy(buffer@.take(p)),
            None => if buffer@.len() >= HOSTNAME_BUFFER_LIMIT {
                r is Unterminated
            } else {
                r matches HostnameStep::Grow(n) && n == 2 * buffer@.len()
            },
        },
{
    let mut i: usize = 0;
    while i < buffer.len()
        invariant
            i <= buffer.len(),
            forall|j: int| 0 <= j < i ==> buffer@[j] != 0,
        decreases buffer.len() - i,
    {
        if buffer[i] == 0 {
            let head = crate::services::http::prefix_bytes(buffer, i);
            let ghost p = choose|k: int| 0 <= k < buffer@.len() && buffer@[k] == 0 && forall|j: int|
                0 <= j < k ==> buffer@[j] != 0;
            assert(buffer@[i as int] == 0);
            assert(p == i) by {
                if p < i {
                    assert(buffer@[p] != 0);
                } else if p > i {
                    assert(buffer@[i as int] != 0);
                }
            }
            return HostnameStep::Done(crate::text::lossy_string(head.as_slice()));
        }
        i = i + 1;
    }
    if buffer.len() >= HOSTNAME_BUFFER_LIMIT {
        HostnameStep::Unterminated
    } else {
        HostnameStep::Grow(buffer.len() * 2)
    }
}

/// `EPERM`: the error `kill(2)` reports for a process that exists but may
/// not be signalled.
pub const EPERM: i32 = 1;

/// Whether a probe with signal 0 found the process: the call succeeded, or
/// it failed with `EPERM`.
pub fn probe_alive(kill_result: i32, errno: i32) -> (b: bool)
    ensures
        b == (kill_result == 0 || errno == EPERM),
{
    kill_result == 0 || errno == EPERM
}

/// The home directory: `$HOME` when it is set, otherwise the passwd entry's
/// directory.
pub fn home_dir_from(home_env: Option<String>, passwd_dir: Option<String>) -> (r: Option<String>)
    ensures
        r == (match home_env {
            Some(h) => Some(h),
            None => passwd_dir,
        }),
{
    match home_env {
        Some(h) => Some(h),
        None => passwd_dir,
    }
}


/// A sudoers line that is a `#` comment after trimming grants no admin
/// group, and text whose every line is such a comment or names none of
/// `%sudo`, `%wheel` and `%admin` as a token grants none either.
pub proof fn commented_sudoers_lines_grant_nothing(line: Seq<char>, text: Seq<char>)
    ensures
        has_prefix(trim(line), "#"@) ==> !sudoers_line_grants_admin(line),
        (forall|k: int| 0 <= k < lines(text).len() ==> has_prefix(trim(#[trigger] lines(text)[k]), "#"@) || !(
            words(trim(lines(text)[k])).contains("%sudo"@) || words(trim(lines(text)[k])).contains("%wheel"@)
                || words(trim(lines(text)[k])).contains("%admin"@))) ==> !(exists|k: int|
            0 <= k < lines(text).len() && sudoers_line_grants_admin(#[trigger] lines(text)[k])),
{
    reveal_strlit("#");
    if has_prefix(trim(line), "#"@) {
        assert(trim(line)[0] == "#"@[0]);
    }
    assert forall|k: int| 0 <= k < lines(text).len() && has_prefix(trim(#[trigger] lines(text)[k]), "#"@)
        implies !sudoers_line_grants_admin(lines(text)[k]) by {
        assert(trim(lines(text)[k])[0] == trim(lines(text)[k]).subrange(0, 1)[0]);
    }
}

} // verus!
