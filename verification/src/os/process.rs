//! Command specifications: what to run, with which arguments, as whom.
use vstd::prelude::*;

use crate::error::{Result, VeltrixError};
use crate::os::unistd::{Gid, Uid};
use crate::text::{
    concat2, decimal, lossy_string, push_decimal, string_of, trim, trim_str, utf8_error_text,
    utf8_lossy, utf8_string,
};

verus! {

/// The texts of a vector of strings.
pub open spec fn strings_view(v: Seq<String>) -> Seq<Seq<char>> {
    Seq::new(v.len(), |i: int| v[i]@)
}

/// A command to run: program, arguments, and how to elevate or switch user.
#[derive(Debug, Clone)]
pub struct CmdSpec {
    /// Program name or path.
    pub program: String,
    /// Arguments after the program.
    pub args: Vec<String>,
    /// Run through `sudo`.
    pub sudo: bool,
    /// User to run as.
    pub uid: Option<u32>,
    /// Group to run as.
    pub gid: Option<u32>,
}

/// The abstract content of a [`CmdSpec`].
pub struct CmdSpecView {
    pub program: Seq<char>,
    pub args: Seq<Seq<char>>,
    pub sudo: bool,
    pub uid: Option<u32>,
    pub gid: Option<u32>,
}

impl View for CmdSpec {
    type V = CmdSpecView;

    open spec fn view(&self) -> CmdSpecView {
        CmdSpecView {
            program: self.program@,
            args: strings_view(self.args@),
            sudo: self.sudo,
            uid: self.uid,
            gid: self.gid,
        }
    }
}

/// The process to start for a command: the program, its full argument list,
/// and the user and group to switch to when starting it.
#[derive(Debug, Clone)]
pub struct Invocation {
    pub program: String,
    pub args: Vec<String>,
    pub uid: Option<u32>,
    pub gid: Option<u32>,
}

/// `#` followed by a decimal id: sudo's syntax for a numeric user or group.
pub open spec fn numeric_id(n: u32) -> Seq<char> {
    "#"@ + decimal(n as nat)
}

/// The arguments sudo is given for a command: `-u #uid` and `-g #gid` when
/// set, then `--`, the program and its arguments.
pub open spec fn sudo_args(c: CmdSpecView) -> Seq<Seq<char>> {
    (if c.uid is Some {
        seq!["-u"@, numeric_id(c.uid->0)]
    } else {
        Seq::empty()
    }) + (if c.gid is Some {
        seq!["-g"@, numeric_id(c.gid->0)]
    } else {
        Seq::empty()
    }) + seq!["--"@, c.program] + c.args
}

pub(crate) fn push_string(v: &mut Vec<String>, s: &str)
    ensures
        strings_view(final(v)@) == strings_view(old(v)@).push(s@),
{
    let ghost before = strings_view(v@);
    v.push(s.to_owned());
    assert(strings_view(v@) =~= before.push(s@));
}

fn numeric_id_string(n: u32) -> (s: String)
    ensures
        s@ == numeric_id(n),
{
    let mut v: Vec<char> = Vec::new();
    v.push('#');
    push_decimal(&mut v, n as u64);
    proof {
        reveal_strlit("#");
    }
    assert(v@ =~= numeric_id(n));
    string_of(v.as_slice())
}

impl CmdSpec {
    /// A command running `program` with no arguments, as the current user.
    pub fn new(program: &str) -> (c: Self)
        ensures
            c@.program == program@,
            c@.args == Seq::<Seq<char>>::empty(),
            !c@.sudo,
            c@.uid is None,
            c@.gid is None,
    {
        let c = CmdSpec { program: program.to_owned(), args: Vec::new(), sudo: false, uid: None, gid: None };
        assert(c@.args =~= Seq::<Seq<char>>::empty());
        c
    }

    /// Appends one argument.
    pub fn arg(self, arg: &str) -> (c: Self)
        ensures
            c@ == (CmdSpecView { args: self@.args.push(arg@), ..self@ }),
    {
        let mut c = self;
        push_string(&mut c.args, arg);
        c
    }

    /// Appends arguments in order.
    pub fn args(self, args: Vec<String>) -> (c: Self)
        ensures
            c@ == (CmdSpecView { args: self@.args + strings_view(args@), ..self@ }),
    {
        let mut c = self;
        let ghost start = strings_view(c.args@);
        let mut i: usize = 0;
        while i < args.len()
            invariant
                i <= args.len(),
                c@ == (CmdSpecView { args: start + strings_view(args@).take(i as int), ..self@ }),
            decreases args.len() - i,
        {
            push_string(&mut c.args, args[i].as_str());
            assert(strings_view(args@).take(i + 1) =~= strings_view(args@).take(i as int).push(
                args@[i as int]@,
            ));
            assert(c@.args =~= start + strings_view(args@).take(i + 1));
            i = i + 1;
        }
        assert(strings_view(args@).take(args.len() as int) =~= strings_view(args@));
        c
    }

    /// If true, the command is executed via `sudo` regardless of current UID.
    /// This ensures consistent behavior across environments.
    pub fn sudo(self) -> (c: Self)
        ensures
            c@ == (CmdSpecView { sudo: true, ..self@ }),
    {
        let mut c = self;
        c.sudo = true;
        c
    }

    /// Run as the user with this id.
    pub fn uid(self, uid: u32) -> (c: Self)
        ensures
            c@ == (CmdSpecView { uid: Some(uid), ..self@ }),
    {
        let mut c = self;
        c.uid = Some(uid);
        c
    }

    /// Run with this group id.
    pub fn gid(self, gid: u32) -> (c: Self)
        ensures
            c@ == (CmdSpecView { gid: Some(gid), ..self@ }),
    {
        let mut c = self;
        c.gid = Some(gid);
        c
    }

    /// Run as this user.
    pub fn uid_unistd(self, uid: Uid) -> (c: Self)
        ensures
            c@ == (CmdSpecView { uid: Some(uid@), ..self@ }),
    {
        self.uid(uid.as_raw())
    }

    /// Run with this group.
    pub fn gid_unistd(self, gid: Gid) -> (c: Self)
        ensures
            c@ == (CmdSpecView { gid: Some(gid@), ..self@ }),
    {
        self.gid(gid.as_raw())
    }

    /// Run as this user.
    pub fn user(self, uid: Uid) -> (c: Self)
        ensures
            c@ == (CmdSpecView { uid: Some(uid@), ..self@ }),
    {
        self.uid(uid.as_raw())
    }

    /// Run with this group.
    pub fn group(self, gid: Gid) -> (c: Self)
        ensures
            c@ == (CmdSpecView { gid: Some(gid@), ..self@ }),
    {
        self.gid(gid.as_raw())
    }

    /// The process that runs this command. Through sudo, the process is
    /// `sudo` with [`sudo_args`] and no user switch of its own; otherwise it
    /// is the program itself, switched to the command's user and group.
    pub fn invocation(&self) -> (inv: Invocation)
        ensures
            self.sudo ==> inv.program@ == "sudo"@ && strings_view(inv.args@) == sudo_args(self@)
                && inv.uid is None && inv.gid is None,
            !self.sudo ==> inv.program@ == self.program@ && strings_view(inv.args@) == self@.args
                && inv.uid == self.uid && inv.gid == self.gid,
    {
        if self.sudo {
            let mut args: Vec<String> = Vec::new();
            if let Some(uid) = self.uid {
                push_string(&mut args, "-u");
                let n = numeric_id_string(uid);
                push_string(&mut args, n.as_str());
            }
            if let Some(gid) = self.gid {
                push_string(&mut args, "-g");
                let n = numeric_id_string(gid);
                push_string(&mut args, n.as_str());
            }
            push_string(&mut args, "--");
            push_string(&mut args, self.program.as_str());
            let ghost pre = strings_view(args@);
            let mut i: usize = 0;
            while i < self.args.len()
                invariant
                    i <= self.args.len(),
                    strings_view(args@) == pre + strings_view(self.args@).take(i as int),
                decreases self.args.len() - i,
            {
                push_string(&mut args, self.args[i].as_str());
                assert(strings_view(self.args@).take(i + 1) =~= strings_view(self.args@).take(
                    i as int,
                ).push(self.args@[i as int]@));
                assert(strings_view(args@) =~= pre + strings_view(self.args@).take(i + 1));
                i = i + 1;
            }
            assert(strings_view(self.args@).take(self.args.len() as int) =~= strings_view(
                self.args@,
            ));
            assert(strings_view(args@) =~= sudo_args(self@));
            Invocation { program: "sudo".to_owned(), args, uid: None, gid: None }
        } else {
            Invocation {
                program: self.program.clone(),
                args: self.args.clone(),
                uid: self.uid,
                gid: self.gid,
            }
        }
    }
}

/// What a finished command reported: whether it exited successfully, and the
/// bytes it wrote to standard output and standard error.
#[derive(Debug, Clone)]
pub struct CmdOutput {
    pub success: bool,
    pub stdout: Vec<u8>,
    pub stderr: Vec<u8>,
}

/// The text of a finished command's standard output. A failed command is a
/// `service` error carrying its trimmed standard error; output that is not
/// UTF-8 is a parse error whose reason is `what` followed by the decoding
/// error.
pub fn command_output(out: &CmdOutput, service: &str, what: &str) -> (r: Result<String>)
    ensures
        !out.success ==> (r matches Err(VeltrixError::Service { service: s, reason }) && s@
            == service@ && reason@ == trim(utf8_lossy(out.stderr@))),
        out.success && vstd::utf8::valid_utf8(out.stdout@) ==> (r matches Ok(text) && text@
            == vstd::utf8::decode_utf8(out.stdout@)),
        out.success && !vstd::utf8::valid_utf8(out.stdout@) ==> (r matches Err(
            VeltrixError::Parsing { reason },
        ) && reason@ == what@ + utf8_error_text(out.stdout@)),
{
    if !out.success {
        let text = lossy_string(out.stderr.as_slice());
        let reason = trim_str(text.as_str());
        return Err(VeltrixError::service(service, reason.as_str()));
    }
    match utf8_string(out.stdout.clone()) {
        Ok(text) => Ok(text),
        Err(m) => {
            let reason = concat2(what, m.as_str());
            Err(VeltrixError::parsing(reason.as_str()))
        },
    }
}

impl CmdSpec {
    /// Appends two arguments.
    pub(crate) fn arg2(self, a: &str, b: &str) -> (c: Self)
        ensures
            c@ == (CmdSpecView { args: self@.args + seq![a@, b@], ..self@ }),
    {
        let c = self.arg(a).arg(b);
        assert(c@.args =~= self@.args + seq![a@, b@]);
        c
    }

    /// Appends three arguments.
    pub(crate) fn arg3(self, a: &str, b: &str, d: &str) -> (c: Self)
        ensures
            c@ == (CmdSpecView { args: self@.args + seq![a@, b@, d@], ..self@ }),
    {
        let c = self.arg(a).arg(b).arg(d);
        assert(c@.args =~= self@.args + seq![a@, b@, d@]);
        c
    }

    /// Appends four arguments.
    pub(crate) fn arg4(self, a: &str, b: &str, d: &str, e: &str) -> (c: Self)
        ensures
            c@ == (CmdSpecView { args: self@.args + seq![a@, b@, d@, e@], ..self@ }),
    {
        let c = self.arg(a).arg(b).arg(d).arg(e);
        assert(c@.args =~= self@.args + seq![a@, b@, d@, e@]);
        c
    }

    /// Appends five arguments.
    pub(crate) fn arg5(self, a: &str, b: &str, d: &str, e: &str, f: &str) -> (c: Self)
        ensures
            c@ == (CmdSpecView { args: self@.args + seq![a@, b@, d@, e@, f@], ..self@ }),
    {
        let c = self.arg(a).arg(b).arg(d).arg(e).arg(f);
        assert(c@.args =~= self@.args + seq![a@, b@, d@, e@, f@]);
        c
    }

    /// Appends six arguments.
    pub(crate) fn arg6(self, a: &str, b: &str, d: &str, e: &str, f: &str, g: &str) -> (c: Self)
        ensures
            c@ == (CmdSpecView { args: self@.args + seq![a@, b@, d@, e@, f@, g@], ..self@ }),
    {
        let c = self.arg(a).arg(b).arg(d).arg(e).arg(f).arg(g);
        assert(c@.args =~= self@.args + seq![a@, b@, d@, e@, f@, g@]);
        c
    }
}

} // verus!
