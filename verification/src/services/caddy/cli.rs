//! The Caddy CLI client: the `caddy` subcommands it runs and how their
//! output is read.
use vstd::prelude::*;

use super::spec::{CaddyBackendUsed, CaddyCliOutput, CaddyCliSpec};
use crate::error::{Result, VeltrixError};
use crate::os::process::{push_string, strings_view, CmdOutput, CmdSpec, CmdSpecView};
use crate::text::{concat2, lossy_string, trim, trim_str, utf8_error_text, utf8_lossy, utf8_string};

verus! {

/// The texts of a slice of string slices.
pub open spec fn strs_view(v: Seq<&str>) -> Seq<Seq<char>> {
    Seq::new(v.len(), |i: int| v[i]@)
}

/// `prefix` followed by `args`, as owned strings.
pub fn prefixed_args(prefix: &[&str], args: &[&str]) -> (r: Vec<String>)
    ensures
        strings_view(r@) == strs_view(prefix@) + strs_view(args@),
{
    let mut out: Vec<String> = Vec::new();
    let mut i: usize = 0;
    while i < prefix.len()
        invariant
            i <= prefix.len(),
            strings_view(out@) == strs_view(prefix@).take(i as int),
        decreases prefix.len() - i,
    {
        push_string(&mut out, prefix[i]);
        assert(strings_view(out@) =~= strs_view(prefix@).take(i + 1));
        i = i + 1;
    }
    let mut j: usize = 0;
    while j < args.len()
        invariant
            j <= args.len(),
            strings_view(out@) == strs_view(prefix@) + strs_view(args@).take(j as int),
        decreases args.len() - j,
    {
        push_string(&mut out, args[j]);
        assert(strings_view(out@) =~= strs_view(prefix@) + strs_view(args@).take(j + 1));
        j = j + 1;
    }
    assert(strs_view(prefix@).take(prefix.len() as int) =~= strs_view(prefix@));
    assert(strs_view(args@).take(args.len() as int) =~= strs_view(args@));
    out
}

/// `caddy <subcommand> <args...>` as configured.
pub open spec fn caddy_view(spec: CaddyCliSpec, sub: Seq<char>, args: Seq<Seq<char>>) -> CmdSpecView {
    CmdSpecView { program: spec.binary@, args: seq![sub] + args, sudo: false, uid: None, gid: None }
}

/// Caddy CLI client.
#[derive(Debug, Clone)]
pub struct CaddyCliClient {
    spec: CaddyCliSpec,
}

impl CaddyCliClient {
    /// The configuration this client was made with.
    pub closed spec fn config(&self) -> CaddyCliSpec {
        self.spec
    }

    /// A client for `spec`.
    pub fn new(spec: CaddyCliSpec) -> (c: Self)
        ensures
            c.config() == spec,
    {
        CaddyCliClient { spec }
    }

    /// The underlying spec.
    pub fn spec(&self) -> (s: &CaddyCliSpec)
        ensures
            *s == self.config(),
    {
        &self.spec
    }

    /// The backend recorded in this client's responses.
    pub fn backend_used(&self) -> (b: CaddyBackendUsed)
        ensures
            b matches CaddyBackendUsed::Cli { binary } && binary@ == self.config().binary@,
    {
        CaddyBackendUsed::Cli { binary: self.spec.binary.clone() }
    }

    fn command(&self, sub: &str, args: &[&str]) -> (c: CmdSpec)
        ensures
            c@ == caddy_view(self.config(), sub@, strs_view(args@)),
    {
        let prefix = [sub];
        let all = prefixed_args(&prefix, args);
        assert(strs_view(prefix@) =~= seq![sub@]);
        let c = CmdSpec::new(self.spec.binary.as_str()).args(all);
        assert(c@.args =~= seq![sub@] + strs_view(args@));
        c
    }

    /// `caddy validate <args...>`.
    pub fn validate(&self, args: &[&str]) -> (c: CmdSpec)
        ensures
            c@ == caddy_view(self.config(), "validate"@, strs_view(args@)),
    {
        self.command("validate", args)
    }

    /// `caddy fmt <args...>`.
    pub fn fmt(&self, args: &[&str]) -> (c: CmdSpec)
        ensures
            c@ == caddy_view(self.config(), "fmt"@, strs_view(args@)),
    {
        self.command("fmt", args)
    }

    /// `caddy reload <args...>`.
    pub fn reload(&self, args: &[&str]) -> (c: CmdSpec)
        ensures
            c@ == caddy_view(self.config(), "reload"@, strs_view(args@)),
    {
        self.command("reload", args)
    }

    /// `caddy stop <args...>`.
    pub fn stop(&self, args: &[&str]) -> (c: CmdSpec)
        ensures
            c@ == caddy_view(self.config(), "stop"@, strs_view(args@)),
    {
        self.command("stop", args)
    }

    /// `caddy run <args...>`; it blocks while Caddy stays in the foreground.
    pub fn run(&self, args: &[&str]) -> (c: CmdSpec)
        ensures
            c@ == caddy_view(self.config(), "run"@, strs_view(args@)),
    {
        self.command("run", args)
    }

    /// `caddy adapt <args...>`.
    pub fn adapt(&self, args: &[&str]) -> (c: CmdSpec)
        ensures
            c@ == caddy_view(self.config(), "adapt"@, strs_view(args@)),
    {
        self.command("adapt", args)
    }

    /// `caddy hash-password <args...>`.
    pub fn hash_password(&self, args: &[&str]) -> (c: CmdSpec)
        ensures
            c@ == caddy_view(self.config(), "hash-password"@, strs_view(args@)),
    {
        self.command("hash-password", args)
    }
}

/// What a `caddy` command printed. A failed command is a `caddy` service
/// error with its trimmed standard error; output that is not UTF-8 is a
/// parse error.
pub fn cli_output(out: CmdOutput) -> (r: Result<CaddyCliOutput>)
    ensures
        !out.success ==> (r matches Err(VeltrixError::Service { service, reason }) && service@
            == "caddy"@ && reason@ == trim(utf8_lossy(out.stderr@))),
        out.success && !vstd::utf8::valid_utf8(out.stdout@) ==> (r matches Err(
            VeltrixError::Parsing { reason },
        ) && reason@ == "invalid caddy stdout: "@ + utf8_error_text(out.stdout@)),
        out.success && vstd::utf8::valid_utf8(out.stdout@) && !vstd::utf8::valid_utf8(out.stderr@)
            ==> (r matches Err(VeltrixError::Parsing { reason }) && reason@
            == "invalid caddy stderr: "@ + utf8_error_text(out.stderr@)),
        out.success && vstd::utf8::valid_utf8(out.stdout@) && vstd::utf8::valid_utf8(out.stderr@)
            ==> (r matches Ok(o) && o.stdout@ == vstd::utf8::decode_utf8(out.stdout@) && o.stderr@
            == vstd::utf8::decode_utf8(out.stderr@)),
{
    if !out.success {
        let text = lossy_string(out.stderr.as_slice());
        let reason = trim_str(text.as_str());
        return Err(VeltrixError::service("caddy", reason.as_str()));
    }
    let stdout = match utf8_string(out.stdout) {
        Ok(s) => s,
        Err(m) => {
            let r = concat2("invalid caddy stdout: ", m.as_str());
            return Err(VeltrixError::parsing(r.as_str()));
        },
    };
    let stderr = match utf8_string(out.stderr) {
        Ok(s) => s,
        Err(m) => {
            let r = concat2("invalid caddy stderr: ", m.as_str());
            return Err(VeltrixError::parsing(r.as_str()));
        },
    };
    Ok(CaddyCliOutput { stdout, stderr })
}

} // verus!
