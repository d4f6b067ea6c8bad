//! The Podman CLI client: the commands it runs and how a failed run reads.
use vstd::prelude::*;

use super::spec::{PodmanBackendUsed, PodmanCliSpec};
use crate::error::{Result, VeltrixError};
use crate::os::process::{CmdOutput, CmdSpec, CmdSpecView};
use crate::text::{concat2, lossy_string, utf8_lossy};

verus! {

/// `podman` as configured: through sudo when asked, as the configured user
/// and group, with `args`.
pub open spec fn podman_view(spec: PodmanCliSpec, args: Seq<Seq<char>>) -> CmdSpecView {
    CmdSpecView { program: spec.binary@, args, sudo: spec.sudo, uid: spec.uid, gid: spec.gid }
}

/// The command that starts every Podman CLI call.
pub fn base_cmd(spec: &PodmanCliSpec) -> (c: CmdSpec)
    ensures
        c@ == podman_view(*spec, Seq::empty()),
{
    let mut cmd = CmdSpec::new(spec.binary.as_str());
    if spec.sudo {
        cmd = cmd.sudo();
    }
    if let Some(uid) = spec.uid {
        cmd = cmd.uid(uid);
    }
    if let Some(gid) = spec.gid {
        cmd = cmd.gid(gid);
    }
    cmd
}

/// Podman CLI client.
#[derive(Debug, Clone)]
pub struct PodmanCliClient {
    spec: PodmanCliSpec,
}

impl PodmanCliClient {
    /// The configuration this client was made with.
    pub closed spec fn config(&self) -> PodmanCliSpec {
        self.spec
    }

    /// A client for `spec`.
    pub fn new(spec: PodmanCliSpec) -> (c: Self)
        ensures
            c.config() == spec,
    {
        PodmanCliClient { spec }
    }

    /// The underlying spec.
    pub fn spec(&self) -> (s: &PodmanCliSpec)
        ensures
            *s == self.config(),
    {
        &self.spec
    }

    /// The backend recorded in this client's responses.
    pub fn backend_used(&self) -> (b: PodmanBackendUsed)
        ensures
            b matches PodmanBackendUsed::Cli { binary, sudo, uid, gid } && binary@
                == self.config().binary@ && sudo == self.config().sudo && uid == self.config().uid
                && gid == self.config().gid,
    {
        PodmanBackendUsed::Cli {
            binary: self.spec.binary.clone(),
            sudo: self.spec.sudo,
            uid: self.spec.uid,
            gid: self.spec.gid,
        }
    }

    /// `podman info --format json`.
    pub fn info(&self) -> (c: CmdSpec)
        ensures
            c@ == podman_view(self.config(), seq!["info"@, "--format"@, "json"@]),
    {
        let c = base_cmd(&self.spec).arg3("info", "--format", "json");
        assert(c@.args =~= seq!["info"@, "--format"@, "json"@]);
        c
    }

    /// `podman version --format json`.
    pub fn version(&self) -> (c: CmdSpec)
        ensures
            c@ == podman_view(self.config(), seq!["version"@, "--format"@, "json"@]),
    {
        let c = base_cmd(&self.spec).arg3("version", "--format", "json");
        assert(c@.args =~= seq!["version"@, "--format"@, "json"@]);
        c
    }

    /// `podman ps --all --format json`.
    pub fn containers(&self) -> (c: CmdSpec)
        ensures
            c@ == podman_view(self.config(), seq!["ps"@, "--all"@, "--format"@, "json"@]),
    {
        let c = base_cmd(&self.spec).arg4("ps", "--all", "--format", "json");
        assert(c@.args =~= seq!["ps"@, "--all"@, "--format"@, "json"@]);
        c
    }
}

/// A Podman CLI run is usable when it succeeded; a failed run is a config
/// error carrying its standard error.
pub fn cli_status(out: &CmdOutput) -> (r: Result<()>)
    ensures
        out.success ==> r is Ok,
        !out.success ==> (r matches Err(VeltrixError::ConfigInvalid { reason }) && reason@
            == "podman cli failed: "@ + utf8_lossy(out.stderr@)),
{
    if out.success {
        Ok(())
    } else {
        let e = lossy_string(out.stderr.as_slice());
        let m = concat2("podman cli failed: ", e.as_str());
        Err(VeltrixError::config_invalid(m.as_str()))
    }
}

} // verus!
