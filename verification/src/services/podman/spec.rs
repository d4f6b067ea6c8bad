//! Backend configuration and response wrappers for the Podman clients.
use vstd::prelude::*;

use crate::error::{Result, VeltrixError};
use crate::os::unistd::{Gid, Uid};
use crate::text::{join_path, path_join};

verus! {

/// Podman major version this library targets.
pub const SUPPORTED_PODMAN_MAJOR: u64 = 5;

/// Libpod API version used in socket request paths.
pub const SUPPORTED_LIBPOD_API_VERSION: &'static str = "5.0.0";

/// The user a rootless Podman socket belongs to.
#[derive(Debug, Clone)]
pub struct PodmanUser {
    pub uid: u32,
    pub gid: Option<u32>,
    pub username: Option<String>,
}

/// Podman CLI backend configuration.
#[derive(Debug, Clone)]
pub struct PodmanCliSpec {
    pub binary: String,
    pub sudo: bool,
    pub uid: Option<u32>,
    pub gid: Option<u32>,
}

impl PodmanCliSpec {
    /// The default CLI spec: `podman`, as the current user, without sudo.
    pub fn new() -> (s: Self)
        ensures
            s.binary@ == "podman"@,
            !s.sudo,
            s.uid is None,
            s.gid is None,
    {
        PodmanCliSpec { binary: "podman".to_owned(), sudo: false, uid: None, gid: None }
    }

    /// Set the podman executable.
    pub fn binary(self, binary: &str) -> (s: Self)
        ensures
            s.binary@ == binary@,
            s.sudo == self.sudo,
            s.uid == self.uid,
            s.gid == self.gid,
    {
        PodmanCliSpec { binary: binary.to_owned(), ..self }
    }

    /// Run podman through sudo.
    pub fn sudo(self) -> (s: Self)
        ensures
            s == (PodmanCliSpec { sudo: true, ..self }),
    {
        PodmanCliSpec { sudo: true, ..self }
    }

    /// Run podman as the user with this id.
    pub fn uid(self, uid: u32) -> (s: Self)
        ensures
            s == (PodmanCliSpec { uid: Some(uid), ..self }),
    {
        PodmanCliSpec { uid: Some(uid), ..self }
    }

    /// Run podman with this group id.
    pub fn gid(self, gid: u32) -> (s: Self)
        ensures
            s == (PodmanCliSpec { gid: Some(gid), ..self }),
    {
        PodmanCliSpec { gid: Some(gid), ..self }
    }

    /// Run podman as this user.
    pub fn user(self, uid: Uid) -> (s: Self)
        ensures
            s == (PodmanCliSpec { uid: Some(uid@), ..self }),
    {
        self.uid(uid.as_raw())
    }

    /// Run podman with this group.
    pub fn group(self, gid: Gid) -> (s: Self)
        ensures
            s == (PodmanCliSpec { gid: Some(gid@), ..self }),
    {
        self.gid(gid.as_raw())
    }
}

impl Default for PodmanCliSpec {
    fn default() -> (s: Self)
        ensures
            s.binary@ == "podman"@,
            !s.sudo,
            s.uid is None,
            s.gid is None,
    {
        PodmanCliSpec::new()
    }
}

/// Podman API socket configuration.
#[derive(Debug, Clone)]
pub struct PodmanSocketSpec {
    pub socket_path: String,
    pub user: Option<PodmanUser>,
}

impl PodmanSocketSpec {
    /// A spec for the socket at `socket_path`, with no user recorded.
    pub fn new(socket_path: &str) -> (s: Self)
        ensures
            s.socket_path@ == socket_path@,
            s.user is None,
    {
        PodmanSocketSpec { socket_path: socket_path.to_owned(), user: None }
    }

    /// Record the socket's user.
    pub fn user(self, user: PodmanUser) -> (s: Self)
        ensures
            s == (PodmanSocketSpec { user: Some(user), ..self }),
    {
        PodmanSocketSpec { user: Some(user), ..self }
    }

    /// The rootful socket, `/run/podman/podman.sock`.
    pub fn rootful_default() -> (s: Self)
        ensures
            s.socket_path@ == "/run/podman/podman.sock"@,
            s.user is None,
    {
        Self::new("/run/podman/podman.sock")
    }

    /// The rootless socket under the user's runtime directory
    /// (`$XDG_RUNTIME_DIR/podman/podman.sock`); without that variable it is an
    /// error.
    pub fn rootless_from_env(xdg_runtime_dir: Option<&str>) -> (r: Result<Self>)
        ensures
            xdg_runtime_dir is None ==> (r matches Err(VeltrixError::EnvMissing { name }) && name@
                == "XDG_RUNTIME_DIR"@),
            xdg_runtime_dir matches Some(d) ==> (r matches Ok(s) && s.socket_path@ == path_join(
                d@,
                "podman/podman.sock"@,
            ) && s.user is None),
    {
        match xdg_runtime_dir {
            None => Err(VeltrixError::env_missing("XDG_RUNTIME_DIR")),
            Some(d) => {
                let p = join_path(d, "podman/podman.sock");
                Ok(Self::new(p.as_str()))
            },
        }
    }
}

/// Metadata describing which Podman backend produced a response.
#[derive(Debug, Clone)]
pub enum PodmanBackendUsed {
    Cli { binary: String, sudo: bool, uid: Option<u32>, gid: Option<u32> },
    Socket { socket_path: String, user: Option<PodmanUser> },
    Compose { binary: String, compose_file: Option<String>, project_name: Option<String> },
    Machine { machine_name: Option<String> },
}

/// Response wrapper for Podman operations with data.
#[derive(Debug, Clone)]
pub struct PodmanResponse<T> {
    pub backend: PodmanBackendUsed,
    pub data: T,
}

impl<T> PodmanResponse<T> {
    /// Wraps `data` with the backend that produced it.
    pub fn new(data: T, backend: PodmanBackendUsed) -> (r: Self)
        ensures
            r.data == data,
            r.backend == backend,
    {
        PodmanResponse { data, backend }
    }
}

/// Response wrapper for successful Podman operations with no body.
#[derive(Debug, Clone)]
pub struct PodmanEmptyResponse {
    pub backend: PodmanBackendUsed,
}

impl PodmanEmptyResponse {
    /// An empty response from `backend`.
    pub fn new(backend: PodmanBackendUsed) -> (r: Self)
        ensures
            r.backend == backend,
    {
        PodmanEmptyResponse { backend }
    }
}

/// Container log output.
#[derive(Debug, Clone)]
pub struct PodmanLogs {
    pub output: String,
}

/// Output and exit code of a command run in a container.
#[derive(Debug, Clone)]
pub struct PodmanExecResult {
    pub output: String,
    pub exit_code: Option<i32>,
}

} // verus!
