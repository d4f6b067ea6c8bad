//! Backend configuration and response wrappers for the systemd clients.
use vstd::prelude::*;

verus! {

/// systemd CLI backend configuration.
#[derive(Debug, Clone)]
pub struct SystemdCliSpec {
    /// systemctl executable name or path.
    pub systemctl: String,
    /// journalctl executable name or path.
    pub journalctl: String,
    /// Whether commands target the user service manager.
    pub user: bool,
    /// Whether to execute through sudo.
    pub sudo: bool,
}

/// systemd D-Bus backend configuration.
#[derive(Debug, Clone)]
pub struct SystemdDbusSpec {
    /// busctl executable name or path.
    pub busctl: String,
    /// Whether commands target the user service manager.
    pub user: bool,
    /// Whether to execute busctl through sudo.
    pub sudo: bool,
}

impl SystemdDbusSpec {
    /// The default D-Bus spec: `busctl` on the system manager, without sudo.
    pub fn new() -> (s: Self)
        ensures
            s.busctl@ == "busctl"@,
            !s.user,
            !s.sudo,
    {
        SystemdDbusSpec { busctl: "busctl".to_owned(), user: false, sudo: false }
    }

    /// Target the user service manager.
    pub fn user(self) -> (s: Self)
        ensures
            s == (SystemdDbusSpec { user: true, ..self }),
    {
        SystemdDbusSpec { user: true, ..self }
    }

    /// Execute busctl through sudo.
    pub fn sudo(self) -> (s: Self)
        ensures
            s == (SystemdDbusSpec { sudo: true, ..self }),
    {
        SystemdDbusSpec { sudo: true, ..self }
    }

    /// Set the busctl executable.
    pub fn busctl(self, binary: &str) -> (s: Self)
        ensures
            s.busctl@ == binary@,
            s.user == self.user,
            s.sudo == self.sudo,
    {
        SystemdDbusSpec { busctl: binary.to_owned(), ..self }
    }
}

impl SystemdCliSpec {
    /// The default CLI spec: `systemctl` and `journalctl` on the system
    /// manager, without sudo.
    pub fn new() -> (s: Self)
        ensures
            s.systemctl@ == "systemctl"@,
            s.journalctl@ == "journalctl"@,
            !s.user,
            !s.sudo,
    {
        SystemdCliSpec {
            systemctl: "systemctl".to_owned(),
            journalctl: "journalctl".to_owned(),
            user: false,
            sudo: false,
        }
    }

    /// Target the user service manager.
    pub fn user(self) -> (s: Self)
        ensures
            s == (SystemdCliSpec { user: true, ..self }),
    {
        SystemdCliSpec { user: true, ..self }
    }

    /// Execute commands through sudo.
    pub fn sudo(self) -> (s: Self)
        ensures
            s == (SystemdCliSpec { sudo: true, ..self }),
    {
        SystemdCliSpec { sudo: true, ..self }
    }

    /// Set the systemctl executable.
    pub fn systemctl(self, binary: &str) -> (s: Self)
        ensures
            s.systemctl@ == binary@,
            s.journalctl == self.journalctl,
            s.user == self.user,
            s.sudo == self.sudo,
    {
        SystemdCliSpec { systemctl: binary.to_owned(), ..self }
    }

    /// Set the journalctl executable.
    pub fn journalctl(self, binary: &str) -> (s: Self)
        ensures
            s.journalctl@ == binary@,
            s.systemctl == self.systemctl,
            s.user == self.user,
            s.sudo == self.sudo,
    {
        SystemdCliSpec { journalctl: binary.to_owned(), ..self }
    }
}

/// Metadata describing the systemd backend used for a response.
#[derive(Debug, Clone)]
pub enum SystemdBackendUsed {
    /// systemctl/journalctl CLI backend.
    Cli { user: bool, sudo: bool },
    /// org.freedesktop.systemd1 D-Bus backend via busctl.
    Dbus {
        /// Whether the user manager bus was used.
        user: bool,
        /// Whether busctl was executed through sudo.
        sudo: bool,
        /// busctl executable name or path.
        busctl: String,
    },
}

/// Response wrapper for systemd operations with data.
#[derive(Debug, Clone)]
pub struct SystemdResponse<T> {
    pub backend: SystemdBackendUsed,
    pub data: T,
}

impl<T> SystemdResponse<T> {
    /// Wraps `data` with the backend that produced it.
    pub fn new(data: T, backend: SystemdBackendUsed) -> (r: Self)
        ensures
            r.data == data,
            r.backend == backend,
    {
        SystemdResponse { backend, data }
    }
}

/// Response wrapper for successful systemd operations with no body.
#[derive(Debug, Clone)]
pub struct SystemdEmptyResponse {
    pub backend: SystemdBackendUsed,
}

impl SystemdEmptyResponse {
    /// An empty response from `backend`.
    pub fn new(backend: SystemdBackendUsed) -> (r: Self)
        ensures
            r.backend == backend,
    {
        SystemdEmptyResponse { backend }
    }
}

} // verus!
