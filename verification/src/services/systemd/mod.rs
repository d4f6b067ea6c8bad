//! systemd integration through `systemctl`, `journalctl` and `busctl`.
pub mod cli;
pub mod dbus;
pub mod spec;
pub mod types;

pub use cli::SystemdCliClient;
pub use dbus::SystemdDbusClient;
pub use spec::{
    SystemdBackendUsed, SystemdCliSpec, SystemdDbusSpec, SystemdEmptyResponse, SystemdResponse,
};
pub use types::{
    SystemdDependency, SystemdJob, SystemdJournal, SystemdJournalEntry, SystemdResourceLimit,
    SystemdUnitFile, SystemdUnitStatus, SystemdUnitSummary,
};
