//! Podman integration: CLI commands, API socket paths, labels and Quadlet
//! unit files.
pub mod cli;
pub mod labels;
pub mod quadlet;
pub mod socket;
pub mod spec;

pub use cli::PodmanCliClient;
pub use labels::{labels_to_cli_args, PodmanLabel, PodmanLabels};
pub use quadlet::{PodmanAutoUpdatePolicy, QuadletUnit, QuadletUnitKind, PODMAN_AUTO_UPDATE_LABEL};
pub use socket::PodmanSocketClient;
pub use spec::{
    PodmanBackendUsed, PodmanCliSpec, PodmanEmptyResponse, PodmanExecResult, PodmanLogs,
    PodmanResponse, PodmanSocketSpec, PodmanUser, SUPPORTED_LIBPOD_API_VERSION,
    SUPPORTED_PODMAN_MAJOR,
};
