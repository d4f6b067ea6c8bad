//! OS helpers and common OS-related constants.
pub mod paths;
pub mod process;
pub mod unistd;
pub mod clock;
