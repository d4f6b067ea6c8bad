//! Veltrix: small utilities for paths, processes, services, and platform helpers,
//! with their behaviour stated as contracts and checked by Verus.
use vstd::prelude::*;

pub mod codegen;
pub mod data;
pub mod error;
pub mod os;
pub mod paths;
pub mod services;
pub mod text;
pub mod users;

pub use error::{Result, VeltrixError as Error};

verus! {
} // verus!
