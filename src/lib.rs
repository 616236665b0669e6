//! Reading dumps of the first schema version as if they were of the second.

pub mod common;
pub mod compat;
pub mod ranking;
pub mod settings;
pub mod updates;
pub mod v1;
pub mod v2;
