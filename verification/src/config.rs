//! Build-time configuration.

pub mod env;
