//! Authorization, authentication and log-pattern logic for the VisData module.

pub mod common;
pub mod config;
pub mod dex;
pub mod enterprise;
pub mod error;
pub mod log_patterns;
pub mod meta;
pub mod openfga;
pub mod setup;
pub mod sorted;
pub mod text;
