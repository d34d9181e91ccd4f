//! Authentication through Dex: settings, permission vocabulary, request types and the
//! pure steps of the token and connector flows.

pub mod config;
pub mod connector;
pub mod auth;
pub mod error;
pub mod jwk;
pub mod jwt;
pub mod login;
pub mod token;
pub mod types;
