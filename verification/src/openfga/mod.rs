//! Authorization through OpenFGA: tuple vocabulary, resource catalogue and tuple builders.

pub mod error;
pub mod types;
pub mod schema;
pub mod tuples;
pub mod catalog;
pub mod reads;
pub mod roles;
pub mod groups;
pub mod checker;
pub mod client;
pub mod authorizer;
pub mod laws;
pub mod resources;
pub mod mapping;
pub mod config;
