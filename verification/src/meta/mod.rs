//! Request and response types of the management API, and audit records.

pub mod audit;
pub mod types;
