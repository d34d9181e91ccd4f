//! Log pattern extraction: token type recognition and clustering of log lines into
//! templates.

pub mod accumulator;
pub mod config;
pub mod extractor;
pub mod sdr;
pub mod types;
