//! A verified facade over a file-synchronization daemon's JSON-over-HTTP
//! statistics API: payload construction, response checking, and path
//! normalization, with contracts on every operation.
pub mod json;
pub mod paths;
pub mod stats;
pub mod text;
