//! Measurements of the host, taken one at a time and kept as JSON: a single record, or a
//! sequence of records that grows by one with every cycle.

pub mod container;
pub mod error;
pub mod field;
pub mod json;
pub mod laws;
pub mod outside;
pub mod systeminfo;
