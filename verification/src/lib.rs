//! Assembly and validation of a simple-account configuration.
//!
//! The library turns loosely-typed raw fields (byte buffers and numeric
//! codes) into a strictly validated configuration for a blockchain
//! "simple account" script: a validator program, a generator program, an
//! out-point locating the validator code, a type script, an optional lock
//! script, and a capacity value.

pub mod error;
pub mod model;
pub mod config;
pub mod packed;
