//! Bounded, order-preserving file hashing: the decisions of the pipeline,
//! verified, with the hashing and hex encoding delegated to outside crates.

pub mod config;
pub mod hashers;
pub mod job;
pub mod output;
pub mod text;
pub mod window;
