//! The Rust target's lifecycle steps; this crate has no bootstrap or auth step module.

pub mod enterprise;
pub mod transports;
pub mod tools;
pub mod run_tests;
pub mod versions;
