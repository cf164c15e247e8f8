//! The C# target's lifecycle steps.

pub mod bootstrap;
pub mod enterprise;
pub mod auth;
pub mod transports;
pub mod tools;
pub mod setup_and_tests;
pub mod run_tests;
pub mod versions;
