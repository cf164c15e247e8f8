//! The Go target (`-l go`).

pub mod naming;
pub mod context;
pub mod steps;
