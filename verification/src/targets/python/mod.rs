//! The Python target (`-l python`).

pub mod naming;
pub mod context;
pub mod steps;
