//! Verified core of an OpenAPI-to-MCP-server project generator: identifier
//! naming, per-target template contexts, render plans and the
//! version-aware regions of generated projects.

pub mod text;
pub mod case;
pub mod auth_profile;
pub mod context;
pub mod project_config;
pub mod ledger;
pub mod marker_region;
pub mod words;
pub mod targets;
pub mod plan;
pub mod commands;
pub mod lifecycle;
