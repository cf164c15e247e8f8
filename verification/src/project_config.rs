//! Per-project settings read from the generated project's manifest.

use vstd::prelude::*;

verus! {

/// A static request header sent to the target API on every call.
#[derive(Debug, PartialEq, Eq)]
pub struct HeaderSetting {
    pub name: String,
    pub value: String,
}

/// Package publication metadata.
#[derive(Debug, PartialEq, Eq)]
pub struct PublicationMetadata {
    pub license: String,
    pub repository: Option<String>,
    pub authors: Vec<String>,
    pub keywords: Vec<String>,
    pub categories: Vec<String>,
    pub excludes: Vec<String>,
    pub package_size_limit_mb: Option<u64>,
}

/// The settings a project manifest supplies.
#[derive(Debug, PartialEq, Eq)]
pub struct ProjectSettings {
    pub default_headers: Vec<HeaderSetting>,
    pub publication: PublicationMetadata,
}

} // verus!
