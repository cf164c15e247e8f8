//! The five output-language targets.

pub mod typescript;
pub mod rust;
pub mod go;
pub mod python;
pub mod csharp;
