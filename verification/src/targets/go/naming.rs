//! Case conversions used across the Go templates: `PascalCase` for the
//! identifiers Go exports across package boundaries, `camelCase` for the
//! unexported ones, and `SCREAMING_SNAKE_CASE` for env var prefixes.

use crate::case::{heck_lower_camel, heck_pascal, heck_shouty_snake};
use vstd::prelude::*;

verus! {

/// `PascalCase` form of `input`.
pub fn pascal_case(input: &str) -> (r: String)
    ensures
        r@ == heck_pascal(input@),
{
    crate::case::to_pascal(input)
}

/// `camelCase` form of `input`.
pub fn camel_case(input: &str) -> (r: String)
    ensures
        r@ == heck_lower_camel(input@),
{
    crate::case::to_lower_camel(input)
}

/// `SCREAMING_SNAKE_CASE` form of `input`.
pub fn screaming_snake_case(input: &str) -> (r: String)
    ensures
        r@ == heck_shouty_snake(input@),
{
    crate::case::to_shouty_snake(input)
}

} // verus!
