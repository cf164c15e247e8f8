//! Case conversions used across the TypeScript templates (package names,
//! class names, env var prefixes), all going through one place.

use crate::case::{heck_kebab, heck_lower_camel, heck_pascal, heck_shouty_snake};
use vstd::prelude::*;

verus! {

/// `kebab-case` form of `input`.
pub fn kebab_case(input: &str) -> (r: String)
    ensures
        r@ == heck_kebab(input@),
{
    crate::case::to_kebab(input)
}

/// `PascalCase` form of `input`.
pub fn pascal_case(input: &str) -> (r: String)
    ensures
        r@ == heck_pascal(input@),
{
    crate::case::to_pascal(input)
}

/// `camelCase` form of `input`.
pub fn camel_case(input: &str) -> (r: String)
    ensures
        r@ == heck_lower_camel(input@),
{
    crate::case::to_lower_camel(input)
}

/// `SCREAMING_SNAKE_CASE` form of `input`.
pub fn screaming_snake_case(input: &str) -> (r: String)
    ensures
        r@ == heck_shouty_snake(input@),
{
    crate::case::to_shouty_snake(input)
}

} // verus!
