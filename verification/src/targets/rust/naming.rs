//! Case conversions used across the Rust templates (crate names, struct
//! names, env var prefixes): only the three cases Rust identifiers use.

use crate::case::{heck_pascal, heck_shouty_snake, heck_snake};
use vstd::prelude::*;

verus! {

/// `snake_case` form of `input`.
pub fn snake_case(input: &str) -> (r: String)
    ensures
        r@ == heck_snake(input@),
{
    crate::case::to_snake(input)
}

/// `PascalCase` form of `input`.
pub fn pascal_case(input: &str) -> (r: String)
    ensures
        r@ == heck_pascal(input@),
{
    crate::case::to_pascal(input)
}

/// `SCREAMING_SNAKE_CASE` form of `input`.
pub fn screaming_snake_case(input: &str) -> (r: String)
    ensures
        r@ == heck_shouty_snake(input@),
{
    crate::case::to_shouty_snake(input)
}

} // verus!
