//! The identifier case conversions, delegated to the `heck` crate.
//!
//! heck splits its input into words (on every non-alphanumeric character and
//! on lower/upper case boundaries) and re-joins them with Unicode case
//! mapping; what it returns for a given input is named below rather than
//! restated, and each wrapper only promises that its result is that name
//! applied to its argument.

use heck::{ToKebabCase, ToLowerCamelCase, ToPascalCase, ToShoutySnakeCase, ToSnakeCase};
use vstd::prelude::*;

verus! {

/// What heck's `to_kebab_case` returns for the given characters.
pub uninterp spec fn heck_kebab(s: Seq<char>) -> Seq<char>;

/// What heck's `to_snake_case` returns for the given characters.
pub uninterp spec fn heck_snake(s: Seq<char>) -> Seq<char>;

/// What heck's `to_pascal_case` returns for the given characters.
pub uninterp spec fn heck_pascal(s: Seq<char>) -> Seq<char>;

/// What heck's `to_lower_camel_case` returns for the given characters.
pub uninterp spec fn heck_lower_camel(s: Seq<char>) -> Seq<char>;

/// What heck's `to_shouty_snake_case` returns for the given characters.
pub uninterp spec fn heck_shouty_snake(s: Seq<char>) -> Seq<char>;

/// Calls `heck::ToKebabCase::to_kebab_case`; the result is `heck_kebab` of the input.
#[verifier::external_body]
pub(crate) fn to_kebab(s: &str) -> (r: String)
    ensures
        r@ == heck_kebab(s@),
{
    s.to_kebab_case()
}

/// Calls `heck::ToSnakeCase::to_snake_case`; the result is `heck_snake` of the input.
#[verifier::external_body]
pub(crate) fn to_snake(s: &str) -> (r: String)
    ensures
        r@ == heck_snake(s@),
{
    s.to_snake_case()
}

/// Calls `heck::ToPascalCase::to_pascal_case`; the result is `heck_pascal` of the input.
#[verifier::external_body]
pub(crate) fn to_pascal(s: &str) -> (r: String)
    ensures
        r@ == heck_pascal(s@),
{
    s.to_pascal_case()
}

/// Calls `heck::ToLowerCamelCase::to_lower_camel_case`; the result is
/// `heck_lower_camel` of the input.
#[verifier::external_body]
pub(crate) fn to_lower_camel(s: &str) -> (r: String)
    ensures
        r@ == heck_lower_camel(s@),
{
    s.to_lower_camel_case()
}

/// Calls `heck::ToShoutySnakeCase::to_shouty_snake_case`; the result is
/// `heck_shouty_snake` of the input.
#[verifier::external_body]
pub(crate) fn to_shouty_snake(s: &str) -> (r: String)
    ensures
        r@ == heck_shouty_snake(s@),
{
    s.to_shouty_snake_case()
}

} // verus!
