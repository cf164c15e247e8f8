//! Step three: nothing yet for this target.

use crate::context::GeneratorContext;
use crate::plan::{Action};
use vstd::prelude::*;
use vstd::string::*;

verus! {

/// The auth step writes nothing for this target yet.
pub fn generate_auth_strategies(_ctx: &GeneratorContext) -> (r: Vec<Action>)
    ensures
        r@.len() == 0,
{
    Vec::new()
}

} // verus!
