//! The Rust target (`-l rust`).

pub mod naming;
pub mod context;
pub mod steps;

use vstd::prelude::*;
use vstd::string::*;

use crate::lifecycle::Step;

verus! {

/// The Rust generator. Its last four steps are not written yet and fail
/// at once.
#[derive(Debug, Default)]
pub struct RustTargetGenerator;

/// The error a step of the Rust generator fails with before doing any
/// work, for the steps that are not written yet.
pub open spec fn rs_unimplemented_step(step: Step) -> Option<Seq<char>> {
    match step {
        Step::GenerateTransportsAndRoles => Some(
            "rust target: generate_transports_and_roles not yet implemented (Story R5)"@,
        ),
        Step::GenerateMcpTools => Some("rust target: generate_mcp_tools not yet implemented (Story R6)"@),
        Step::GenerateSetupWizardAndTests => Some(
            "rust target: generate_setup_wizard_and_tests not yet implemented (Story R7)"@,
        ),
        Step::RunGeneratedTests => Some("rust target: run_generated_tests not yet implemented (Story R8)"@),
        _ => None,
    }
}

impl RustTargetGenerator {
    pub fn name(&self) -> (r: &'static str)
        ensures
            r@ == "rust"@,
    {
        "rust"
    }

    pub fn unimplemented_step(&self, step: Step) -> (r: Option<String>)
        ensures
            r matches Some(m) ==> rs_unimplemented_step(step) == Some(m@),
            r is None ==> rs_unimplemented_step(step) is None,
    {
        match step {
            Step::GenerateTransportsAndRoles => Some(
                String::from_str("rust target: generate_transports_and_roles not yet implemented (Story R5)"),
            ),
            Step::GenerateMcpTools => Some(
                String::from_str("rust target: generate_mcp_tools not yet implemented (Story R6)"),
            ),
            Step::GenerateSetupWizardAndTests => Some(
                String::from_str("rust target: generate_setup_wizard_and_tests not yet implemented (Story R7)"),
            ),
            Step::RunGeneratedTests => Some(
                String::from_str("rust target: run_generated_tests not yet implemented (Story R8)"),
            ),
            _ => None,
        }
    }
}

} // verus!
