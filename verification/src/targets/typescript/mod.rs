//! The TypeScript target (`-l typescript`).

pub mod naming;
pub mod context;
pub mod steps;

use vstd::prelude::*;

use crate::auth_profile::AuthSchemeDescriptor;
use crate::context::GeneratorContext;
use crate::lifecycle::{Step, StepWork, StepWorkView};
use crate::targets::typescript::steps::{
    auth, bootstrap, enterprise, run_tests, setup_and_tests, tools, transports,
};

verus! {

/// The TypeScript generator: each lifecycle step performs its step
/// module's plan, and the last one installs, builds and runs the generated
/// test suite, so a run whose suite fails or cannot run does not succeed.
#[derive(Debug, Default)]
pub struct TypeScriptTargetGenerator;

/// What each lifecycle step of the TypeScript generator amounts to.
pub open spec fn ts_step_work(schemes: Seq<AuthSchemeDescriptor>, step: Step) -> StepWorkView {
    match step {
        Step::BootstrapProject => StepWorkView::Files(bootstrap::bootstrap_plan()),
        Step::GenerateEnterpriseScaffolding => StepWorkView::Files(enterprise::enterprise_plan()),
        Step::GenerateAuthStrategies => StepWorkView::Files(auth::auth_plan(schemes)),
        Step::GenerateTransportsAndRoles => StepWorkView::Files(transports::transports_plan()),
        Step::GenerateMcpTools => StepWorkView::Files(tools::tools_plan()),
        Step::GenerateSetupWizardAndTests => StepWorkView::Files(setup_and_tests::setup_and_tests_plan(schemes)),
        Step::RunGeneratedTests => StepWorkView::Commands(run_tests::test_commands(), run_tests::NPM_TIMEOUT_SECS),
    }
}

/// The test step is never a silent success: it runs the npm commands,
/// starting with the dependency install and including the test run, and
/// the first that does not succeed fails the step.
pub proof fn law_test_step_runs_the_suite(schemes: Seq<AuthSchemeDescriptor>)
    ensures
        ts_step_work(schemes, Step::RunGeneratedTests) matches StepWorkView::Commands(cmds, _)
            && cmds.len() == 7 && cmds[0].label == "npm install"@ && cmds[5].label == "npm test"@,
{
}

impl TypeScriptTargetGenerator {
    pub fn name(&self) -> (r: &'static str)
        ensures
            r@ == "typescript"@,
    {
        "typescript"
    }

    pub fn step_work(&self, ctx: &GeneratorContext, step: Step) -> (w: StepWork)
        ensures
            w@ == ts_step_work(ctx.auth_schemes@, step),
    {
        match step {
            Step::BootstrapProject => StepWork::Files(bootstrap::bootstrap_project(ctx)),
            Step::GenerateEnterpriseScaffolding => StepWork::Files(enterprise::generate_enterprise_scaffolding(ctx)),
            Step::GenerateAuthStrategies => StepWork::Files(auth::generate_auth_strategies(ctx)),
            Step::GenerateTransportsAndRoles => StepWork::Files(transports::generate_transports_and_roles(ctx)),
            Step::GenerateMcpTools => StepWork::Files(tools::generate_mcp_tools(ctx)),
            Step::GenerateSetupWizardAndTests => StepWork::Files(
                setup_and_tests::generate_setup_wizard_and_tests(ctx),
            ),
            Step::RunGeneratedTests => StepWork::Commands {
                commands: run_tests::run_generated_tests(ctx),
                timeout_secs: run_tests::NPM_TIMEOUT_SECS,
            },
        }
    }
}

} // verus!
