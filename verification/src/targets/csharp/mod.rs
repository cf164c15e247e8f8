//! The C# target (`-l csharp`).

pub mod steps;

use vstd::prelude::*;

use crate::auth_profile::AuthSchemeDescriptor;
use crate::context::GeneratorContext;
use crate::lifecycle::{Step, StepWork, StepWorkView};
use crate::targets::csharp::steps::{
    auth, bootstrap, enterprise, run_tests, setup_and_tests, tools, transports,
};

verus! {

/// The C# generator: every lifecycle step is real.
#[derive(Debug, Default)]
pub struct CSharpTargetGenerator;

/// What each lifecycle step of the C# generator amounts to, for a project
/// whose root namespace is `namespace`.
pub open spec fn cs_step_work(namespace: Seq<char>, schemes: Seq<AuthSchemeDescriptor>, step: Step) -> StepWorkView {
    match step {
        Step::BootstrapProject => StepWorkView::Files(bootstrap::bootstrap_plan(namespace)),
        Step::GenerateEnterpriseScaffolding => StepWorkView::Files(enterprise::enterprise_plan()),
        Step::GenerateAuthStrategies => StepWorkView::Files(auth::auth_plan(schemes)),
        Step::GenerateTransportsAndRoles => StepWorkView::Files(transports::transports_plan()),
        Step::GenerateMcpTools => StepWorkView::Files(tools::tools_plan()),
        Step::GenerateSetupWizardAndTests => StepWorkView::Files(
            setup_and_tests::setup_and_tests_plan(namespace, schemes),
        ),
        Step::RunGeneratedTests => StepWorkView::Commands(
            run_tests::test_commands(),
            run_tests::DOTNET_TIMEOUT_SECS,
        ),
    }
}

impl CSharpTargetGenerator {
    pub fn name(&self) -> (r: &'static str)
        ensures
            r@ == "csharp"@,
    {
        "csharp"
    }

    pub fn step_work(&self, ctx: &GeneratorContext, namespace: &str, step: Step) -> (w: StepWork)
        ensures
            w@ == cs_step_work(namespace@, ctx.auth_schemes@, step),
    {
        match step {
            Step::BootstrapProject => StepWork::Files(bootstrap::bootstrap_project(ctx, namespace)),
            Step::GenerateEnterpriseScaffolding => StepWork::Files(enterprise::generate_enterprise_scaffolding(ctx)),
            Step::GenerateAuthStrategies => StepWork::Files(auth::generate_auth_strategies(ctx)),
            Step::GenerateTransportsAndRoles => StepWork::Files(transports::generate_transports_and_roles(ctx)),
            Step::GenerateMcpTools => StepWork::Files(tools::generate_mcp_tools(ctx)),
            Step::GenerateSetupWizardAndTests => StepWork::Files(
                setup_and_tests::generate_setup_wizard_and_tests(ctx, namespace),
            ),
            Step::RunGeneratedTests => StepWork::Commands {
                commands: run_tests::run_generated_tests(ctx),
                timeout_secs: run_tests::DOTNET_TIMEOUT_SECS,
            },
        }
    }
}

} // verus!
