//! The per-target generation lifecycle: seven steps run in a fixed order,
//! stopping at the first that fails, and a freshly created output directory
//! is removed again when the run fails.
//!
//! The decisions are a state machine; whoever drives it performs each
//! step's work and reports back whether it succeeded.

use vstd::prelude::*;

use crate::commands::{command_views, TestCommand, TestCommandView};
use crate::plan::{action_views, Action, ActionView};

verus! {

/// The lifecycle steps, each named after the generator method that performs it.
#[derive(Clone, Copy, Debug, PartialEq, Eq, Structural)]
pub enum Step {
    BootstrapProject,
    GenerateEnterpriseScaffolding,
    GenerateAuthStrategies,
    GenerateTransportsAndRoles,
    GenerateMcpTools,
    GenerateSetupWizardAndTests,
    RunGeneratedTests,
}

/// The steps in the order every run performs them. Enterprise scaffolding
/// comes before any tool-specific code, so later files can import it.
pub open spec fn lifecycle() -> Seq<Step> {
    seq![
        Step::BootstrapProject,
        Step::GenerateEnterpriseScaffolding,
        Step::GenerateAuthStrategies,
        Step::GenerateTransportsAndRoles,
        Step::GenerateMcpTools,
        Step::GenerateSetupWizardAndTests,
        Step::RunGeneratedTests,
    ]
}

/// The step after `s`, or `None` after the last one.
pub open spec fn spec_next_step(s: Step) -> Option<Step> {
    match s {
        Step::BootstrapProject => Some(Step::GenerateEnterpriseScaffolding),
        Step::GenerateEnterpriseScaffolding => Some(Step::GenerateAuthStrategies),
        Step::GenerateAuthStrategies => Some(Step::GenerateTransportsAndRoles),
        Step::GenerateTransportsAndRoles => Some(Step::GenerateMcpTools),
        Step::GenerateMcpTools => Some(Step::GenerateSetupWizardAndTests),
        Step::GenerateSetupWizardAndTests => Some(Step::RunGeneratedTests),
        Step::RunGeneratedTests => None,
    }
}

/// What the driver of a run does next.
#[derive(Clone, Copy, Debug, PartialEq, Eq, Structural)]
pub enum Directive {
    /// Perform this step and report whether it succeeded.
    Run(Step),
    /// The run is over; on failure, the output directory is removed when
    /// `remove_output_dir` says so, and the step's error is the run's error.
    Finish { success: bool, remove_output_dir: bool },
}

/// A run starts with the first step.
pub fn first_directive() -> (d: Directive)
    ensures
        d == Directive::Run(lifecycle()[0]),
{
    Directive::Run(Step::BootstrapProject)
}

/// The decision after step `ran` has finished.
pub open spec fn spec_after_step(ran: Step, succeeded: bool, output_dir_preexisted: bool) -> Directive {
    if !succeeded {
        Directive::Finish { success: false, remove_output_dir: !output_dir_preexisted }
    } else {
        match spec_next_step(ran) {
            Some(next) => Directive::Run(next),
            None => Directive::Finish { success: true, remove_output_dir: false },
        }
    }
}

/// After a step: stop at a failure (removing the output directory only if
/// this run created it), else run the next step, else finish successfully.
pub fn after_step(ran: Step, succeeded: bool, output_dir_preexisted: bool) -> (d: Directive)
    ensures
        d == spec_after_step(ran, succeeded, output_dir_preexisted),
{
    if !succeeded {
        return Directive::Finish { success: false, remove_output_dir: !output_dir_preexisted };
    }
    match ran {
        Step::BootstrapProject => Directive::Run(Step::GenerateEnterpriseScaffolding),
        Step::GenerateEnterpriseScaffolding => Directive::Run(Step::GenerateAuthStrategies),
        Step::GenerateAuthStrategies => Directive::Run(Step::GenerateTransportsAndRoles),
        Step::GenerateTransportsAndRoles => Directive::Run(Step::GenerateMcpTools),
        Step::GenerateMcpTools => Directive::Run(Step::GenerateSetupWizardAndTests),
        Step::GenerateSetupWizardAndTests => Directive::Run(Step::RunGeneratedTests),
        Step::RunGeneratedTests => Directive::Finish { success: true, remove_output_dir: false },
    }
}

/// Driving the machine from `d` for at most `fuel` steps, where each step
/// succeeds exactly when `outcome` says so: the steps performed, in order,
/// and the directive the drive ends on.
pub open spec fn drive(d: Directive, outcome: spec_fn(Step) -> bool, output_dir_preexisted: bool, fuel: nat) -> (
    Seq<Step>,
    Directive,
)
    decreases fuel,
{
    match d {
        Directive::Run(s) => if fuel == 0 {
            (Seq::empty(), d)
        } else {
            let rest = drive(spec_after_step(s, outcome(s), output_dir_preexisted), outcome, output_dir_preexisted, (fuel - 1) as nat);
            (seq![s] + rest.0, rest.1)
        },
        Directive::Finish { .. } => (Seq::empty(), d),
    }
}

/// The position in the lifecycle of the first step that fails, from `i`
/// on; the lifecycle's length when none does.
pub open spec fn first_failure_from(outcome: spec_fn(Step) -> bool, i: nat) -> nat
    decreases 7 - i,
{
    if i >= 7 {
        7
    } else if !outcome(lifecycle()[i as int]) {
        i
    } else {
        first_failure_from(outcome, i + 1)
    }
}

pub open spec fn first_failure(outcome: spec_fn(Step) -> bool) -> nat {
    first_failure_from(outcome, 0)
}

proof fn lemma_next_step_follows_lifecycle(i: int)
    requires
        0 <= i < 7,
    ensures
        spec_next_step(lifecycle()[i]) == (if i + 1 < 7 { Some(lifecycle()[i + 1]) } else { None::<Step> }),
{
}

proof fn lemma_first_failure_bounds(outcome: spec_fn(Step) -> bool, i: nat)
    requires
        i <= 7,
    ensures
        i <= first_failure_from(outcome, i) <= 7,
    decreases 7 - i,
{
    if i < 7 && outcome(lifecycle()[i as int]) {
        lemma_first_failure_bounds(outcome, i + 1);
    }
}

proof fn lemma_drive_from(outcome: spec_fn(Step) -> bool, pre: bool, i: nat)
    requires
        i < 7,
    ensures
        ({
            let f = first_failure_from(outcome, i);
            let r = drive(Directive::Run(lifecycle()[i as int]), outcome, pre, (7 - i) as nat);
            &&& r.0 == lifecycle().subrange(i as int, if f < 7 { f + 1int } else { 7int })
            &&& r.1 == Directive::Finish { success: f == 7, remove_output_dir: f < 7 && !pre }
        }),
    decreases 7 - i,
{
    lemma_next_step_follows_lifecycle(i as int);
    lemma_first_failure_bounds(outcome, i);
    lemma_first_failure_bounds(outcome, i + 1);
    let s = lifecycle()[i as int];
    if outcome(s) && i + 1 < 7 {
        lemma_drive_from(outcome, pre, i + 1);
        let f = first_failure_from(outcome, i);
        let end: int = if f < 7 { f + 1int } else { 7int };
        assert(lifecycle().subrange(i as int, end) =~= seq![s] + lifecycle().subrange(i + 1int, end));
    } else {
        assert(lifecycle().subrange(i as int, i + 1int) =~= seq![s]);
        let r = drive(Directive::Run(lifecycle()[i as int]), outcome, pre, (7 - i) as nat);
        let next = spec_after_step(s, outcome(s), pre);
        assert(next is Finish);
        assert(drive(next, outcome, pre, (6 - i) as nat).0 =~= Seq::<Step>::empty());
        assert(r.0 =~= seq![s]);
        if i + 1 == 7 && outcome(s) {
            assert(first_failure_from(outcome, 7) == 7);
        }
    }
}

/// A run performs the lifecycle's steps in order up to and including the
/// first that fails (all seven when none does); it succeeds exactly when
/// every step succeeded, and it removes the output directory exactly when
/// it failed and the directory did not exist before the run.
pub proof fn law_execute(outcome: spec_fn(Step) -> bool, output_dir_preexisted: bool)
    ensures
        ({
            let f = first_failure(outcome);
            let r = drive(Directive::Run(lifecycle()[0]), outcome, output_dir_preexisted, 7);
            &&& r.0 == lifecycle().take(if f < 7 { f + 1int } else { 7int })
            &&& r.1 == Directive::Finish {
                success: f == 7,
                remove_output_dir: f < 7 && !output_dir_preexisted,
            }
        }),
{
    lemma_drive_from(outcome, output_dir_preexisted, 0);
    let f = first_failure(outcome);
    assert(lifecycle().subrange(0, if f < 7 { f + 1int } else { 7int }) =~= lifecycle().take(
        if f < 7 { f + 1int } else { 7int },
    ));
}

/// What one step of a target amounts to.
#[derive(Debug)]
pub enum StepWork {
    /// The step does nothing and succeeds.
    Nothing,
    /// Perform these file-system actions in order; the first that fails
    /// fails the step.
    Files(Vec<Action>),
    /// Run these commands in order, each within `timeout_secs`; the first
    /// that does not succeed fails the step.
    Commands { commands: Vec<TestCommand>, timeout_secs: u64 },
    /// The step fails at once with this message.
    Fail(String),
}

/// A [`StepWork`] with its actions and commands taken as views.
pub enum StepWorkView {
    Nothing,
    Files(Seq<ActionView>),
    Commands(Seq<TestCommandView>, u64),
    Fail(Seq<char>),
}

impl View for StepWork {
    type V = StepWorkView;

    open spec fn view(&self) -> StepWorkView {
        match self {
            StepWork::Nothing => StepWorkView::Nothing,
            StepWork::Files(a) => StepWorkView::Files(action_views(a@)),
            StepWork::Commands { commands, timeout_secs } => StepWorkView::Commands(
                command_views(commands@),
                *timeout_secs,
            ),
            StepWork::Fail(m) => StepWorkView::Fail(m@),
        }
    }
}

} // verus!
