//! Step seven: restore, format and run the generated xUnit suite.

use crate::commands::{TestCommand, TestCommandView, command_views, push_command, test_command};
use crate::context::GeneratorContext;
use vstd::prelude::*;
use vstd::string::*;

verus! {

/// How long one command may run before the step gives up on it.
pub const DOTNET_TIMEOUT_SECS: u64 = 900;

/// The commands, in order; the first that does not succeed fails the step.
pub open spec fn test_commands() -> Seq<TestCommandView> {
    seq![
        TestCommandView { program: "dotnet"@, args: seq!["restore"@], label: "dotnet restore"@ },
        TestCommandView { program: "dotnet"@, args: seq!["format"@], label: "dotnet format"@ },
        TestCommandView { program: "dotnet"@, args: seq!["test"@, "Tests"@, "-p:TreatWarningsAsErrors=true"@, "-p:WarningsNotAsErrors=NU1903"@], label: "dotnet test Tests"@ },
    ]
}

/// The dotnet commands the test step runs in the output directory.
pub fn run_generated_tests(_ctx: &GeneratorContext) -> (r: Vec<TestCommand>)
    ensures
        command_views(r@) == test_commands(),
{
    let mut cmds: Vec<TestCommand> = Vec::new();
    let c = test_command("dotnet", &["restore"], "dotnet restore");
    assert(c@.args =~= seq!["restore"@]);
    push_command(&mut cmds, c);
    let c = test_command("dotnet", &["format"], "dotnet format");
    assert(c@.args =~= seq!["format"@]);
    push_command(&mut cmds, c);
    let c = test_command("dotnet", &["test", "Tests", "-p:TreatWarningsAsErrors=true", "-p:WarningsNotAsErrors=NU1903"], "dotnet test Tests");
    assert(c@.args =~= seq!["test"@, "Tests"@, "-p:TreatWarningsAsErrors=true"@, "-p:WarningsNotAsErrors=NU1903"@]);
    push_command(&mut cmds, c);
    assert(command_views(cmds@) =~= test_commands());
    cmds
}


/// The step restores first and ends by running the generated xUnit suite
/// with warnings as errors; so a run whose suite fails or cannot run never
/// counts as a success.
pub proof fn law_test_step_runs_the_suite_last()
    ensures
        test_commands().len() >= 2,
        test_commands()[0] == (TestCommandView { program: "dotnet"@, args: seq!["restore"@], label: "dotnet restore"@ }),
        test_commands().last().program == "dotnet"@,
        test_commands().last().args == seq!["test"@, "Tests"@, "-p:TreatWarningsAsErrors=true"@, "-p:WarningsNotAsErrors=NU1903"@],
{
}

} // verus!
