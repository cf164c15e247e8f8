//! Step seven: format, lint, populate and test the generated crate.

use crate::commands::{TestCommand, TestCommandView, command_views, push_command, test_command};
use crate::context::GeneratorContext;
use crate::targets::rust::context::{rs_project_name, spec_rs_project_name};
use vstd::prelude::*;
use vstd::string::*;

verus! {

/// How long one command may run before the step gives up on it.
pub const CARGO_TIMEOUT_SECS: u64 = 900;

/// The commands, in order; the first that does not succeed fails the step.
pub open spec fn test_commands(project_name: Seq<char>) -> Seq<TestCommandView> {
    seq![
        TestCommandView { program: "cargo"@, args: seq!["fmt"@], label: "cargo fmt"@ },
        TestCommandView { program: "cargo"@, args: seq!["clippy"@, "--all-targets"@, "--"@, "-D"@, "warnings"@], label: "cargo clippy"@ },
        TestCommandView { program: "cargo"@, args: seq!["run"@, "--bin"@, project_name + "-populate-embeddings"@], label: "cargo run --bin "@ + project_name + "-populate-embeddings"@ },
        TestCommandView { program: "cargo"@, args: seq!["test"@], label: "cargo test"@ },
    ]
}

/// The cargo commands the test step runs in the output directory.
pub fn run_generated_tests(ctx: &GeneratorContext) -> (r: Vec<TestCommand>)
    ensures
        command_views(r@) == test_commands(spec_rs_project_name(ctx.output_dir@, ctx.api_title@)),
{
    let project_name = rs_project_name(ctx);
    let mut populate_bin = String::from_str(project_name.as_str());
    populate_bin.append("-populate-embeddings");
    let mut populate_label = String::from_str("cargo run --bin ");
    populate_label.append(populate_bin.as_str());
    assert(populate_label@ =~= "cargo run --bin "@ + project_name@ + "-populate-embeddings"@);
    let mut cmds: Vec<TestCommand> = Vec::new();
    let c = test_command("cargo", &["fmt"], "cargo fmt");
    assert(c@.args =~= seq!["fmt"@]);
    push_command(&mut cmds, c);
    let c = test_command("cargo", &["clippy", "--all-targets", "--", "-D", "warnings"], "cargo clippy");
    assert(c@.args =~= seq!["clippy"@, "--all-targets"@, "--"@, "-D"@, "warnings"@]);
    push_command(&mut cmds, c);
    let c = test_command("cargo", &["run", "--bin", populate_bin.as_str()], populate_label.as_str());
    assert(c@.args =~= seq!["run"@, "--bin"@, project_name@ + "-populate-embeddings"@]);
    push_command(&mut cmds, c);
    let c = test_command("cargo", &["test"], "cargo test");
    assert(c@.args =~= seq!["test"@]);
    push_command(&mut cmds, c);
    assert(command_views(cmds@) =~= test_commands(spec_rs_project_name(ctx.output_dir@, ctx.api_title@)));
    cmds
}


/// The step formats first and ends by running `cargo test` right after the
/// project's own populate-embeddings binary; so a run whose suite fails or
/// cannot run never counts as a success.
pub proof fn law_test_step_runs_the_suite_last(project_name: Seq<char>)
    ensures
        test_commands(project_name).len() >= 2,
        test_commands(project_name)[0].args == seq!["fmt"@],
        test_commands(project_name).last() == (TestCommandView { program: "cargo"@, args: seq!["test"@], label: "cargo test"@ }),
        test_commands(project_name)[test_commands(project_name).len() - 2].args == seq![
            "run"@,
            "--bin"@,
            project_name + "-populate-embeddings"@,
        ],
{
}

} // verus!
