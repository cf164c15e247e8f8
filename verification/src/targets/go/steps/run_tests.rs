//! Step seven: tidy, build, lint, populate and test the generated module.

use crate::commands::{TestCommand, TestCommandView, command_views, push_command, test_command};
use crate::context::GeneratorContext;
use vstd::prelude::*;
use vstd::string::*;

verus! {

/// How long one command may run before the step gives up on it.
pub const GO_TIMEOUT_SECS: u64 = 900;

/// The commands, in order; the first that does not succeed fails the step.
pub open spec fn test_commands() -> Seq<TestCommandView> {
    seq![
        TestCommandView { program: "go"@, args: seq!["mod"@, "tidy"@], label: "go mod tidy"@ },
        TestCommandView { program: "go"@, args: seq!["build"@, "./..."@], label: "go build ./..."@ },
        TestCommandView { program: "golangci-lint"@, args: seq!["run"@, "./..."@], label: "golangci-lint run"@ },
        TestCommandView { program: "go"@, args: seq!["run"@, "./cmd/populate-embeddings"@], label: "go run ./cmd/populate-embeddings"@ },
        TestCommandView { program: "go"@, args: seq!["test"@, "-tags=integration"@, "./..."@], label: "go test -tags=integration ./..."@ },
    ]
}

/// The commands the test step runs in the output directory.
pub fn run_generated_tests(_ctx: &GeneratorContext) -> (r: Vec<TestCommand>)
    ensures
        command_views(r@) == test_commands(),
{
    let mut cmds: Vec<TestCommand> = Vec::new();
    let c = test_command("go", &["mod", "tidy"], "go mod tidy");
    assert(c@.args =~= seq!["mod"@, "tidy"@]);
    push_command(&mut cmds, c);
    let c = test_command("go", &["build", "./..."], "go build ./...");
    assert(c@.args =~= seq!["build"@, "./..."@]);
    push_command(&mut cmds, c);
    let c = test_command("golangci-lint", &["run", "./..."], "golangci-lint run");
    assert(c@.args =~= seq!["run"@, "./..."@]);
    push_command(&mut cmds, c);
    let c = test_command("go", &["run", "./cmd/populate-embeddings"], "go run ./cmd/populate-embeddings");
    assert(c@.args =~= seq!["run"@, "./cmd/populate-embeddings"@]);
    push_command(&mut cmds, c);
    let c = test_command("go", &["test", "-tags=integration", "./..."], "go test -tags=integration ./...");
    assert(c@.args =~= seq!["test"@, "-tags=integration"@, "./..."@]);
    push_command(&mut cmds, c);
    assert(command_views(cmds@) =~= test_commands());
    cmds
}


/// The step ends by running the generated suite, integration tests
/// included, right after populating the embeddings store it searches; so a
/// run whose suite fails or cannot run never counts as a success.
pub proof fn law_test_step_runs_the_suite_last()
    ensures
        test_commands().len() >= 2,
        test_commands().last() == (TestCommandView {
            program: "go"@,
            args: seq!["test"@, "-tags=integration"@, "./..."@],
            label: "go test -tags=integration ./..."@,
        }),
        test_commands()[test_commands().len() - 2] == (TestCommandView {
            program: "go"@,
            args: seq!["run"@, "./cmd/populate-embeddings"@],
            label: "go run ./cmd/populate-embeddings"@,
        }),
        test_commands()[0].args == seq!["mod"@, "tidy"@],
{
}

} // verus!
