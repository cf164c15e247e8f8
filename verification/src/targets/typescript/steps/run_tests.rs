//! Step seven: install, lint, build, populate and test the generated project.

use crate::commands::{TestCommand, TestCommandView, command_views, push_command, test_command};
use crate::context::GeneratorContext;
use vstd::prelude::*;
use vstd::string::*;

verus! {

/// How long one command may run before the step gives up on it.
pub const NPM_TIMEOUT_SECS: u64 = 300;

/// The commands, in order; the first that does not succeed fails the step.
pub open spec fn test_commands() -> Seq<TestCommandView> {
    seq![
        TestCommandView { program: "npm"@, args: seq!["install"@], label: "npm install"@ },
        TestCommandView { program: "npm"@, args: seq!["run"@, "lint:fix"@], label: "npm run lint:fix"@ },
        TestCommandView { program: "npm"@, args: seq!["run"@, "format"@], label: "npm run format"@ },
        TestCommandView { program: "npm"@, args: seq!["run"@, "build"@], label: "npm run build"@ },
        TestCommandView { program: "npm"@, args: seq!["run"@, "populate-embeddings"@], label: "npm run populate-embeddings"@ },
        TestCommandView { program: "npm"@, args: seq!["test"@], label: "npm test"@ },
        TestCommandView { program: "npm"@, args: seq!["pack"@, "--dry-run"@, "--json"@], label: "npm pack --dry-run"@ },
    ]
}

/// The npm commands the test step runs in the output directory.
pub fn run_generated_tests(_ctx: &GeneratorContext) -> (r: Vec<TestCommand>)
    ensures
        command_views(r@) == test_commands(),
{
    let mut cmds: Vec<TestCommand> = Vec::new();
    let c = test_command("npm", &["install"], "npm install");
    assert(c@.args =~= seq!["install"@]);
    push_command(&mut cmds, c);
    let c = test_command("npm", &["run", "lint:fix"], "npm run lint:fix");
    assert(c@.args =~= seq!["run"@, "lint:fix"@]);
    push_command(&mut cmds, c);
    let c = test_command("npm", &["run", "format"], "npm run format");
    assert(c@.args =~= seq!["run"@, "format"@]);
    push_command(&mut cmds, c);
    let c = test_command("npm", &["run", "build"], "npm run build");
    assert(c@.args =~= seq!["run"@, "build"@]);
    push_command(&mut cmds, c);
    let c = test_command("npm", &["run", "populate-embeddings"], "npm run populate-embeddings");
    assert(c@.args =~= seq!["run"@, "populate-embeddings"@]);
    push_command(&mut cmds, c);
    let c = test_command("npm", &["test"], "npm test");
    assert(c@.args =~= seq!["test"@]);
    push_command(&mut cmds, c);
    let c = test_command("npm", &["pack", "--dry-run", "--json"], "npm pack --dry-run");
    assert(c@.args =~= seq!["pack"@, "--dry-run"@, "--json"@]);
    push_command(&mut cmds, c);
    assert(command_views(cmds@) =~= test_commands());
    cmds
}


/// The step installs first, runs the generated suite right after
/// populating the embeddings store, and packs the project last; so a run
/// whose suite fails or cannot run never counts as a success.
pub proof fn law_test_step_runs_the_suite()
    ensures
        test_commands().len() == 7,
        test_commands()[0] == (TestCommandView { program: "npm"@, args: seq!["install"@], label: "npm install"@ }),
        test_commands()[4] == (TestCommandView {
            program: "npm"@,
            args: seq!["run"@, "populate-embeddings"@],
            label: "npm run populate-embeddings"@,
        }),
        test_commands()[5] == (TestCommandView { program: "npm"@, args: seq!["test"@], label: "npm test"@ }),
        test_commands()[6].args == seq!["pack"@, "--dry-run"@, "--json"@],
{
}

} // verus!
