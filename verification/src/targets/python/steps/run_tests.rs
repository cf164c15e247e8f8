//! Step seven: sync, lint, format, populate and test the generated project.

use crate::commands::{TestCommand, TestCommandView, command_views, push_command, test_command};
use crate::context::GeneratorContext;
use crate::targets::python::context::{module_name, spec_py_module_name};
use vstd::prelude::*;
use vstd::string::*;

verus! {

/// How long one command may run before the step gives up on it.
pub const UV_TIMEOUT_SECS: u64 = 900;

/// The commands, in order; the first that does not succeed fails the step.
pub open spec fn test_commands(module: Seq<char>) -> Seq<TestCommandView> {
    seq![
        TestCommandView { program: "uv"@, args: seq!["sync"@], label: "uv sync"@ },
        TestCommandView { program: "uv"@, args: seq!["run"@, "ruff"@, "check"@, "--fix"@, "."@], label: "uv run ruff check --fix ."@ },
        TestCommandView { program: "uv"@, args: seq!["run"@, "black"@, "."@], label: "uv run black ."@ },
        TestCommandView { program: "uv"@, args: seq!["run"@, "python"@, "-m"@, module + ".services.populate_embeddings"@], label: "uv run python -m <module>.services.populate_embeddings"@ },
        TestCommandView { program: "uv"@, args: seq!["run"@, "pytest"@], label: "uv run pytest"@ },
    ]
}

/// The uv commands the test step runs in the output directory.
pub fn run_generated_tests(ctx: &GeneratorContext) -> (r: Vec<TestCommand>)
    ensures
        command_views(r@) == test_commands(spec_py_module_name(ctx.output_dir@, ctx.api_title@)),
{
    let module = module_name(ctx);
    let mut populate_module = String::from_str(module.as_str());
    populate_module.append(".services.populate_embeddings");
    let mut cmds: Vec<TestCommand> = Vec::new();
    let c = test_command("uv", &["sync"], "uv sync");
    assert(c@.args =~= seq!["sync"@]);
    push_command(&mut cmds, c);
    let c = test_command("uv", &["run", "ruff", "check", "--fix", "."], "uv run ruff check --fix .");
    assert(c@.args =~= seq!["run"@, "ruff"@, "check"@, "--fix"@, "."@]);
    push_command(&mut cmds, c);
    let c = test_command("uv", &["run", "black", "."], "uv run black .");
    assert(c@.args =~= seq!["run"@, "black"@, "."@]);
    push_command(&mut cmds, c);
    let c = test_command("uv", &["run", "python", "-m", populate_module.as_str()], "uv run python -m <module>.services.populate_embeddings");
    assert(c@.args =~= seq!["run"@, "python"@, "-m"@, module@ + ".services.populate_embeddings"@]);
    push_command(&mut cmds, c);
    let c = test_command("uv", &["run", "pytest"], "uv run pytest");
    assert(c@.args =~= seq!["run"@, "pytest"@]);
    push_command(&mut cmds, c);
    assert(command_views(cmds@) =~= test_commands(spec_py_module_name(ctx.output_dir@, ctx.api_title@)));
    cmds
}


/// The step syncs the environment first and ends by running pytest right
/// after populating the package's embeddings store; so a run whose suite
/// fails or cannot run never counts as a success.
pub proof fn law_test_step_runs_the_suite_last(module: Seq<char>)
    ensures
        test_commands(module).len() >= 2,
        test_commands(module)[0].args == seq!["sync"@],
        test_commands(module).last() == (TestCommandView { program: "uv"@, args: seq!["run"@, "pytest"@], label: "uv run pytest"@ }),
        test_commands(module)[test_commands(module).len() - 2].program == "uv"@,
        test_commands(module)[test_commands(module).len() - 2].args == seq![
            "run"@,
            "python"@,
            "-m"@,
            module + ".services.populate_embeddings"@,
        ],
{
}

} // verus!
