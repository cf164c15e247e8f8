//! Step two: one DI-registered service per concern, packaging and CI.

use crate::context::GeneratorContext;
use crate::plan::{Action, ActionView, action_views, push_root_render, root_renders};
use vstd::prelude::*;
use vstd::string::*;

verus! {

/// Services rendered under `Core/`.
pub open spec fn core_files() -> Seq<(Seq<char>, Seq<char>)> {
    seq![
        ("Core/Errors.cs.tera"@, "Core/Errors.cs"@),
        ("Core/Logging.cs.tera"@, "Core/Logging.cs"@),
        ("Core/Tracing.cs.tera"@, "Core/Tracing.cs"@),
        ("Core/Config.cs.tera"@, "Core/Config.cs"@),
        ("Core/CircuitBreaker.cs.tera"@, "Core/CircuitBreaker.cs"@),
        ("Core/CredentialStorage.cs.tera"@, "Core/CredentialStorage.cs"@),
        ("Core/HealthChecks.cs.tera"@, "Core/HealthChecks.cs"@),
        ("Core/McpServer.cs.tera"@, "Core/McpServer.cs"@),
    ]
}

/// Packaging and CI files at the project root.
pub open spec fn root_files() -> Seq<(Seq<char>, Seq<char>)> {
    seq![
        ("Dockerfile.tera"@, "Dockerfile"@),
        ("docker-compose.yml.tera"@, "docker-compose.yml"@),
        (".github/workflows/ci.yml.tera"@, ".github/workflows/ci.yml"@),
        (".github/workflows/docker-build.yml.tera"@, ".github/workflows/docker-build.yml"@),
        (".github/workflows/release.yml.tera"@, ".github/workflows/release.yml"@),
    ]
}

/// Every core service, every packaging and CI file, then `Program.cs`.
pub open spec fn enterprise_plan() -> Seq<ActionView> {
    root_renders(core_files())
        + root_renders(root_files())
        + seq![ActionView::Render { template: "Program.cs.tera"@, out_path: "Program.cs"@ }]
}

/// The enterprise scaffolding step; `Program.cs` is rendered again from its one template.
pub fn generate_enterprise_scaffolding(_ctx: &GeneratorContext) -> (r: Vec<Action>)
    ensures
        action_views(r@) == enterprise_plan(),
{
    let mut acts: Vec<Action> = Vec::new();
    let ghost start = action_views(acts@);
    push_root_render(&mut acts, "Core/Errors.cs.tera", "Core/Errors.cs");
    push_root_render(&mut acts, "Core/Logging.cs.tera", "Core/Logging.cs");
    push_root_render(&mut acts, "Core/Tracing.cs.tera", "Core/Tracing.cs");
    push_root_render(&mut acts, "Core/Config.cs.tera", "Core/Config.cs");
    push_root_render(&mut acts, "Core/CircuitBreaker.cs.tera", "Core/CircuitBreaker.cs");
    push_root_render(&mut acts, "Core/CredentialStorage.cs.tera", "Core/CredentialStorage.cs");
    push_root_render(&mut acts, "Core/HealthChecks.cs.tera", "Core/HealthChecks.cs");
    push_root_render(&mut acts, "Core/McpServer.cs.tera", "Core/McpServer.cs");
    assert(action_views(acts@) =~= start + root_renders(core_files()));
    let ghost after0 = action_views(acts@);
    push_root_render(&mut acts, "Dockerfile.tera", "Dockerfile");
    push_root_render(&mut acts, "docker-compose.yml.tera", "docker-compose.yml");
    push_root_render(&mut acts, ".github/workflows/ci.yml.tera", ".github/workflows/ci.yml");
    push_root_render(&mut acts, ".github/workflows/docker-build.yml.tera", ".github/workflows/docker-build.yml");
    push_root_render(&mut acts, ".github/workflows/release.yml.tera", ".github/workflows/release.yml");
    assert(action_views(acts@) =~= after0 + root_renders(root_files()));
    let ghost after1 = action_views(acts@);
    push_root_render(&mut acts, "Program.cs.tera", "Program.cs");
    assert(action_views(acts@) =~= after1 + seq![ActionView::Render { template: "Program.cs.tera"@, out_path: "Program.cs"@ }]);
    assert(action_views(acts@) =~= enterprise_plan());
    acts
}


/// Each row of `core_files` renders the template of the same name: its output
/// is the template's path without `.tera`, under `src/` for sources.
pub proof fn law_core_files_outputs_match_templates()
    ensures
        forall|i: int|
            0 <= i < core_files().len() ==> {
                let t = #[trigger] core_files()[i].0;
                let o = core_files()[i].1;
                &&& t.len() >= 5
                &&& t.skip(t.len() - 5) == ".tera"@
                &&& (o == t.take(t.len() - 5) || o == "src/"@ + t.take(t.len() - 5))
            },
{
    reveal_strlit(".tera");
    reveal_strlit("Core/CircuitBreaker.cs");
    reveal_strlit("Core/CircuitBreaker.cs.tera");
    reveal_strlit("Core/Config.cs");
    reveal_strlit("Core/Config.cs.tera");
    reveal_strlit("Core/CredentialStorage.cs");
    reveal_strlit("Core/CredentialStorage.cs.tera");
    reveal_strlit("Core/Errors.cs");
    reveal_strlit("Core/Errors.cs.tera");
    reveal_strlit("Core/HealthChecks.cs");
    reveal_strlit("Core/HealthChecks.cs.tera");
    reveal_strlit("Core/Logging.cs");
    reveal_strlit("Core/Logging.cs.tera");
    reveal_strlit("Core/McpServer.cs");
    reveal_strlit("Core/McpServer.cs.tera");
    reveal_strlit("Core/Tracing.cs");
    reveal_strlit("Core/Tracing.cs.tera");
    reveal_strlit("src/");
    assert(core_files()[0].0.skip(19 - 5) =~= ".tera"@);
    assert(core_files()[0].1 =~= core_files()[0].0.take(19 - 5));
    assert(core_files()[1].0.skip(20 - 5) =~= ".tera"@);
    assert(core_files()[1].1 =~= core_files()[1].0.take(20 - 5));
    assert(core_files()[2].0.skip(20 - 5) =~= ".tera"@);
    assert(core_files()[2].1 =~= core_files()[2].0.take(20 - 5));
    assert(core_files()[3].0.skip(19 - 5) =~= ".tera"@);
    assert(core_files()[3].1 =~= core_files()[3].0.take(19 - 5));
    assert(core_files()[4].0.skip(27 - 5) =~= ".tera"@);
    assert(core_files()[4].1 =~= core_files()[4].0.take(27 - 5));
    assert(core_files()[5].0.skip(30 - 5) =~= ".tera"@);
    assert(core_files()[5].1 =~= core_files()[5].0.take(30 - 5));
    assert(core_files()[6].0.skip(25 - 5) =~= ".tera"@);
    assert(core_files()[6].1 =~= core_files()[6].0.take(25 - 5));
    assert(core_files()[7].0.skip(22 - 5) =~= ".tera"@);
    assert(core_files()[7].1 =~= core_files()[7].0.take(22 - 5));
    assert(core_files().len() == 8);
}

/// Each row of `root_files` renders the template of the same name: its output
/// is the template's path without `.tera`, under `src/` for sources.
pub proof fn law_root_files_outputs_match_templates()
    ensures
        forall|i: int|
            0 <= i < root_files().len() ==> {
                let t = #[trigger] root_files()[i].0;
                let o = root_files()[i].1;
                &&& t.len() >= 5
                &&& t.skip(t.len() - 5) == ".tera"@
                &&& (o == t.take(t.len() - 5) || o == "src/"@ + t.take(t.len() - 5))
            },
{
    reveal_strlit(".github/workflows/ci.yml");
    reveal_strlit(".github/workflows/ci.yml.tera");
    reveal_strlit(".github/workflows/docker-build.yml");
    reveal_strlit(".github/workflows/docker-build.yml.tera");
    reveal_strlit(".github/workflows/release.yml");
    reveal_strlit(".github/workflows/release.yml.tera");
    reveal_strlit(".tera");
    reveal_strlit("Dockerfile");
    reveal_strlit("Dockerfile.tera");
    reveal_strlit("docker-compose.yml");
    reveal_strlit("docker-compose.yml.tera");
    reveal_strlit("src/");
    assert(root_files()[0].0.skip(15 - 5) =~= ".tera"@);
    assert(root_files()[0].1 =~= root_files()[0].0.take(15 - 5));
    assert(root_files()[1].0.skip(23 - 5) =~= ".tera"@);
    assert(root_files()[1].1 =~= root_files()[1].0.take(23 - 5));
    assert(root_files()[2].0.skip(29 - 5) =~= ".tera"@);
    assert(root_files()[2].1 =~= root_files()[2].0.take(29 - 5));
    assert(root_files()[3].0.skip(39 - 5) =~= ".tera"@);
    assert(root_files()[3].1 =~= root_files()[3].0.take(39 - 5));
    assert(root_files()[4].0.skip(34 - 5) =~= ".tera"@);
    assert(root_files()[4].1 =~= root_files()[4].0.take(34 - 5));
    assert(root_files().len() == 5);
}

} // verus!
