//! Step two: the `internal/core` package, packaging and CI.

use crate::context::GeneratorContext;
use crate::plan::{Action, ActionView, action_views, push_root_render, root_renders};
use vstd::prelude::*;
use vstd::string::*;

verus! {

/// The `internal/core` package.
pub open spec fn core_files() -> Seq<(Seq<char>, Seq<char>)> {
    seq![
        ("internal/core/errors.go.tera"@, "internal/core/errors.go"@),
        ("internal/core/logger.go.tera"@, "internal/core/logger.go"@),
        ("internal/core/tracing.go.tera"@, "internal/core/tracing.go"@),
        ("internal/core/config.go.tera"@, "internal/core/config.go"@),
        ("internal/core/circuitbreaker.go.tera"@, "internal/core/circuitbreaker.go"@),
        ("internal/core/ratelimiter.go.tera"@, "internal/core/ratelimiter.go"@),
        ("internal/core/credentialstorage.go.tera"@, "internal/core/credentialstorage.go"@),
        ("internal/core/cache.go.tera"@, "internal/core/cache.go"@),
        ("internal/core/healthcheck.go.tera"@, "internal/core/healthcheck.go"@),
        ("internal/core/mcpserver.go.tera"@, "internal/core/mcpserver.go"@),
    ]
}

/// Packaging and CI files at the project root.
pub open spec fn root_files() -> Seq<(Seq<char>, Seq<char>)> {
    seq![
        ("Dockerfile.tera"@, "Dockerfile"@),
        ("docker-compose.yml.tera"@, "docker-compose.yml"@),
        (".github/workflows/ci.yml.tera"@, ".github/workflows/ci.yml"@),
        (".github/workflows/docker-build.yml.tera"@, ".github/workflows/docker-build.yml"@),
        (".github/workflows/release.yml.tera"@, ".github/workflows/release.yml"@),
    ]
}

/// Every core file, then every packaging and CI file.
pub open spec fn enterprise_plan() -> Seq<ActionView> {
    root_renders(core_files())
        + root_renders(root_files())
}

/// The enterprise scaffolding step.
pub fn generate_enterprise_scaffolding(_ctx: &GeneratorContext) -> (r: Vec<Action>)
    ensures
        action_views(r@) == enterprise_plan(),
{
    let mut acts: Vec<Action> = Vec::new();
    let ghost start = action_views(acts@);
    push_root_render(&mut acts, "internal/core/errors.go.tera", "internal/core/errors.go");
    push_root_render(&mut acts, "internal/core/logger.go.tera", "internal/core/logger.go");
    push_root_render(&mut acts, "internal/core/tracing.go.tera", "internal/core/tracing.go");
    push_root_render(&mut acts, "internal/core/config.go.tera", "internal/core/config.go");
    push_root_render(&mut acts, "internal/core/circuitbreaker.go.tera", "internal/core/circuitbreaker.go");
    push_root_render(&mut acts, "internal/core/ratelimiter.go.tera", "internal/core/ratelimiter.go");
    push_root_render(&mut acts, "internal/core/credentialstorage.go.tera", "internal/core/credentialstorage.go");
    push_root_render(&mut acts, "internal/core/cache.go.tera", "internal/core/cache.go");
    push_root_render(&mut acts, "internal/core/healthcheck.go.tera", "internal/core/healthcheck.go");
    push_root_render(&mut acts, "internal/core/mcpserver.go.tera", "internal/core/mcpserver.go");
    assert(action_views(acts@) =~= start + root_renders(core_files()));
    let ghost after0 = action_views(acts@);
    push_root_render(&mut acts, "Dockerfile.tera", "Dockerfile");
    push_root_render(&mut acts, "docker-compose.yml.tera", "docker-compose.yml");
    push_root_render(&mut acts, ".github/workflows/ci.yml.tera", ".github/workflows/ci.yml");
    push_root_render(&mut acts, ".github/workflows/docker-build.yml.tera", ".github/workflows/docker-build.yml");
    push_root_render(&mut acts, ".github/workflows/release.yml.tera", ".github/workflows/release.yml");
    assert(action_views(acts@) =~= after0 + root_renders(root_files()));
    assert(action_views(acts@) =~= enterprise_plan());
    acts
}


/// Each row of `core_files` renders the template of the same name: its output
/// is the template's path without `.tera`, under `src/` for sources.
pub proof fn law_core_files_outputs_match_templates()
    ensures
        forall|i: int|
            0 <= i < core_files().len() ==> {
                let t = #[trigger] core_files()[i].0;
                let o = core_files()[i].1;
                &&& t.len() >= 5
                &&& t.skip(t.len() - 5) == ".tera"@
                &&& (o == t.take(t.len() - 5) || o == "src/"@ + t.take(t.len() - 5))
            },
{
    reveal_strlit(".tera");
    reveal_strlit("internal/core/cache.go");
    reveal_strlit("internal/core/cache.go.tera");
    reveal_strlit("internal/core/circuitbreaker.go");
    reveal_strlit("internal/core/circuitbreaker.go.tera");
    reveal_strlit("internal/core/config.go");
    reveal_strlit("internal/core/config.go.tera");
    reveal_strlit("internal/core/credentialstorage.go");
    reveal_strlit("internal/core/credentialstorage.go.tera");
    reveal_strlit("internal/core/errors.go");
    reveal_strlit("internal/core/errors.go.tera");
    reveal_strlit("internal/core/healthcheck.go");
    reveal_strlit("internal/core/healthcheck.go.tera");
    reveal_strlit("internal/core/logger.go");
    reveal_strlit("internal/core/logger.go.tera");
    reveal_strlit("internal/core/mcpserver.go");
    reveal_strlit("internal/core/mcpserver.go.tera");
    reveal_strlit("internal/core/ratelimiter.go");
    reveal_strlit("internal/core/ratelimiter.go.tera");
    reveal_strlit("internal/core/tracing.go");
    reveal_strlit("internal/core/tracing.go.tera");
    reveal_strlit("src/");
    assert(core_files()[0].0.skip(28 - 5) =~= ".tera"@);
    assert(core_files()[0].1 =~= core_files()[0].0.take(28 - 5));
    assert(core_files()[1].0.skip(28 - 5) =~= ".tera"@);
    assert(core_files()[1].1 =~= core_files()[1].0.take(28 - 5));
    assert(core_files()[2].0.skip(29 - 5) =~= ".tera"@);
    assert(core_files()[2].1 =~= core_files()[2].0.take(29 - 5));
    assert(core_files()[3].0.skip(28 - 5) =~= ".tera"@);
    assert(core_files()[3].1 =~= core_files()[3].0.take(28 - 5));
    assert(core_files()[4].0.skip(36 - 5) =~= ".tera"@);
    assert(core_files()[4].1 =~= core_files()[4].0.take(36 - 5));
    assert(core_files()[5].0.skip(33 - 5) =~= ".tera"@);
    assert(core_files()[5].1 =~= core_files()[5].0.take(33 - 5));
    assert(core_files()[6].0.skip(39 - 5) =~= ".tera"@);
    assert(core_files()[6].1 =~= core_files()[6].0.take(39 - 5));
    assert(core_files()[7].0.skip(27 - 5) =~= ".tera"@);
    assert(core_files()[7].1 =~= core_files()[7].0.take(27 - 5));
    assert(core_files()[8].0.skip(33 - 5) =~= ".tera"@);
    assert(core_files()[8].1 =~= core_files()[8].0.take(33 - 5));
    assert(core_files()[9].0.skip(31 - 5) =~= ".tera"@);
    assert(core_files()[9].1 =~= core_files()[9].0.take(31 - 5));
    assert(core_files().len() == 10);
}

/// Each row of `root_files` renders the template of the same name: its output
/// is the template's path without `.tera`, under `src/` for sources.
pub proof fn law_root_files_outputs_match_templates()
    ensures
        forall|i: int|
            0 <= i < root_files().len() ==> {
                let t = #[trigger] root_files()[i].0;
                let o = root_files()[i].1;
                &&& t.len() >= 5
                &&& t.skip(t.len() - 5) == ".tera"@
                &&& (o == t.take(t.len() - 5) || o == "src/"@ + t.take(t.len() - 5))
            },
{
    reveal_strlit(".github/workflows/ci.yml");
    reveal_strlit(".github/workflows/ci.yml.tera");
    reveal_strlit(".github/workflows/docker-build.yml");
    reveal_strlit(".github/workflows/docker-build.yml.tera");
    reveal_strlit(".github/workflows/release.yml");
    reveal_strlit(".github/workflows/release.yml.tera");
    reveal_strlit(".tera");
    reveal_strlit("Dockerfile");
    reveal_strlit("Dockerfile.tera");
    reveal_strlit("docker-compose.yml");
    reveal_strlit("docker-compose.yml.tera");
    reveal_strlit("src/");
    assert(root_files()[0].0.skip(15 - 5) =~= ".tera"@);
    assert(root_files()[0].1 =~= root_files()[0].0.take(15 - 5));
    assert(root_files()[1].0.skip(23 - 5) =~= ".tera"@);
    assert(root_files()[1].1 =~= root_files()[1].0.take(23 - 5));
    assert(root_files()[2].0.skip(29 - 5) =~= ".tera"@);
    assert(root_files()[2].1 =~= root_files()[2].0.take(29 - 5));
    assert(root_files()[3].0.skip(39 - 5) =~= ".tera"@);
    assert(root_files()[3].1 =~= root_files()[3].0.take(39 - 5));
    assert(root_files()[4].0.skip(34 - 5) =~= ".tera"@);
    assert(root_files()[4].1 =~= root_files()[4].0.take(34 - 5));
    assert(root_files().len() == 5);
}

} // verus!
