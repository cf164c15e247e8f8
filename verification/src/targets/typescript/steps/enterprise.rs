//! Step two: the core modules every later file imports, plus packaging and CI.

use crate::context::GeneratorContext;
use crate::plan::{Action, ActionView, action_views, push_root_render, root_renders};
use vstd::prelude::*;
use vstd::string::*;

verus! {

/// Core modules, packaging and CI files.
pub open spec fn files() -> Seq<(Seq<char>, Seq<char>)> {
    seq![
        ("core/errors.ts.tera"@, "src/core/errors.ts"@),
        ("core/sanitizer.ts.tera"@, "src/core/sanitizer.ts"@),
        ("core/correlation-context.ts.tera"@, "src/core/correlation-context.ts"@),
        ("core/log-transport.ts.tera"@, "src/core/log-transport.ts"@),
        ("core/logger.ts.tera"@, "src/core/logger.ts"@),
        ("core/tracing.ts.tera"@, "src/core/tracing.ts"@),
        ("core/config-schema.ts.tera"@, "src/core/config-schema.ts"@),
        ("core/config-manager.ts.tera"@, "src/core/config-manager.ts"@),
        ("core/component-registry.ts.tera"@, "src/core/component-registry.ts"@),
        ("core/health-check-manager.ts.tera"@, "src/core/health-check-manager.ts"@),
        ("core/circuit-breaker.ts.tera"@, "src/core/circuit-breaker.ts"@),
        ("core/rate-limiter.ts.tera"@, "src/core/rate-limiter.ts"@),
        ("core/cache-manager.ts.tera"@, "src/core/cache-manager.ts"@),
        ("core/credential-storage.ts.tera"@, "src/core/credential-storage.ts"@),
        ("core/api-url-builder.ts.tera"@, "src/core/api-url-builder.ts"@),
        ("core/shutdown-handler.ts.tera"@, "src/core/shutdown-handler.ts"@),
        ("core/mcp-server.ts.tera"@, "src/core/mcp-server.ts"@),
        ("healthcheck.ts.tera"@, "src/healthcheck.ts"@),
        ("scripts/populate-embeddings.ts.tera"@, "scripts/populate-embeddings.ts"@),
        ("Dockerfile.tera"@, "Dockerfile"@),
        ("docker-compose.yml.tera"@, "docker-compose.yml"@),
        (".releaserc.json.tera"@, ".releaserc.json"@),
        (".github/workflows/ci.yml.tera"@, ".github/workflows/ci.yml"@),
        (".github/workflows/docker-build.yml.tera"@, ".github/workflows/docker-build.yml"@),
        (".github/workflows/release.yml.tera"@, ".github/workflows/release.yml"@),
    ]
}

/// Every core module, packaging and CI file.
pub open spec fn enterprise_plan() -> Seq<ActionView> {
    root_renders(files())
}

/// The enterprise scaffolding step.
pub fn generate_enterprise_scaffolding(_ctx: &GeneratorContext) -> (r: Vec<Action>)
    ensures
        action_views(r@) == enterprise_plan(),
{
    let mut acts: Vec<Action> = Vec::new();
    let ghost start = action_views(acts@);
    push_root_render(&mut acts, "core/errors.ts.tera", "src/core/errors.ts");
    push_root_render(&mut acts, "core/sanitizer.ts.tera", "src/core/sanitizer.ts");
    push_root_render(&mut acts, "core/correlation-context.ts.tera", "src/core/correlation-context.ts");
    push_root_render(&mut acts, "core/log-transport.ts.tera", "src/core/log-transport.ts");
    push_root_render(&mut acts, "core/logger.ts.tera", "src/core/logger.ts");
    push_root_render(&mut acts, "core/tracing.ts.tera", "src/core/tracing.ts");
    push_root_render(&mut acts, "core/config-schema.ts.tera", "src/core/config-schema.ts");
    push_root_render(&mut acts, "core/config-manager.ts.tera", "src/core/config-manager.ts");
    push_root_render(&mut acts, "core/component-registry.ts.tera", "src/core/component-registry.ts");
    push_root_render(&mut acts, "core/health-check-manager.ts.tera", "src/core/health-check-manager.ts");
    push_root_render(&mut acts, "core/circuit-breaker.ts.tera", "src/core/circuit-breaker.ts");
    push_root_render(&mut acts, "core/rate-limiter.ts.tera", "src/core/rate-limiter.ts");
    push_root_render(&mut acts, "core/cache-manager.ts.tera", "src/core/cache-manager.ts");
    push_root_render(&mut acts, "core/credential-storage.ts.tera", "src/core/credential-storage.ts");
    push_root_render(&mut acts, "core/api-url-builder.ts.tera", "src/core/api-url-builder.ts");
    push_root_render(&mut acts, "core/shutdown-handler.ts.tera", "src/core/shutdown-handler.ts");
    push_root_render(&mut acts, "core/mcp-server.ts.tera", "src/core/mcp-server.ts");
    push_root_render(&mut acts, "healthcheck.ts.tera", "src/healthcheck.ts");
    push_root_render(&mut acts, "scripts/populate-embeddings.ts.tera", "scripts/populate-embeddings.ts");
    push_root_render(&mut acts, "Dockerfile.tera", "Dockerfile");
    push_root_render(&mut acts, "docker-compose.yml.tera", "docker-compose.yml");
    push_root_render(&mut acts, ".releaserc.json.tera", ".releaserc.json");
    push_root_render(&mut acts, ".github/workflows/ci.yml.tera", ".github/workflows/ci.yml");
    push_root_render(&mut acts, ".github/workflows/docker-build.yml.tera", ".github/workflows/docker-build.yml");
    push_root_render(&mut acts, ".github/workflows/release.yml.tera", ".github/workflows/release.yml");
    assert(action_views(acts@) =~= start + root_renders(files()));
    assert(action_views(acts@) =~= enterprise_plan());
    acts
}


/// Each row of `files` renders the template of the same name: its output
/// is the template's path without `.tera`, under `src/` for sources.
pub proof fn law_files_outputs_match_templates()
    ensures
        forall|i: int|
            0 <= i < files().len() ==> {
                let t = #[trigger] files()[i].0;
                let o = files()[i].1;
                &&& t.len() >= 5
                &&& t.skip(t.len() - 5) == ".tera"@
                &&& (o == t.take(t.len() - 5) || o == "src/"@ + t.take(t.len() - 5))
            },
{
    reveal_strlit(".github/workflows/ci.yml");
    reveal_strlit(".github/workflows/ci.yml.tera");
    reveal_strlit(".github/workflows/docker-build.yml");
    reveal_strlit(".github/workflows/docker-build.yml.tera");
    reveal_strlit(".github/workflows/release.yml");
    reveal_strlit(".github/workflows/release.yml.tera");
    reveal_strlit(".releaserc.json");
    reveal_strlit(".releaserc.json.tera");
    reveal_strlit(".tera");
    reveal_strlit("Dockerfile");
    reveal_strlit("Dockerfile.tera");
    reveal_strlit("core/api-url-builder.ts.tera");
    reveal_strlit("core/cache-manager.ts.tera");
    reveal_strlit("core/circuit-breaker.ts.tera");
    reveal_strlit("core/component-registry.ts.tera");
    reveal_strlit("core/config-manager.ts.tera");
    reveal_strlit("core/config-schema.ts.tera");
    reveal_strlit("core/correlation-context.ts.tera");
    reveal_strlit("core/credential-storage.ts.tera");
    reveal_strlit("core/errors.ts.tera");
    reveal_strlit("core/health-check-manager.ts.tera");
    reveal_strlit("core/log-transport.ts.tera");
    reveal_strlit("core/logger.ts.tera");
    reveal_strlit("core/mcp-server.ts.tera");
    reveal_strlit("core/rate-limiter.ts.tera");
    reveal_strlit("core/sanitizer.ts.tera");
    reveal_strlit("core/shutdown-handler.ts.tera");
    reveal_strlit("core/tracing.ts.tera");
    reveal_strlit("docker-compose.yml");
    reveal_strlit("docker-compose.yml.tera");
    reveal_strlit("healthcheck.ts.tera");
    reveal_strlit("scripts/populate-embeddings.ts");
    reveal_strlit("scripts/populate-embeddings.ts.tera");
    reveal_strlit("src/");
    reveal_strlit("src/core/api-url-builder.ts");
    reveal_strlit("src/core/cache-manager.ts");
    reveal_strlit("src/core/circuit-breaker.ts");
    reveal_strlit("src/core/component-registry.ts");
    reveal_strlit("src/core/config-manager.ts");
    reveal_strlit("src/core/config-schema.ts");
    reveal_strlit("src/core/correlation-context.ts");
    reveal_strlit("src/core/credential-storage.ts");
    reveal_strlit("src/core/errors.ts");
    reveal_strlit("src/core/health-check-manager.ts");
    reveal_strlit("src/core/log-transport.ts");
    reveal_strlit("src/core/logger.ts");
    reveal_strlit("src/core/mcp-server.ts");
    reveal_strlit("src/core/rate-limiter.ts");
    reveal_strlit("src/core/sanitizer.ts");
    reveal_strlit("src/core/shutdown-handler.ts");
    reveal_strlit("src/core/tracing.ts");
    reveal_strlit("src/healthcheck.ts");
    assert(files()[0].0.skip(19 - 5) =~= ".tera"@);
    assert(files()[0].1 =~= "src/"@ + files()[0].0.take(19 - 5));
    assert(files()[1].0.skip(22 - 5) =~= ".tera"@);
    assert(files()[1].1 =~= "src/"@ + files()[1].0.take(22 - 5));
    assert(files()[2].0.skip(32 - 5) =~= ".tera"@);
    assert(files()[2].1 =~= "src/"@ + files()[2].0.take(32 - 5));
    assert(files()[3].0.skip(26 - 5) =~= ".tera"@);
    assert(files()[3].1 =~= "src/"@ + files()[3].0.take(26 - 5));
    assert(files()[4].0.skip(19 - 5) =~= ".tera"@);
    assert(files()[4].1 =~= "src/"@ + files()[4].0.take(19 - 5));
    assert(files()[5].0.skip(20 - 5) =~= ".tera"@);
    assert(files()[5].1 =~= "src/"@ + files()[5].0.take(20 - 5));
    assert(files()[6].0.skip(26 - 5) =~= ".tera"@);
    assert(files()[6].1 =~= "src/"@ + files()[6].0.take(26 - 5));
    assert(files()[7].0.skip(27 - 5) =~= ".tera"@);
    assert(files()[7].1 =~= "src/"@ + files()[7].0.take(27 - 5));
    assert(files()[8].0.skip(31 - 5) =~= ".tera"@);
    assert(files()[8].1 =~= "src/"@ + files()[8].0.take(31 - 5));
    assert(files()[9].0.skip(33 - 5) =~= ".tera"@);
    assert(files()[9].1 =~= "src/"@ + files()[9].0.take(33 - 5));
    assert(files()[10].0.skip(28 - 5) =~= ".tera"@);
    assert(files()[10].1 =~= "src/"@ + files()[10].0.take(28 - 5));
    assert(files()[11].0.skip(25 - 5) =~= ".tera"@);
    assert(files()[11].1 =~= "src/"@ + files()[11].0.take(25 - 5));
    assert(files()[12].0.skip(26 - 5) =~= ".tera"@);
    assert(files()[12].1 =~= "src/"@ + files()[12].0.take(26 - 5));
    assert(files()[13].0.skip(31 - 5) =~= ".tera"@);
    assert(files()[13].1 =~= "src/"@ + files()[13].0.take(31 - 5));
    assert(files()[14].0.skip(28 - 5) =~= ".tera"@);
    assert(files()[14].1 =~= "src/"@ + files()[14].0.take(28 - 5));
    assert(files()[15].0.skip(29 - 5) =~= ".tera"@);
    assert(files()[15].1 =~= "src/"@ + files()[15].0.take(29 - 5));
    assert(files()[16].0.skip(23 - 5) =~= ".tera"@);
    assert(files()[16].1 =~= "src/"@ + files()[16].0.take(23 - 5));
    assert(files()[17].0.skip(19 - 5) =~= ".tera"@);
    assert(files()[17].1 =~= "src/"@ + files()[17].0.take(19 - 5));
    assert(files()[18].0.skip(35 - 5) =~= ".tera"@);
    assert(files()[18].1 =~= files()[18].0.take(35 - 5));
    assert(files()[19].0.skip(15 - 5) =~= ".tera"@);
    assert(files()[19].1 =~= files()[19].0.take(15 - 5));
    assert(files()[20].0.skip(23 - 5) =~= ".tera"@);
    assert(files()[20].1 =~= files()[20].0.take(23 - 5));
    assert(files()[21].0.skip(20 - 5) =~= ".tera"@);
    assert(files()[21].1 =~= files()[21].0.take(20 - 5));
    assert(files()[22].0.skip(29 - 5) =~= ".tera"@);
    assert(files()[22].1 =~= files()[22].0.take(29 - 5));
    assert(files()[23].0.skip(39 - 5) =~= ".tera"@);
    assert(files()[23].1 =~= files()[23].0.take(39 - 5));
    assert(files()[24].0.skip(34 - 5) =~= ".tera"@);
    assert(files()[24].1 =~= files()[24].0.take(34 - 5));
    assert(files().len() == 25);
}

} // verus!
