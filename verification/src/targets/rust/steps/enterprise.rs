//! Step two: the core modules every later file imports, plus packaging and CI.

use crate::context::GeneratorContext;
use crate::plan::{Action, ActionView, action_views, push_root_render, root_renders};
use vstd::prelude::*;
use vstd::string::*;

verus! {

/// Core modules, helper binaries, packaging and CI files.
pub open spec fn files() -> Seq<(Seq<char>, Seq<char>)> {
    seq![
        ("core/mod.rs.tera"@, "src/core/mod.rs"@),
        ("core/errors.rs.tera"@, "src/core/errors.rs"@),
        ("core/sanitizer.rs.tera"@, "src/core/sanitizer.rs"@),
        ("core/correlation_context.rs.tera"@, "src/core/correlation_context.rs"@),
        ("core/log_transport.rs.tera"@, "src/core/log_transport.rs"@),
        ("core/logger.rs.tera"@, "src/core/logger.rs"@),
        ("core/otel.rs.tera"@, "src/core/otel.rs"@),
        ("core/config_schema.rs.tera"@, "src/core/config_schema.rs"@),
        ("core/config_manager.rs.tera"@, "src/core/config_manager.rs"@),
        ("core/component_registry.rs.tera"@, "src/core/component_registry.rs"@),
        ("core/health_check_manager.rs.tera"@, "src/core/health_check_manager.rs"@),
        ("core/circuit_breaker.rs.tera"@, "src/core/circuit_breaker.rs"@),
        ("core/rate_limiter.rs.tera"@, "src/core/rate_limiter.rs"@),
        ("core/cache_manager.rs.tera"@, "src/core/cache_manager.rs"@),
        ("core/credential_storage.rs.tera"@, "src/core/credential_storage.rs"@),
        ("core/api_url_builder.rs.tera"@, "src/core/api_url_builder.rs"@),
        ("core/shutdown_handler.rs.tera"@, "src/core/shutdown_handler.rs"@),
        ("core/mcp_server.rs.tera"@, "src/core/mcp_server.rs"@),
        ("bin/healthcheck.rs.tera"@, "src/bin/healthcheck.rs"@),
        ("bin/populate_embeddings.rs.tera"@, "src/bin/populate_embeddings.rs"@),
        ("Dockerfile.tera"@, "Dockerfile"@),
        ("docker-compose.yml.tera"@, "docker-compose.yml"@),
        (".github/workflows/ci.yml.tera"@, ".github/workflows/ci.yml"@),
        (".github/workflows/docker-build.yml.tera"@, ".github/workflows/docker-build.yml"@),
        (".github/workflows/release.yml.tera"@, ".github/workflows/release.yml"@),
    ]
}

/// Every core module, binary, packaging and CI file.
pub open spec fn enterprise_plan() -> Seq<ActionView> {
    root_renders(files())
}

/// The enterprise scaffolding step.
pub fn generate_enterprise_scaffolding(_ctx: &GeneratorContext) -> (r: Vec<Action>)
    ensures
        action_views(r@) == enterprise_plan(),
{
    let mut acts: Vec<Action> = Vec::new();
    let ghost start = action_views(acts@);
    push_root_render(&mut acts, "core/mod.rs.tera", "src/core/mod.rs");
    push_root_render(&mut acts, "core/errors.rs.tera", "src/core/errors.rs");
    push_root_render(&mut acts, "core/sanitizer.rs.tera", "src/core/sanitizer.rs");
    push_root_render(&mut acts, "core/correlation_context.rs.tera", "src/core/correlation_context.rs");
    push_root_render(&mut acts, "core/log_transport.rs.tera", "src/core/log_transport.rs");
    push_root_render(&mut acts, "core/logger.rs.tera", "src/core/logger.rs");
    push_root_render(&mut acts, "core/otel.rs.tera", "src/core/otel.rs");
    push_root_render(&mut acts, "core/config_schema.rs.tera", "src/core/config_schema.rs");
    push_root_render(&mut acts, "core/config_manager.rs.tera", "src/core/config_manager.rs");
    push_root_render(&mut acts, "core/component_registry.rs.tera", "src/core/component_registry.rs");
    push_root_render(&mut acts, "core/health_check_manager.rs.tera", "src/core/health_check_manager.rs");
    push_root_render(&mut acts, "core/circuit_breaker.rs.tera", "src/core/circuit_breaker.rs");
    push_root_render(&mut acts, "core/rate_limiter.rs.tera", "src/core/rate_limiter.rs");
    push_root_render(&mut acts, "core/cache_manager.rs.tera", "src/core/cache_manager.rs");
    push_root_render(&mut acts, "core/credential_storage.rs.tera", "src/core/credential_storage.rs");
    push_root_render(&mut acts, "core/api_url_builder.rs.tera", "src/core/api_url_builder.rs");
    push_root_render(&mut acts, "core/shutdown_handler.rs.tera", "src/core/shutdown_handler.rs");
    push_root_render(&mut acts, "core/mcp_server.rs.tera", "src/core/mcp_server.rs");
    push_root_render(&mut acts, "bin/healthcheck.rs.tera", "src/bin/healthcheck.rs");
    push_root_render(&mut acts, "bin/populate_embeddings.rs.tera", "src/bin/populate_embeddings.rs");
    push_root_render(&mut acts, "Dockerfile.tera", "Dockerfile");
    push_root_render(&mut acts, "docker-compose.yml.tera", "docker-compose.yml");
    push_root_render(&mut acts, ".github/workflows/ci.yml.tera", ".github/workflows/ci.yml");
    push_root_render(&mut acts, ".github/workflows/docker-build.yml.tera", ".github/workflows/docker-build.yml");
    push_root_render(&mut acts, ".github/workflows/release.yml.tera", ".github/workflows/release.yml");
    assert(action_views(acts@) =~= start + root_renders(files()));
    assert(action_views(acts@) =~= enterprise_plan());
    acts
}


/// Each row of `files` renders the template of the same name: its output
/// is the template's path without `.tera`, under `src/` for sources.
pub proof fn law_files_outputs_match_templates()
    ensures
        forall|i: int|
            0 <= i < files().len() ==> {
                let t = #[trigger] files()[i].0;
                let o = files()[i].1;
                &&& t.len() >= 5
                &&& t.skip(t.len() - 5) == ".tera"@
                &&& (o == t.take(t.len() - 5) || o == "src/"@ + t.take(t.len() - 5))
            },
{
    reveal_strlit(".github/workflows/ci.yml");
    reveal_strlit(".github/workflows/ci.yml.tera");
    reveal_strlit(".github/workflows/docker-build.yml");
    reveal_strlit(".github/workflows/docker-build.yml.tera");
    reveal_strlit(".github/workflows/release.yml");
    reveal_strlit(".github/workflows/release.yml.tera");
    reveal_strlit(".tera");
    reveal_strlit("Dockerfile");
    reveal_strlit("Dockerfile.tera");
    reveal_strlit("bin/healthcheck.rs.tera");
    reveal_strlit("bin/populate_embeddings.rs.tera");
    reveal_strlit("core/api_url_builder.rs.tera");
    reveal_strlit("core/cache_manager.rs.tera");
    reveal_strlit("core/circuit_breaker.rs.tera");
    reveal_strlit("core/component_registry.rs.tera");
    reveal_strlit("core/config_manager.rs.tera");
    reveal_strlit("core/config_schema.rs.tera");
    reveal_strlit("core/correlation_context.rs.tera");
    reveal_strlit("core/credential_storage.rs.tera");
    reveal_strlit("core/errors.rs.tera");
    reveal_strlit("core/health_check_manager.rs.tera");
    reveal_strlit("core/log_transport.rs.tera");
    reveal_strlit("core/logger.rs.tera");
    reveal_strlit("core/mcp_server.rs.tera");
    reveal_strlit("core/mod.rs.tera");
    reveal_strlit("core/otel.rs.tera");
    reveal_strlit("core/rate_limiter.rs.tera");
    reveal_strlit("core/sanitizer.rs.tera");
    reveal_strlit("core/shutdown_handler.rs.tera");
    reveal_strlit("docker-compose.yml");
    reveal_strlit("docker-compose.yml.tera");
    reveal_strlit("src/");
    reveal_strlit("src/bin/healthcheck.rs");
    reveal_strlit("src/bin/populate_embeddings.rs");
    reveal_strlit("src/core/api_url_builder.rs");
    reveal_strlit("src/core/cache_manager.rs");
    reveal_strlit("src/core/circuit_breaker.rs");
    reveal_strlit("src/core/component_registry.rs");
    reveal_strlit("src/core/config_manager.rs");
    reveal_strlit("src/core/config_schema.rs");
    reveal_strlit("src/core/correlation_context.rs");
    reveal_strlit("src/core/credential_storage.rs");
    reveal_strlit("src/core/errors.rs");
    reveal_strlit("src/core/health_check_manager.rs");
    reveal_strlit("src/core/log_transport.rs");
    reveal_strlit("src/core/logger.rs");
    reveal_strlit("src/core/mcp_server.rs");
    reveal_strlit("src/core/mod.rs");
    reveal_strlit("src/core/otel.rs");
    reveal_strlit("src/core/rate_limiter.rs");
    reveal_strlit("src/core/sanitizer.rs");
    reveal_strlit("src/core/shutdown_handler.rs");
    assert(files()[0].0.skip(16 - 5) =~= ".tera"@);
    assert(files()[0].1 =~= "src/"@ + files()[0].0.take(16 - 5));
    assert(files()[1].0.skip(19 - 5) =~= ".tera"@);
    assert(files()[1].1 =~= "src/"@ + files()[1].0.take(19 - 5));
    assert(files()[2].0.skip(22 - 5) =~= ".tera"@);
    assert(files()[2].1 =~= "src/"@ + files()[2].0.take(22 - 5));
    assert(files()[3].0.skip(32 - 5) =~= ".tera"@);
    assert(files()[3].1 =~= "src/"@ + files()[3].0.take(32 - 5));
    assert(files()[4].0.skip(26 - 5) =~= ".tera"@);
    assert(files()[4].1 =~= "src/"@ + files()[4].0.take(26 - 5));
    assert(files()[5].0.skip(19 - 5) =~= ".tera"@);
    assert(files()[5].1 =~= "src/"@ + files()[5].0.take(19 - 5));
    assert(files()[6].0.skip(17 - 5) =~= ".tera"@);
    assert(files()[6].1 =~= "src/"@ + files()[6].0.take(17 - 5));
    assert(files()[7].0.skip(26 - 5) =~= ".tera"@);
    assert(files()[7].1 =~= "src/"@ + files()[7].0.take(26 - 5));
    assert(files()[8].0.skip(27 - 5) =~= ".tera"@);
    assert(files()[8].1 =~= "src/"@ + files()[8].0.take(27 - 5));
    assert(files()[9].0.skip(31 - 5) =~= ".tera"@);
    assert(files()[9].1 =~= "src/"@ + files()[9].0.take(31 - 5));
    assert(files()[10].0.skip(33 - 5) =~= ".tera"@);
    assert(files()[10].1 =~= "src/"@ + files()[10].0.take(33 - 5));
    assert(files()[11].0.skip(28 - 5) =~= ".tera"@);
    assert(files()[11].1 =~= "src/"@ + files()[11].0.take(28 - 5));
    assert(files()[12].0.skip(25 - 5) =~= ".tera"@);
    assert(files()[12].1 =~= "src/"@ + files()[12].0.take(25 - 5));
    assert(files()[13].0.skip(26 - 5) =~= ".tera"@);
    assert(files()[13].1 =~= "src/"@ + files()[13].0.take(26 - 5));
    assert(files()[14].0.skip(31 - 5) =~= ".tera"@);
    assert(files()[14].1 =~= "src/"@ + files()[14].0.take(31 - 5));
    assert(files()[15].0.skip(28 - 5) =~= ".tera"@);
    assert(files()[15].1 =~= "src/"@ + files()[15].0.take(28 - 5));
    assert(files()[16].0.skip(29 - 5) =~= ".tera"@);
    assert(files()[16].1 =~= "src/"@ + files()[16].0.take(29 - 5));
    assert(files()[17].0.skip(23 - 5) =~= ".tera"@);
    assert(files()[17].1 =~= "src/"@ + files()[17].0.take(23 - 5));
    assert(files()[18].0.skip(23 - 5) =~= ".tera"@);
    assert(files()[18].1 =~= "src/"@ + files()[18].0.take(23 - 5));
    assert(files()[19].0.skip(31 - 5) =~= ".tera"@);
    assert(files()[19].1 =~= "src/"@ + files()[19].0.take(31 - 5));
    assert(files()[20].0.skip(15 - 5) =~= ".tera"@);
    assert(files()[20].1 =~= files()[20].0.take(15 - 5));
    assert(files()[21].0.skip(23 - 5) =~= ".tera"@);
    assert(files()[21].1 =~= files()[21].0.take(23 - 5));
    assert(files()[22].0.skip(29 - 5) =~= ".tera"@);
    assert(files()[22].1 =~= files()[22].0.take(29 - 5));
    assert(files()[23].0.skip(39 - 5) =~= ".tera"@);
    assert(files()[23].1 =~= files()[23].0.take(39 - 5));
    assert(files()[24].0.skip(34 - 5) =~= ".tera"@);
    assert(files()[24].1 =~= files()[24].0.take(34 - 5));
    assert(files().len() == 25);
}

} // verus!
