//! Step two: the `core` subpackage, packaging and CI.

use crate::context::GeneratorContext;
use crate::plan::{Action, ActionView, action_views, push_render, push_root_render, renders, root_renders};
use crate::targets::python::context::{module_name, spec_py_module_name};
use vstd::prelude::*;
use vstd::string::*;

verus! {

/// Modules of the `core` subpackage, relative to the package root.
pub open spec fn core_files() -> Seq<(Seq<char>, Seq<char>)> {
    seq![
        ("core/errors.py.tera"@, "core/errors.py"@),
        ("core/logger.py.tera"@, "core/logger.py"@),
        ("core/tracing.py.tera"@, "core/tracing.py"@),
        ("core/config.py.tera"@, "core/config.py"@),
        ("core/circuit_breaker.py.tera"@, "core/circuit_breaker.py"@),
        ("core/rate_limiter.py.tera"@, "core/rate_limiter.py"@),
        ("core/cache.py.tera"@, "core/cache.py"@),
        ("core/credential_storage.py.tera"@, "core/credential_storage.py"@),
        ("core/health_check.py.tera"@, "core/health_check.py"@),
        ("core/mcp_server.py.tera"@, "core/mcp_server.py"@),
    ]
}

/// Packaging and CI files at the project root.
pub open spec fn root_files() -> Seq<(Seq<char>, Seq<char>)> {
    seq![
        ("Dockerfile.tera"@, "Dockerfile"@),
        ("docker-compose.yml.tera"@, "docker-compose.yml"@),
        (".github/workflows/ci.yml.tera"@, ".github/workflows/ci.yml"@),
        (".github/workflows/docker-build.yml.tera"@, ".github/workflows/docker-build.yml"@),
        (".github/workflows/release.yml.tera"@, ".github/workflows/release.yml"@),
    ]
}

/// Every core module inside the package, then every packaging and CI file.
pub open spec fn enterprise_plan(module: Seq<char>) -> Seq<ActionView> {
    renders("src/"@ + module + "/"@, core_files())
        + root_renders(root_files())
}

/// The enterprise scaffolding step.
pub fn generate_enterprise_scaffolding(ctx: &GeneratorContext) -> (r: Vec<Action>)
    ensures
        action_views(r@) == enterprise_plan(spec_py_module_name(ctx.output_dir@, ctx.api_title@)),
{
    let module = module_name(ctx);
    let mut package_root = String::from_str("src/");
    package_root.append(module.as_str());
    package_root.append("/");
    let mut acts: Vec<Action> = Vec::new();
    let ghost start = action_views(acts@);
    push_render(&mut acts, package_root.as_str(), "core/errors.py.tera", "core/errors.py");
    push_render(&mut acts, package_root.as_str(), "core/logger.py.tera", "core/logger.py");
    push_render(&mut acts, package_root.as_str(), "core/tracing.py.tera", "core/tracing.py");
    push_render(&mut acts, package_root.as_str(), "core/config.py.tera", "core/config.py");
    push_render(&mut acts, package_root.as_str(), "core/circuit_breaker.py.tera", "core/circuit_breaker.py");
    push_render(&mut acts, package_root.as_str(), "core/rate_limiter.py.tera", "core/rate_limiter.py");
    push_render(&mut acts, package_root.as_str(), "core/cache.py.tera", "core/cache.py");
    push_render(&mut acts, package_root.as_str(), "core/credential_storage.py.tera", "core/credential_storage.py");
    push_render(&mut acts, package_root.as_str(), "core/health_check.py.tera", "core/health_check.py");
    push_render(&mut acts, package_root.as_str(), "core/mcp_server.py.tera", "core/mcp_server.py");
    assert(action_views(acts@) =~= start + renders("src/"@ + module@ + "/"@, core_files()));
    let ghost after0 = action_views(acts@);
    push_root_render(&mut acts, "Dockerfile.tera", "Dockerfile");
    push_root_render(&mut acts, "docker-compose.yml.tera", "docker-compose.yml");
    push_root_render(&mut acts, ".github/workflows/ci.yml.tera", ".github/workflows/ci.yml");
    push_root_render(&mut acts, ".github/workflows/docker-build.yml.tera", ".github/workflows/docker-build.yml");
    push_root_render(&mut acts, ".github/workflows/release.yml.tera", ".github/workflows/release.yml");
    assert(action_views(acts@) =~= after0 + root_renders(root_files()));
    assert(action_views(acts@) =~= enterprise_plan(spec_py_module_name(ctx.output_dir@, ctx.api_title@)));
    acts
}


/// Each row of `core_files` renders the template of the same name: its output
/// is the template's path without `.tera`, under `src/` for sources.
pub proof fn law_core_files_outputs_match_templates()
    ensures
        forall|i: int|
            0 <= i < core_files().len() ==> {
                let t = #[trigger] core_files()[i].0;
                let o = core_files()[i].1;
                &&& t.len() >= 5
                &&& t.skip(t.len() - 5) == ".tera"@
                &&& (o == t.take(t.len() - 5) || o == "src/"@ + t.take(t.len() - 5))
            },
{
    reveal_strlit(".tera");
    reveal_strlit("core/cache.py");
    reveal_strlit("core/cache.py.tera");
    reveal_strlit("core/circuit_breaker.py");
    reveal_strlit("core/circuit_breaker.py.tera");
    reveal_strlit("core/config.py");
    reveal_strlit("core/config.py.tera");
    reveal_strlit("core/credential_storage.py");
    reveal_strlit("core/credential_storage.py.tera");
    reveal_strlit("core/errors.py");
    reveal_strlit("core/errors.py.tera");
    reveal_strlit("core/health_check.py");
    reveal_strlit("core/health_check.py.tera");
    reveal_strlit("core/logger.py");
    reveal_strlit("core/logger.py.tera");
    reveal_strlit("core/mcp_server.py");
    reveal_strlit("core/mcp_server.py.tera");
    reveal_strlit("core/rate_limiter.py");
    reveal_strlit("core/rate_limiter.py.tera");
    reveal_strlit("core/tracing.py");
    reveal_strlit("core/tracing.py.tera");
    reveal_strlit("src/");
    assert(core_files()[0].0.skip(19 - 5) =~= ".tera"@);
    assert(core_files()[0].1 =~= core_files()[0].0.take(19 - 5));
    assert(core_files()[1].0.skip(19 - 5) =~= ".tera"@);
    assert(core_files()[1].1 =~= core_files()[1].0.take(19 - 5));
    assert(core_files()[2].0.skip(20 - 5) =~= ".tera"@);
    assert(core_files()[2].1 =~= core_files()[2].0.take(20 - 5));
    assert(core_files()[3].0.skip(19 - 5) =~= ".tera"@);
    assert(core_files()[3].1 =~= core_files()[3].0.take(19 - 5));
    assert(core_files()[4].0.skip(28 - 5) =~= ".tera"@);
    assert(core_files()[4].1 =~= core_files()[4].0.take(28 - 5));
    assert(core_files()[5].0.skip(25 - 5) =~= ".tera"@);
    assert(core_files()[5].1 =~= core_files()[5].0.take(25 - 5));
    assert(core_files()[6].0.skip(18 - 5) =~= ".tera"@);
    assert(core_files()[6].1 =~= core_files()[6].0.take(18 - 5));
    assert(core_files()[7].0.skip(31 - 5) =~= ".tera"@);
    assert(core_files()[7].1 =~= core_files()[7].0.take(31 - 5));
    assert(core_files()[8].0.skip(25 - 5) =~= ".tera"@);
    assert(core_files()[8].1 =~= core_files()[8].0.take(25 - 5));
    assert(core_files()[9].0.skip(23 - 5) =~= ".tera"@);
    assert(core_files()[9].1 =~= core_files()[9].0.take(23 - 5));
    assert(core_files().len() == 10);
}

/// Each row of `root_files` renders the template of the same name: its output
/// is the template's path without `.tera`, under `src/` for sources.
pub proof fn law_root_files_outputs_match_templates()
    ensures
        forall|i: int|
            0 <= i < root_files().len() ==> {
                let t = #[trigger] root_files()[i].0;
                let o = root_files()[i].1;
                &&& t.len() >= 5
                &&& t.skip(t.len() - 5) == ".tera"@
                &&& (o == t.take(t.len() - 5) || o == "src/"@ + t.take(t.len() - 5))
            },
{
    reveal_strlit(".github/workflows/ci.yml");
    reveal_strlit(".github/workflows/ci.yml.tera");
    reveal_strlit(".github/workflows/docker-build.yml");
    reveal_strlit(".github/workflows/docker-build.yml.tera");
    reveal_strlit(".github/workflows/release.yml");
    reveal_strlit(".github/workflows/release.yml.tera");
    reveal_strlit(".tera");
    reveal_strlit("Dockerfile");
    reveal_strlit("Dockerfile.tera");
    reveal_strlit("docker-compose.yml");
    reveal_strlit("docker-compose.yml.tera");
    reveal_strlit("src/");
    assert(root_files()[0].0.skip(15 - 5) =~= ".tera"@);
    assert(root_files()[0].1 =~= root_files()[0].0.take(15 - 5));
    assert(root_files()[1].0.skip(23 - 5) =~= ".tera"@);
    assert(root_files()[1].1 =~= root_files()[1].0.take(23 - 5));
    assert(root_files()[2].0.skip(29 - 5) =~= ".tera"@);
    assert(root_files()[2].1 =~= root_files()[2].0.take(29 - 5));
    assert(root_files()[3].0.skip(39 - 5) =~= ".tera"@);
    assert(root_files()[3].1 =~= root_files()[3].0.take(39 - 5));
    assert(root_files()[4].0.skip(34 - 5) =~= ".tera"@);
    assert(root_files()[4].1 =~= root_files()[4].0.take(34 - 5));
    assert(root_files().len() == 5);
}

} // verus!
