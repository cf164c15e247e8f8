//! Step four: the entry point, the CLI commands and the HTTP transport.

use crate::context::GeneratorContext;
use crate::plan::{Action, ActionView, action_views, push_render, push_root_render, renders, root_renders};
use crate::targets::python::context::{module_name, spec_py_module_name};
use vstd::prelude::*;
use vstd::string::*;

verus! {

/// The entry point at the project root.
pub open spec fn root_files() -> Seq<(Seq<char>, Seq<char>)> {
    seq![
        ("main.py.tera"@, "main.py"@),
    ]
}

/// CLI and HTTP modules, relative to the package root.
pub open spec fn package_files() -> Seq<(Seq<char>, Seq<char>)> {
    seq![
        ("cli/__init__.py.tera"@, "cli/__init__.py"@),
        ("cli/setup.py.tera"@, "cli/setup.py"@),
        ("cli/search.py.tera"@, "cli/search.py"@),
        ("cli/get.py.tera"@, "cli/get.py"@),
        ("cli/call.py.tera"@, "cli/call.py"@),
        ("cli/test_connection.py.tera"@, "cli/test_connection.py"@),
        ("cli/config.py.tera"@, "cli/config.py"@),
        ("cli/version.py.tera"@, "cli/version.py"@),
        ("http/__init__.py.tera"@, "http/__init__.py"@),
        ("http/types.py.tera"@, "http/types.py"@),
        ("http/localhost_detector.py.tera"@, "http/localhost_detector.py"@),
        ("http/auth_extractor.py.tera"@, "http/auth_extractor.py"@),
        ("http/metrics.py.tera"@, "http/metrics.py"@),
        ("http/server.py.tera"@, "http/server.py"@),
    ]
}

/// The root entry point, then every CLI and HTTP module inside the package.
pub open spec fn transports_plan(module: Seq<char>) -> Seq<ActionView> {
    root_renders(root_files())
        + renders("src/"@ + module + "/"@, package_files())
}

/// The transports step.
pub fn generate_transports_and_roles(ctx: &GeneratorContext) -> (r: Vec<Action>)
    ensures
        action_views(r@) == transports_plan(spec_py_module_name(ctx.output_dir@, ctx.api_title@)),
{
    let module = module_name(ctx);
    let mut package_root = String::from_str("src/");
    package_root.append(module.as_str());
    package_root.append("/");
    let mut acts: Vec<Action> = Vec::new();
    let ghost start = action_views(acts@);
    push_root_render(&mut acts, "main.py.tera", "main.py");
    assert(action_views(acts@) =~= start + root_renders(root_files()));
    let ghost after0 = action_views(acts@);
    push_render(&mut acts, package_root.as_str(), "cli/__init__.py.tera", "cli/__init__.py");
    push_render(&mut acts, package_root.as_str(), "cli/setup.py.tera", "cli/setup.py");
    push_render(&mut acts, package_root.as_str(), "cli/search.py.tera", "cli/search.py");
    push_render(&mut acts, package_root.as_str(), "cli/get.py.tera", "cli/get.py");
    push_render(&mut acts, package_root.as_str(), "cli/call.py.tera", "cli/call.py");
    push_render(&mut acts, package_root.as_str(), "cli/test_connection.py.tera", "cli/test_connection.py");
    push_render(&mut acts, package_root.as_str(), "cli/config.py.tera", "cli/config.py");
    push_render(&mut acts, package_root.as_str(), "cli/version.py.tera", "cli/version.py");
    push_render(&mut acts, package_root.as_str(), "http/__init__.py.tera", "http/__init__.py");
    push_render(&mut acts, package_root.as_str(), "http/types.py.tera", "http/types.py");
    push_render(&mut acts, package_root.as_str(), "http/localhost_detector.py.tera", "http/localhost_detector.py");
    push_render(&mut acts, package_root.as_str(), "http/auth_extractor.py.tera", "http/auth_extractor.py");
    push_render(&mut acts, package_root.as_str(), "http/metrics.py.tera", "http/metrics.py");
    push_render(&mut acts, package_root.as_str(), "http/server.py.tera", "http/server.py");
    assert(action_views(acts@) =~= after0 + renders("src/"@ + module@ + "/"@, package_files()));
    assert(action_views(acts@) =~= transports_plan(spec_py_module_name(ctx.output_dir@, ctx.api_title@)));
    acts
}


/// Each row of `root_files` renders the template of the same name: its output
/// is the template's path without `.tera`, under `src/` for sources.
pub proof fn law_root_files_outputs_match_templates()
    ensures
        forall|i: int|
            0 <= i < root_files().len() ==> {
                let t = #[trigger] root_files()[i].0;
                let o = root_files()[i].1;
                &&& t.len() >= 5
                &&& t.skip(t.len() - 5) == ".tera"@
                &&& (o == t.take(t.len() - 5) || o == "src/"@ + t.take(t.len() - 5))
            },
{
    reveal_strlit(".tera");
    reveal_strlit("main.py");
    reveal_strlit("main.py.tera");
    reveal_strlit("src/");
    assert(root_files()[0].0.skip(12 - 5) =~= ".tera"@);
    assert(root_files()[0].1 =~= root_files()[0].0.take(12 - 5));
    assert(root_files().len() == 1);
}

/// Each row of `package_files` renders the template of the same name: its output
/// is the template's path without `.tera`, under `src/` for sources.
pub proof fn law_package_files_outputs_match_templates()
    ensures
        forall|i: int|
            0 <= i < package_files().len() ==> {
                let t = #[trigger] package_files()[i].0;
                let o = package_files()[i].1;
                &&& t.len() >= 5
                &&& t.skip(t.len() - 5) == ".tera"@
                &&& (o == t.take(t.len() - 5) || o == "src/"@ + t.take(t.len() - 5))
            },
{
    reveal_strlit(".tera");
    reveal_strlit("cli/__init__.py");
    reveal_strlit("cli/__init__.py.tera");
    reveal_strlit("cli/call.py");
    reveal_strlit("cli/call.py.tera");
    reveal_strlit("cli/config.py");
    reveal_strlit("cli/config.py.tera");
    reveal_strlit("cli/get.py");
    reveal_strlit("cli/get.py.tera");
    reveal_strlit("cli/search.py");
    reveal_strlit("cli/search.py.tera");
    reveal_strlit("cli/setup.py");
    reveal_strlit("cli/setup.py.tera");
    reveal_strlit("cli/test_connection.py");
    reveal_strlit("cli/test_connection.py.tera");
    reveal_strlit("cli/version.py");
    reveal_strlit("cli/version.py.tera");
    reveal_strlit("http/__init__.py");
    reveal_strlit("http/__init__.py.tera");
    reveal_strlit("http/auth_extractor.py");
    reveal_strlit("http/auth_extractor.py.tera");
    reveal_strlit("http/localhost_detector.py");
    reveal_strlit("http/localhost_detector.py.tera");
    reveal_strlit("http/metrics.py");
    reveal_strlit("http/metrics.py.tera");
    reveal_strlit("http/server.py");
    reveal_strlit("http/server.py.tera");
    reveal_strlit("http/types.py");
    reveal_strlit("http/types.py.tera");
    reveal_strlit("src/");
    assert(package_files()[0].0.skip(20 - 5) =~= ".tera"@);
    assert(package_files()[0].1 =~= package_files()[0].0.take(20 - 5));
    assert(package_files()[1].0.skip(17 - 5) =~= ".tera"@);
    assert(package_files()[1].1 =~= package_files()[1].0.take(17 - 5));
    assert(package_files()[2].0.skip(18 - 5) =~= ".tera"@);
    assert(package_files()[2].1 =~= package_files()[2].0.take(18 - 5));
    assert(package_files()[3].0.skip(15 - 5) =~= ".tera"@);
    assert(package_files()[3].1 =~= package_files()[3].0.take(15 - 5));
    assert(package_files()[4].0.skip(16 - 5) =~= ".tera"@);
    assert(package_files()[4].1 =~= package_files()[4].0.take(16 - 5));
    assert(package_files()[5].0.skip(27 - 5) =~= ".tera"@);
    assert(package_files()[5].1 =~= package_files()[5].0.take(27 - 5));
    assert(package_files()[6].0.skip(18 - 5) =~= ".tera"@);
    assert(package_files()[6].1 =~= package_files()[6].0.take(18 - 5));
    assert(package_files()[7].0.skip(19 - 5) =~= ".tera"@);
    assert(package_files()[7].1 =~= package_files()[7].0.take(19 - 5));
    assert(package_files()[8].0.skip(21 - 5) =~= ".tera"@);
    assert(package_files()[8].1 =~= package_files()[8].0.take(21 - 5));
    assert(package_files()[9].0.skip(18 - 5) =~= ".tera"@);
    assert(package_files()[9].1 =~= package_files()[9].0.take(18 - 5));
    assert(package_files()[10].0.skip(31 - 5) =~= ".tera"@);
    assert(package_files()[10].1 =~= package_files()[10].0.take(31 - 5));
    assert(package_files()[11].0.skip(27 - 5) =~= ".tera"@);
    assert(package_files()[11].1 =~= package_files()[11].0.take(27 - 5));
    assert(package_files()[12].0.skip(20 - 5) =~= ".tera"@);
    assert(package_files()[12].1 =~= package_files()[12].0.take(20 - 5));
    assert(package_files()[13].0.skip(19 - 5) =~= ".tera"@);
    assert(package_files()[13].1 =~= package_files()[13].0.take(19 - 5));
    assert(package_files().len() == 14);
}

} // verus!
