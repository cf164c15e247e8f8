//! Step one: the `src/<module>/` package skeleton and the project manifest.

use crate::context::GeneratorContext;
use crate::plan::{Action, ActionView, action_views, package_dirs, push_package_dir, push_render, push_root_render, render_view, root_renders};
use crate::targets::python::context::{module_name, spec_py_module_name};
use vstd::prelude::*;
use vstd::string::*;

verus! {

/// One subpackage per concern.
pub open spec fn source_subdirs() -> Seq<Seq<char>> {
    seq![
        "auth"@,
        "cli"@,
        "core"@,
        "data"@,
        "http"@,
        "services"@,
        "tools"@,
        "validation"@,
    ]
}

/// The project manifest and root files.
pub open spec fn static_files() -> Seq<(Seq<char>, Seq<char>)> {
    seq![
        ("pyproject.toml.tera"@, "pyproject.toml"@),
        (".gitignore.tera"@, ".gitignore"@),
        (".env.example.tera"@, ".env.example"@),
        ("README.md.tera"@, "README.md"@),
    ]
}

/// Each subpackage with its empty `__init__.py`, the root files, then the package's own `__init__.py`.
pub open spec fn bootstrap_plan(module: Seq<char>) -> Seq<ActionView> {
    package_dirs("src/"@ + module + "/"@, source_subdirs())
        + root_renders(static_files())
        + seq![render_view("src/"@ + module + "/"@, "package_init.py.tera"@, "__init__.py"@)]
}

/// The bootstrap step.
pub fn bootstrap_project(ctx: &GeneratorContext) -> (r: Vec<Action>)
    ensures
        action_views(r@) == bootstrap_plan(spec_py_module_name(ctx.output_dir@, ctx.api_title@)),
{
    let module = module_name(ctx);
    let mut package_root = String::from_str("src/");
    package_root.append(module.as_str());
    package_root.append("/");
    let mut acts: Vec<Action> = Vec::new();
    let ghost start = action_views(acts@);
    push_package_dir(&mut acts, package_root.as_str(), "auth");
    push_package_dir(&mut acts, package_root.as_str(), "cli");
    push_package_dir(&mut acts, package_root.as_str(), "core");
    push_package_dir(&mut acts, package_root.as_str(), "data");
    push_package_dir(&mut acts, package_root.as_str(), "http");
    push_package_dir(&mut acts, package_root.as_str(), "services");
    push_package_dir(&mut acts, package_root.as_str(), "tools");
    push_package_dir(&mut acts, package_root.as_str(), "validation");
    proof {
        reveal_with_fuel(package_dirs, 9);
        assert(action_views(acts@) =~= start + package_dirs("src/"@ + module@ + "/"@, source_subdirs()));
    }
    let ghost after0 = action_views(acts@);
    push_root_render(&mut acts, "pyproject.toml.tera", "pyproject.toml");
    push_root_render(&mut acts, ".gitignore.tera", ".gitignore");
    push_root_render(&mut acts, ".env.example.tera", ".env.example");
    push_root_render(&mut acts, "README.md.tera", "README.md");
    assert(action_views(acts@) =~= after0 + root_renders(static_files()));
    let ghost after1 = action_views(acts@);
    push_render(&mut acts, package_root.as_str(), "package_init.py.tera", "__init__.py");
    assert(action_views(acts@) =~= after1 + seq![render_view("src/"@ + module@ + "/"@, "package_init.py.tera"@, "__init__.py"@)]);
    assert(action_views(acts@) =~= bootstrap_plan(spec_py_module_name(ctx.output_dir@, ctx.api_title@)));
    acts
}


/// Each row of `static_files` renders the template of the same name: its output
/// is the template's path without `.tera`, under `src/` for sources.
pub proof fn law_static_files_outputs_match_templates()
    ensures
        forall|i: int|
            0 <= i < static_files().len() ==> {
                let t = #[trigger] static_files()[i].0;
                let o = static_files()[i].1;
                &&& t.len() >= 5
                &&& t.skip(t.len() - 5) == ".tera"@
                &&& (o == t.take(t.len() - 5) || o == "src/"@ + t.take(t.len() - 5))
            },
{
    reveal_strlit(".env.example");
    reveal_strlit(".env.example.tera");
    reveal_strlit(".gitignore");
    reveal_strlit(".gitignore.tera");
    reveal_strlit(".tera");
    reveal_strlit("README.md");
    reveal_strlit("README.md.tera");
    reveal_strlit("pyproject.toml");
    reveal_strlit("pyproject.toml.tera");
    reveal_strlit("src/");
    assert(static_files()[0].0.skip(19 - 5) =~= ".tera"@);
    assert(static_files()[0].1 =~= static_files()[0].0.take(19 - 5));
    assert(static_files()[1].0.skip(15 - 5) =~= ".tera"@);
    assert(static_files()[1].1 =~= static_files()[1].0.take(15 - 5));
    assert(static_files()[2].0.skip(17 - 5) =~= ".tera"@);
    assert(static_files()[2].1 =~= static_files()[2].0.take(17 - 5));
    assert(static_files()[3].0.skip(14 - 5) =~= ".tera"@);
    assert(static_files()[3].1 =~= static_files()[3].0.take(14 - 5));
    assert(static_files().len() == 4);
}

} // verus!
