//! Step one: the PascalCase folder skeleton, the project manifest and the DI registration skeleton.

use crate::context::GeneratorContext;
use crate::plan::{Action, ActionView, action_views, push_render, push_root_dir, push_root_render, render_view, root_dirs, root_renders};
use vstd::prelude::*;
use vstd::string::*;

verus! {

/// One folder per concern, named as its namespace.
pub open spec fn source_subdirs() -> Seq<Seq<char>> {
    seq![
        "Auth"@,
        "Cli"@,
        "Core"@,
        "Data"@,
        "Http"@,
        "Services"@,
        "Tools"@,
        "Validation"@,
    ]
}

/// Config files at the project root.
pub open spec fn static_files() -> Seq<(Seq<char>, Seq<char>)> {
    seq![
        (".gitignore.tera"@, ".gitignore"@),
        (".editorconfig.tera"@, ".editorconfig"@),
        (".env.example.tera"@, ".env.example"@),
        ("README.md.tera"@, "README.md"@),
    ]
}

/// Every source folder, the root files, `{namespace}.csproj`, `Program.cs` and the service registration skeleton.
pub open spec fn bootstrap_plan(namespace: Seq<char>) -> Seq<ActionView> {
    root_dirs(source_subdirs())
        + root_renders(static_files())
        + seq![render_view(namespace, "Project.csproj.tera"@, ".csproj"@)]
        + seq![ActionView::Render { template: "Program.cs.tera"@, out_path: "Program.cs"@ }]
        + seq![ActionView::Render { template: "Core/ServiceCollectionExtensions.cs.tera"@, out_path: "Core/ServiceCollectionExtensions.cs"@ }]
}

/// The bootstrap step; `namespace` names the project manifest.
pub fn bootstrap_project(_ctx: &GeneratorContext, namespace: &str) -> (r: Vec<Action>)
    ensures
        action_views(r@) == bootstrap_plan(namespace@),
{
    let mut acts: Vec<Action> = Vec::new();
    let ghost start = action_views(acts@);
    push_root_dir(&mut acts, "Auth");
    push_root_dir(&mut acts, "Cli");
    push_root_dir(&mut acts, "Core");
    push_root_dir(&mut acts, "Data");
    push_root_dir(&mut acts, "Http");
    push_root_dir(&mut acts, "Services");
    push_root_dir(&mut acts, "Tools");
    push_root_dir(&mut acts, "Validation");
    assert(action_views(acts@) =~= start + root_dirs(source_subdirs()));
    let ghost after0 = action_views(acts@);
    push_root_render(&mut acts, ".gitignore.tera", ".gitignore");
    push_root_render(&mut acts, ".editorconfig.tera", ".editorconfig");
    push_root_render(&mut acts, ".env.example.tera", ".env.example");
    push_root_render(&mut acts, "README.md.tera", "README.md");
    assert(action_views(acts@) =~= after0 + root_renders(static_files()));
    let ghost after1 = action_views(acts@);
    push_render(&mut acts, namespace, "Project.csproj.tera", ".csproj");
    assert(action_views(acts@) =~= after1 + seq![render_view(namespace@, "Project.csproj.tera"@, ".csproj"@)]);
    let ghost after2 = action_views(acts@);
    push_root_render(&mut acts, "Program.cs.tera", "Program.cs");
    assert(action_views(acts@) =~= after2 + seq![ActionView::Render { template: "Program.cs.tera"@, out_path: "Program.cs"@ }]);
    let ghost after3 = action_views(acts@);
    push_root_render(&mut acts, "Core/ServiceCollectionExtensions.cs.tera", "Core/ServiceCollectionExtensions.cs");
    assert(action_views(acts@) =~= after3 + seq![ActionView::Render { template: "Core/ServiceCollectionExtensions.cs.tera"@, out_path: "Core/ServiceCollectionExtensions.cs"@ }]);
    assert(action_views(acts@) =~= bootstrap_plan(namespace@));
    acts
}


/// Each row of `static_files` renders the template of the same name: its output
/// is the template's path without `.tera`, under `src/` for sources.
pub proof fn law_static_files_outputs_match_templates()
    ensures
        forall|i: int|
            0 <= i < static_files().len() ==> {
                let t = #[trigger] static_files()[i].0;
                let o = static_files()[i].1;
                &&& t.len() >= 5
                &&& t.skip(t.len() - 5) == ".tera"@
                &&& (o == t.take(t.len() - 5) || o == "src/"@ + t.take(t.len() - 5))
            },
{
    reveal_strlit(".editorconfig");
    reveal_strlit(".editorconfig.tera");
    reveal_strlit(".env.example");
    reveal_strlit(".env.example.tera");
    reveal_strlit(".gitignore");
    reveal_strlit(".gitignore.tera");
    reveal_strlit(".tera");
    reveal_strlit("README.md");
    reveal_strlit("README.md.tera");
    reveal_strlit("src/");
    assert(static_files()[0].0.skip(15 - 5) =~= ".tera"@);
    assert(static_files()[0].1 =~= static_files()[0].0.take(15 - 5));
    assert(static_files()[1].0.skip(18 - 5) =~= ".tera"@);
    assert(static_files()[1].1 =~= static_files()[1].0.take(18 - 5));
    assert(static_files()[2].0.skip(17 - 5) =~= ".tera"@);
    assert(static_files()[2].1 =~= static_files()[2].0.take(17 - 5));
    assert(static_files()[3].0.skip(14 - 5) =~= ".tera"@);
    assert(static_files()[3].1 =~= static_files()[3].0.take(14 - 5));
    assert(static_files().len() == 4);
}

} // verus!
