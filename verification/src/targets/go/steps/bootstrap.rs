//! Step one: the `cmd/` + `internal/` skeleton and the module manifest.

use crate::context::GeneratorContext;
use crate::plan::{Action, ActionView, action_views, push_dir, push_root_dir, push_root_render, root_dirs, root_renders};
use crate::targets::go::context::{go_project_name, spec_go_project_name};
use vstd::prelude::*;
use vstd::string::*;

verus! {

/// One package directory per concern, under `internal/`.
pub open spec fn internal_subdirs() -> Seq<Seq<char>> {
    seq![
        "internal/auth"@,
        "internal/cli"@,
        "internal/core"@,
        "internal/data"@,
        "internal/http"@,
        "internal/services"@,
        "internal/tools"@,
        "internal/validation"@,
    ]
}

/// The module manifest and root files.
pub open spec fn static_files() -> Seq<(Seq<char>, Seq<char>)> {
    seq![
        ("go.mod.tera"@, "go.mod"@),
        (".gitignore.tera"@, ".gitignore"@),
        (".env.example.tera"@, ".env.example"@),
        ("README.md.tera"@, "README.md"@),
        ("LICENSE.tera"@, "LICENSE"@),
    ]
}

/// Every `internal/` package directory, the two command directories, then the root files.
pub open spec fn bootstrap_plan(project_name: Seq<char>) -> Seq<ActionView> {
    root_dirs(internal_subdirs())
        + seq![ActionView::CreateDir { path: "cmd/"@ + project_name }]
        + seq![ActionView::CreateDir { path: "cmd/"@ + "populate-embeddings"@ }]
        + root_renders(static_files())
}

/// The bootstrap step.
pub fn bootstrap_project(ctx: &GeneratorContext) -> (r: Vec<Action>)
    ensures
        action_views(r@) == bootstrap_plan(spec_go_project_name(ctx.output_dir@, ctx.api_title@)),
{
    let project_name = go_project_name(ctx);
    let mut acts: Vec<Action> = Vec::new();
    let ghost start = action_views(acts@);
    push_root_dir(&mut acts, "internal/auth");
    push_root_dir(&mut acts, "internal/cli");
    push_root_dir(&mut acts, "internal/core");
    push_root_dir(&mut acts, "internal/data");
    push_root_dir(&mut acts, "internal/http");
    push_root_dir(&mut acts, "internal/services");
    push_root_dir(&mut acts, "internal/tools");
    push_root_dir(&mut acts, "internal/validation");
    assert(action_views(acts@) =~= start + root_dirs(internal_subdirs()));
    let ghost after0 = action_views(acts@);
    push_dir(&mut acts, "cmd/", project_name.as_str());
    assert(action_views(acts@) =~= after0 + seq![ActionView::CreateDir { path: "cmd/"@ + project_name@ }]);
    let ghost after1 = action_views(acts@);
    push_dir(&mut acts, "cmd/", "populate-embeddings");
    assert(action_views(acts@) =~= after1 + seq![ActionView::CreateDir { path: "cmd/"@ + "populate-embeddings"@ }]);
    let ghost after2 = action_views(acts@);
    push_root_render(&mut acts, "go.mod.tera", "go.mod");
    push_root_render(&mut acts, ".gitignore.tera", ".gitignore");
    push_root_render(&mut acts, ".env.example.tera", ".env.example");
    push_root_render(&mut acts, "README.md.tera", "README.md");
    push_root_render(&mut acts, "LICENSE.tera", "LICENSE");
    assert(action_views(acts@) =~= after2 + root_renders(static_files()));
    assert(action_views(acts@) =~= bootstrap_plan(spec_go_project_name(ctx.output_dir@, ctx.api_title@)));
    acts
}


/// Each row of `static_files` renders the template of the same name: its output
/// is the template's path without `.tera`, under `src/` for sources.
pub proof fn law_static_files_outputs_match_templates()
    ensures
        forall|i: int|
            0 <= i < static_files().len() ==> {
                let t = #[trigger] static_files()[i].0;
                let o = static_files()[i].1;
                &&& t.len() >= 5
                &&& t.skip(t.len() - 5) == ".tera"@
                &&& (o == t.take(t.len() - 5) || o == "src/"@ + t.take(t.len() - 5))
            },
{
    reveal_strlit(".env.example");
    reveal_strlit(".env.example.tera");
    reveal_strlit(".gitignore");
    reveal_strlit(".gitignore.tera");
    reveal_strlit(".tera");
    reveal_strlit("LICENSE");
    reveal_strlit("LICENSE.tera");
    reveal_strlit("README.md");
    reveal_strlit("README.md.tera");
    reveal_strlit("go.mod");
    reveal_strlit("go.mod.tera");
    reveal_strlit("src/");
    assert(static_files()[0].0.skip(11 - 5) =~= ".tera"@);
    assert(static_files()[0].1 =~= static_files()[0].0.take(11 - 5));
    assert(static_files()[1].0.skip(15 - 5) =~= ".tera"@);
    assert(static_files()[1].1 =~= static_files()[1].0.take(15 - 5));
    assert(static_files()[2].0.skip(17 - 5) =~= ".tera"@);
    assert(static_files()[2].1 =~= static_files()[2].0.take(17 - 5));
    assert(static_files()[3].0.skip(14 - 5) =~= ".tera"@);
    assert(static_files()[3].1 =~= static_files()[3].0.take(14 - 5));
    assert(static_files()[4].0.skip(12 - 5) =~= ".tera"@);
    assert(static_files()[4].1 =~= static_files()[4].0.take(12 - 5));
    assert(static_files().len() == 5);
}

} // verus!
