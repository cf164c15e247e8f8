//! Step one: the `src/` skeleton and the root project files.

use crate::context::GeneratorContext;
use crate::plan::{Action, ActionView, action_views, dirs, push_dir, push_root_render, root_renders};
use vstd::prelude::*;
use vstd::string::*;

verus! {

/// The directories under `src/`.
pub open spec fn source_subdirs() -> Seq<Seq<char>> {
    seq![
        "auth"@,
        "cli"@,
        "core"@,
        "data"@,
        "http"@,
        "services"@,
        "tools"@,
        "validation"@,
    ]
}

/// Manifest and config files at the project root.
pub open spec fn static_files() -> Seq<(Seq<char>, Seq<char>)> {
    seq![
        ("package.json.tera"@, "package.json"@),
        ("tsconfig.json.tera"@, "tsconfig.json"@),
        ("biome.json.tera"@, "biome.json"@),
        (".gitignore.tera"@, ".gitignore"@),
        (".env.example.tera"@, ".env.example"@),
        ("README.md.tera"@, "README.md"@),
    ]
}

/// Every source directory under `src/`, then every project file.
pub open spec fn bootstrap_plan() -> Seq<ActionView> {
    dirs("src/"@, source_subdirs())
        + root_renders(static_files())
}

/// The bootstrap step: the source directories, then the project files.
pub fn bootstrap_project(_ctx: &GeneratorContext) -> (r: Vec<Action>)
    ensures
        action_views(r@) == bootstrap_plan(),
{
    let mut acts: Vec<Action> = Vec::new();
    let ghost start = action_views(acts@);
    push_dir(&mut acts, "src/", "auth");
    push_dir(&mut acts, "src/", "cli");
    push_dir(&mut acts, "src/", "core");
    push_dir(&mut acts, "src/", "data");
    push_dir(&mut acts, "src/", "http");
    push_dir(&mut acts, "src/", "services");
    push_dir(&mut acts, "src/", "tools");
    push_dir(&mut acts, "src/", "validation");
    assert(action_views(acts@) =~= start + dirs("src/"@, source_subdirs()));
    let ghost after0 = action_views(acts@);
    push_root_render(&mut acts, "package.json.tera", "package.json");
    push_root_render(&mut acts, "tsconfig.json.tera", "tsconfig.json");
    push_root_render(&mut acts, "biome.json.tera", "biome.json");
    push_root_render(&mut acts, ".gitignore.tera", ".gitignore");
    push_root_render(&mut acts, ".env.example.tera", ".env.example");
    push_root_render(&mut acts, "README.md.tera", "README.md");
    assert(action_views(acts@) =~= after0 + root_renders(static_files()));
    assert(action_views(acts@) =~= bootstrap_plan());
    acts
}


/// Each row of `static_files` renders the template of the same name: its output
/// is the template's path without `.tera`, under `src/` for sources.
pub proof fn law_static_files_outputs_match_templates()
    ensures
        forall|i: int|
            0 <= i < static_files().len() ==> {
                let t = #[trigger] static_files()[i].0;
                let o = static_files()[i].1;
                &&& t.len() >= 5
                &&& t.skip(t.len() - 5) == ".tera"@
                &&& (o == t.take(t.len() - 5) || o == "src/"@ + t.take(t.len() - 5))
            },
{
    reveal_strlit(".env.example");
    reveal_strlit(".env.example.tera");
    reveal_strlit(".gitignore");
    reveal_strlit(".gitignore.tera");
    reveal_strlit(".tera");
    reveal_strlit("README.md");
    reveal_strlit("README.md.tera");
    reveal_strlit("biome.json");
    reveal_strlit("biome.json.tera");
    reveal_strlit("package.json");
    reveal_strlit("package.json.tera");
    reveal_strlit("src/");
    reveal_strlit("tsconfig.json");
    reveal_strlit("tsconfig.json.tera");
    assert(static_files()[0].0.skip(17 - 5) =~= ".tera"@);
    assert(static_files()[0].1 =~= static_files()[0].0.take(17 - 5));
    assert(static_files()[1].0.skip(18 - 5) =~= ".tera"@);
    assert(static_files()[1].1 =~= static_files()[1].0.take(18 - 5));
    assert(static_files()[2].0.skip(15 - 5) =~= ".tera"@);
    assert(static_files()[2].1 =~= static_files()[2].0.take(15 - 5));
    assert(static_files()[3].0.skip(15 - 5) =~= ".tera"@);
    assert(static_files()[3].1 =~= static_files()[3].0.take(15 - 5));
    assert(static_files()[4].0.skip(17 - 5) =~= ".tera"@);
    assert(static_files()[4].1 =~= static_files()[4].0.take(17 - 5));
    assert(static_files()[5].0.skip(14 - 5) =~= ".tera"@);
    assert(static_files()[5].1 =~= static_files()[5].0.take(14 - 5));
    assert(static_files().len() == 6);
}

} // verus!
