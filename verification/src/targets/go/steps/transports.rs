//! Step four: the HTTP transport, tool registration and the binary entry point.

use crate::context::GeneratorContext;
use crate::plan::{Action, ActionView, action_views, push_render, push_root_render, render_view, root_renders};
use crate::targets::go::context::{go_project_name, spec_go_project_name};
use vstd::prelude::*;
use vstd::string::*;

verus! {

/// HTTP transport, tool registration and roles.
pub open spec fn files() -> Seq<(Seq<char>, Seq<char>)> {
    seq![
        ("internal/http/localhost.go.tera"@, "internal/http/localhost.go"@),
        ("internal/http/middleware.go.tera"@, "internal/http/middleware.go"@),
        ("internal/http/server.go.tera"@, "internal/http/server.go"@),
        ("internal/tools/register.go.tera"@, "internal/tools/register.go"@),
        ("internal/cli/roles.go.tera"@, "internal/cli/roles.go"@),
    ]
}

/// Every transport file, then `cmd/<project>/main.go`.
pub open spec fn transports_plan(project_name: Seq<char>) -> Seq<ActionView> {
    root_renders(files())
        + seq![render_view("cmd/"@ + project_name + "/"@, "cmd/main.go.tera"@, "main.go"@)]
}

/// The transports step.
pub fn generate_transports_and_roles(ctx: &GeneratorContext) -> (r: Vec<Action>)
    ensures
        action_views(r@) == transports_plan(spec_go_project_name(ctx.output_dir@, ctx.api_title@)),
{
    let project_name = go_project_name(ctx);
    let mut main_dir = String::from_str("cmd/");
    main_dir.append(project_name.as_str());
    main_dir.append("/");
    let mut acts: Vec<Action> = Vec::new();
    let ghost start = action_views(acts@);
    push_root_render(&mut acts, "internal/http/localhost.go.tera", "internal/http/localhost.go");
    push_root_render(&mut acts, "internal/http/middleware.go.tera", "internal/http/middleware.go");
    push_root_render(&mut acts, "internal/http/server.go.tera", "internal/http/server.go");
    push_root_render(&mut acts, "internal/tools/register.go.tera", "internal/tools/register.go");
    push_root_render(&mut acts, "internal/cli/roles.go.tera", "internal/cli/roles.go");
    assert(action_views(acts@) =~= start + root_renders(files()));
    let ghost after0 = action_views(acts@);
    push_render(&mut acts, main_dir.as_str(), "cmd/main.go.tera", "main.go");
    assert(action_views(acts@) =~= after0 + seq![render_view("cmd/"@ + project_name@ + "/"@, "cmd/main.go.tera"@, "main.go"@)]);
    assert(action_views(acts@) =~= transports_plan(spec_go_project_name(ctx.output_dir@, ctx.api_title@)));
    acts
}


/// Each row of `files` renders the template of the same name: its output
/// is the template's path without `.tera`, under `src/` for sources.
pub proof fn law_files_outputs_match_templates()
    ensures
        forall|i: int|
            0 <= i < files().len() ==> {
                let t = #[trigger] files()[i].0;
                let o = files()[i].1;
                &&& t.len() >= 5
                &&& t.skip(t.len() - 5) == ".tera"@
                &&& (o == t.take(t.len() - 5) || o == "src/"@ + t.take(t.len() - 5))
            },
{
    reveal_strlit(".tera");
    reveal_strlit("internal/cli/roles.go");
    reveal_strlit("internal/cli/roles.go.tera");
    reveal_strlit("internal/http/localhost.go");
    reveal_strlit("internal/http/localhost.go.tera");
    reveal_strlit("internal/http/middleware.go");
    reveal_strlit("internal/http/middleware.go.tera");
    reveal_strlit("internal/http/server.go");
    reveal_strlit("internal/http/server.go.tera");
    reveal_strlit("internal/tools/register.go");
    reveal_strlit("internal/tools/register.go.tera");
    reveal_strlit("src/");
    assert(files()[0].0.skip(31 - 5) =~= ".tera"@);
    assert(files()[0].1 =~= files()[0].0.take(31 - 5));
    assert(files()[1].0.skip(32 - 5) =~= ".tera"@);
    assert(files()[1].1 =~= files()[1].0.take(32 - 5));
    assert(files()[2].0.skip(28 - 5) =~= ".tera"@);
    assert(files()[2].1 =~= files()[2].0.take(28 - 5));
    assert(files()[3].0.skip(31 - 5) =~= ".tera"@);
    assert(files()[3].1 =~= files()[3].0.take(31 - 5));
    assert(files()[4].0.skip(26 - 5) =~= ".tera"@);
    assert(files()[4].1 =~= files()[4].0.take(26 - 5));
    assert(files().len() == 5);
}

} // verus!
