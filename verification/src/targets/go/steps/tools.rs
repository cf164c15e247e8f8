//! Step five: data access, services, validation and the MCP tools.

use crate::context::GeneratorContext;
use crate::plan::{Action, ActionView, action_views, push_action, push_root_render, root_renders};
use crate::targets::go::context::GENERATED_SCHEMAS_RELATIVE_PATH;
use vstd::prelude::*;
use vstd::string::*;

verus! {

/// Data access, services, validator, tools and the populate command.
pub open spec fn files() -> Seq<(Seq<char>, Seq<char>)> {
    seq![
        ("internal/data/store.go.tera"@, "internal/data/store.go"@),
        ("internal/services/embedding.go.tera"@, "internal/services/embedding.go"@),
        ("internal/services/vectorstore.go.tera"@, "internal/services/vectorstore.go"@),
        ("internal/services/populate.go.tera"@, "internal/services/populate.go"@),
        ("internal/services/apiclient.go.tera"@, "internal/services/apiclient.go"@),
        ("internal/validation/validator.go.tera"@, "internal/validation/validator.go"@),
        ("internal/tools/search.go.tera"@, "internal/tools/search.go"@),
        ("internal/tools/get.go.tera"@, "internal/tools/get.go"@),
        ("internal/tools/call.go.tera"@, "internal/tools/call.go"@),
        ("cmd/populate-embeddings/main.go.tera"@, "cmd/populate-embeddings/main.go"@),
    ]
}

/// Every tool-layer file, then the schemas asset.
pub open spec fn tools_plan() -> Seq<ActionView> {
    root_renders(files())
        + seq![ActionView::WriteSchemas { path: GENERATED_SCHEMAS_RELATIVE_PATH@ }]
}

/// The tools step.
pub fn generate_mcp_tools(_ctx: &GeneratorContext) -> (r: Vec<Action>)
    ensures
        action_views(r@) == tools_plan(),
{
    let mut acts: Vec<Action> = Vec::new();
    let ghost start = action_views(acts@);
    push_root_render(&mut acts, "internal/data/store.go.tera", "internal/data/store.go");
    push_root_render(&mut acts, "internal/services/embedding.go.tera", "internal/services/embedding.go");
    push_root_render(&mut acts, "internal/services/vectorstore.go.tera", "internal/services/vectorstore.go");
    push_root_render(&mut acts, "internal/services/populate.go.tera", "internal/services/populate.go");
    push_root_render(&mut acts, "internal/services/apiclient.go.tera", "internal/services/apiclient.go");
    push_root_render(&mut acts, "internal/validation/validator.go.tera", "internal/validation/validator.go");
    push_root_render(&mut acts, "internal/tools/search.go.tera", "internal/tools/search.go");
    push_root_render(&mut acts, "internal/tools/get.go.tera", "internal/tools/get.go");
    push_root_render(&mut acts, "internal/tools/call.go.tera", "internal/tools/call.go");
    push_root_render(&mut acts, "cmd/populate-embeddings/main.go.tera", "cmd/populate-embeddings/main.go");
    assert(action_views(acts@) =~= start + root_renders(files()));
    let ghost after0 = action_views(acts@);
    push_action(&mut acts, Action::WriteSchemas { path: String::from_str(GENERATED_SCHEMAS_RELATIVE_PATH) });
    assert(action_views(acts@) =~= after0 + seq![ActionView::WriteSchemas { path: GENERATED_SCHEMAS_RELATIVE_PATH@ }]);
    assert(action_views(acts@) =~= tools_plan());
    acts
}


/// Each row of `files` renders the template of the same name: its output
/// is the template's path without `.tera`, under `src/` for sources.
pub proof fn law_files_outputs_match_templates()
    ensures
        forall|i: int|
            0 <= i < files().len() ==> {
                let t = #[trigger] files()[i].0;
                let o = files()[i].1;
                &&& t.len() >= 5
                &&& t.skip(t.len() - 5) == ".tera"@
                &&& (o == t.take(t.len() - 5) || o == "src/"@ + t.take(t.len() - 5))
            },
{
    reveal_strlit(".tera");
    reveal_strlit("cmd/populate-embeddings/main.go");
    reveal_strlit("cmd/populate-embeddings/main.go.tera");
    reveal_strlit("internal/data/store.go");
    reveal_strlit("internal/data/store.go.tera");
    reveal_strlit("internal/services/apiclient.go");
    reveal_strlit("internal/services/apiclient.go.tera");
    reveal_strlit("internal/services/embedding.go");
    reveal_strlit("internal/services/embedding.go.tera");
    reveal_strlit("internal/services/populate.go");
    reveal_strlit("internal/services/populate.go.tera");
    reveal_strlit("internal/services/vectorstore.go");
    reveal_strlit("internal/services/vectorstore.go.tera");
    reveal_strlit("internal/tools/call.go");
    reveal_strlit("internal/tools/call.go.tera");
    reveal_strlit("internal/tools/get.go");
    reveal_strlit("internal/tools/get.go.tera");
    reveal_strlit("internal/tools/search.go");
    reveal_strlit("internal/tools/search.go.tera");
    reveal_strlit("internal/validation/validator.go");
    reveal_strlit("internal/validation/validator.go.tera");
    reveal_strlit("src/");
    assert(files()[0].0.skip(27 - 5) =~= ".tera"@);
    assert(files()[0].1 =~= files()[0].0.take(27 - 5));
    assert(files()[1].0.skip(35 - 5) =~= ".tera"@);
    assert(files()[1].1 =~= files()[1].0.take(35 - 5));
    assert(files()[2].0.skip(37 - 5) =~= ".tera"@);
    assert(files()[2].1 =~= files()[2].0.take(37 - 5));
    assert(files()[3].0.skip(34 - 5) =~= ".tera"@);
    assert(files()[3].1 =~= files()[3].0.take(34 - 5));
    assert(files()[4].0.skip(35 - 5) =~= ".tera"@);
    assert(files()[4].1 =~= files()[4].0.take(35 - 5));
    assert(files()[5].0.skip(37 - 5) =~= ".tera"@);
    assert(files()[5].1 =~= files()[5].0.take(37 - 5));
    assert(files()[6].0.skip(29 - 5) =~= ".tera"@);
    assert(files()[6].1 =~= files()[6].0.take(29 - 5));
    assert(files()[7].0.skip(26 - 5) =~= ".tera"@);
    assert(files()[7].1 =~= files()[7].0.take(26 - 5));
    assert(files()[8].0.skip(27 - 5) =~= ".tera"@);
    assert(files()[8].1 =~= files()[8].0.take(27 - 5));
    assert(files()[9].0.skip(36 - 5) =~= ".tera"@);
    assert(files()[9].1 =~= files()[9].0.take(36 - 5));
    assert(files().len() == 10);
}

} // verus!
