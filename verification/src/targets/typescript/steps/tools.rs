//! Step five: data access, services, validation and the MCP tools.

use crate::context::GeneratorContext;
use crate::plan::{Action, ActionView, action_views, push_action, push_root_render, root_renders};
use crate::targets::typescript::context::GENERATED_SCHEMAS_PATH;
use vstd::prelude::*;
use vstd::string::*;

verus! {

/// Data access, services, validator and tools.
pub open spec fn files() -> Seq<(Seq<char>, Seq<char>)> {
    seq![
        ("services/embedding-service.ts.tera"@, "src/services/embedding-service.ts"@),
        ("data/store-repository.ts.tera"@, "src/data/store-repository.ts"@),
        ("services/api-client.ts.tera"@, "src/services/api-client.ts"@),
        ("validation/validator.ts.tera"@, "src/validation/validator.ts"@),
        ("tools/search-tool.ts.tera"@, "src/tools/search-tool.ts"@),
        ("tools/get-tool.ts.tera"@, "src/tools/get-tool.ts"@),
        ("tools/call-tool.ts.tera"@, "src/tools/call-tool.ts"@),
        ("tools/tool-executor.ts.tera"@, "src/tools/tool-executor.ts"@),
        ("tools/register-tools.ts.tera"@, "src/tools/register-tools.ts"@),
    ]
}

/// Every tool-layer module, then the compressed schemas asset.
pub open spec fn tools_plan() -> Seq<ActionView> {
    root_renders(files())
        + seq![ActionView::WriteSchemas { path: GENERATED_SCHEMAS_PATH@ }]
}

/// The tools step.
pub fn generate_mcp_tools(_ctx: &GeneratorContext) -> (r: Vec<Action>)
    ensures
        action_views(r@) == tools_plan(),
{
    let mut acts: Vec<Action> = Vec::new();
    let ghost start = action_views(acts@);
    push_root_render(&mut acts, "services/embedding-service.ts.tera", "src/services/embedding-service.ts");
    push_root_render(&mut acts, "data/store-repository.ts.tera", "src/data/store-repository.ts");
    push_root_render(&mut acts, "services/api-client.ts.tera", "src/services/api-client.ts");
    push_root_render(&mut acts, "validation/validator.ts.tera", "src/validation/validator.ts");
    push_root_render(&mut acts, "tools/search-tool.ts.tera", "src/tools/search-tool.ts");
    push_root_render(&mut acts, "tools/get-tool.ts.tera", "src/tools/get-tool.ts");
    push_root_render(&mut acts, "tools/call-tool.ts.tera", "src/tools/call-tool.ts");
    push_root_render(&mut acts, "tools/tool-executor.ts.tera", "src/tools/tool-executor.ts");
    push_root_render(&mut acts, "tools/register-tools.ts.tera", "src/tools/register-tools.ts");
    assert(action_views(acts@) =~= start + root_renders(files()));
    let ghost after0 = action_views(acts@);
    push_action(&mut acts, Action::WriteSchemas { path: String::from_str(GENERATED_SCHEMAS_PATH) });
    assert(action_views(acts@) =~= after0 + seq![ActionView::WriteSchemas { path: GENERATED_SCHEMAS_PATH@ }]);
    assert(action_views(acts@) =~= tools_plan());
    acts
}


/// Each row of `files` renders the template of the same name: its output
/// is the template's path without `.tera`, under `src/` for sources.
pub proof fn law_files_outputs_match_templates()
    ensures
        forall|i: int|
            0 <= i < files().len() ==> {
                let t = #[trigger] files()[i].0;
                let o = files()[i].1;
                &&& t.len() >= 5
                &&& t.skip(t.len() - 5) == ".tera"@
                &&& (o == t.take(t.len() - 5) || o == "src/"@ + t.take(t.len() - 5))
            },
{
    reveal_strlit(".tera");
    reveal_strlit("data/store-repository.ts.tera");
    reveal_strlit("services/api-client.ts.tera");
    reveal_strlit("services/embedding-service.ts.tera");
    reveal_strlit("src/");
    reveal_strlit("src/data/store-repository.ts");
    reveal_strlit("src/services/api-client.ts");
    reveal_strlit("src/services/embedding-service.ts");
    reveal_strlit("src/tools/call-tool.ts");
    reveal_strlit("src/tools/get-tool.ts");
    reveal_strlit("src/tools/register-tools.ts");
    reveal_strlit("src/tools/search-tool.ts");
    reveal_strlit("src/tools/tool-executor.ts");
    reveal_strlit("src/validation/validator.ts");
    reveal_strlit("tools/call-tool.ts.tera");
    reveal_strlit("tools/get-tool.ts.tera");
    reveal_strlit("tools/register-tools.ts.tera");
    reveal_strlit("tools/search-tool.ts.tera");
    reveal_strlit("tools/tool-executor.ts.tera");
    reveal_strlit("validation/validator.ts.tera");
    assert(files()[0].0.skip(34 - 5) =~= ".tera"@);
    assert(files()[0].1 =~= "src/"@ + files()[0].0.take(34 - 5));
    assert(files()[1].0.skip(29 - 5) =~= ".tera"@);
    assert(files()[1].1 =~= "src/"@ + files()[1].0.take(29 - 5));
    assert(files()[2].0.skip(27 - 5) =~= ".tera"@);
    assert(files()[2].1 =~= "src/"@ + files()[2].0.take(27 - 5));
    assert(files()[3].0.skip(28 - 5) =~= ".tera"@);
    assert(files()[3].1 =~= "src/"@ + files()[3].0.take(28 - 5));
    assert(files()[4].0.skip(25 - 5) =~= ".tera"@);
    assert(files()[4].1 =~= "src/"@ + files()[4].0.take(25 - 5));
    assert(files()[5].0.skip(22 - 5) =~= ".tera"@);
    assert(files()[5].1 =~= "src/"@ + files()[5].0.take(22 - 5));
    assert(files()[6].0.skip(23 - 5) =~= ".tera"@);
    assert(files()[6].1 =~= "src/"@ + files()[6].0.take(23 - 5));
    assert(files()[7].0.skip(27 - 5) =~= ".tera"@);
    assert(files()[7].1 =~= "src/"@ + files()[7].0.take(27 - 5));
    assert(files()[8].0.skip(28 - 5) =~= ".tera"@);
    assert(files()[8].1 =~= "src/"@ + files()[8].0.take(28 - 5));
    assert(files().len() == 9);
}

} // verus!
