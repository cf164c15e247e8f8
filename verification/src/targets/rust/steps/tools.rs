//! Step five: data access, services, validation and the MCP tools.

use crate::context::GeneratorContext;
use crate::plan::{Action, ActionView, action_views, push_action, push_root_render, root_renders};
use crate::context::STORE_FILE_NAME;
use vstd::prelude::*;
use vstd::string::*;

verus! {

/// Where the compressed schemas asset lands.
pub const GENERATED_SCHEMAS_PATH: &'static str = "src/validation/generated_schemas.json.zst";

/// Data access, services, validator and tools.
pub open spec fn files() -> Seq<(Seq<char>, Seq<char>)> {
    seq![
        ("data/mod.rs.tera"@, "src/data/mod.rs"@),
        ("data/store.rs.tera"@, "src/data/store.rs"@),
        ("services/mod.rs.tera"@, "src/services/mod.rs"@),
        ("services/embedding_service.rs.tera"@, "src/services/embedding_service.rs"@),
        ("services/api_client.rs.tera"@, "src/services/api_client.rs"@),
        ("validation/mod.rs.tera"@, "src/validation/mod.rs"@),
        ("validation/validator.rs.tera"@, "src/validation/validator.rs"@),
        ("tools/mod.rs.tera"@, "src/tools/mod.rs"@),
        ("tools/search_tool.rs.tera"@, "src/tools/search_tool.rs"@),
        ("tools/get_tool.rs.tera"@, "src/tools/get_tool.rs"@),
        ("tools/call_tool.rs.tera"@, "src/tools/call_tool.rs"@),
    ]
}

/// Every tool-layer module, the schemas asset, then the compressed store.
pub open spec fn tools_plan() -> Seq<ActionView> {
    root_renders(files())
        + seq![ActionView::WriteSchemas { path: GENERATED_SCHEMAS_PATH@ }]
        + seq![ActionView::CompressStore { path: STORE_FILE_NAME@ }]
}

/// The tools step; the store is compressed last, once every file that embeds it exists.
pub fn generate_mcp_tools(_ctx: &GeneratorContext) -> (r: Vec<Action>)
    ensures
        action_views(r@) == tools_plan(),
{
    let mut acts: Vec<Action> = Vec::new();
    let ghost start = action_views(acts@);
    push_root_render(&mut acts, "data/mod.rs.tera", "src/data/mod.rs");
    push_root_render(&mut acts, "data/store.rs.tera", "src/data/store.rs");
    push_root_render(&mut acts, "services/mod.rs.tera", "src/services/mod.rs");
    push_root_render(&mut acts, "services/embedding_service.rs.tera", "src/services/embedding_service.rs");
    push_root_render(&mut acts, "services/api_client.rs.tera", "src/services/api_client.rs");
    push_root_render(&mut acts, "validation/mod.rs.tera", "src/validation/mod.rs");
    push_root_render(&mut acts, "validation/validator.rs.tera", "src/validation/validator.rs");
    push_root_render(&mut acts, "tools/mod.rs.tera", "src/tools/mod.rs");
    push_root_render(&mut acts, "tools/search_tool.rs.tera", "src/tools/search_tool.rs");
    push_root_render(&mut acts, "tools/get_tool.rs.tera", "src/tools/get_tool.rs");
    push_root_render(&mut acts, "tools/call_tool.rs.tera", "src/tools/call_tool.rs");
    assert(action_views(acts@) =~= start + root_renders(files()));
    let ghost after0 = action_views(acts@);
    push_action(&mut acts, Action::WriteSchemas { path: String::from_str(GENERATED_SCHEMAS_PATH) });
    assert(action_views(acts@) =~= after0 + seq![ActionView::WriteSchemas { path: GENERATED_SCHEMAS_PATH@ }]);
    let ghost after1 = action_views(acts@);
    push_action(&mut acts, Action::CompressStore { path: String::from_str(STORE_FILE_NAME) });
    assert(action_views(acts@) =~= after1 + seq![ActionView::CompressStore { path: STORE_FILE_NAME@ }]);
    assert(action_views(acts@) =~= tools_plan());
    acts
}


/// Each row of `files` renders the template of the same name: its output
/// is the template's path without `.tera`, under `src/` for sources.
pub proof fn law_files_outputs_match_templates()
    ensures
        forall|i: int|
            0 <= i < files().len() ==> {
                let t = #[trigger] files()[i].0;
                let o = files()[i].1;
                &&& t.len() >= 5
                &&& t.skip(t.len() - 5) == ".tera"@
                &&& (o == t.take(t.len() - 5) || o == "src/"@ + t.take(t.len() - 5))
            },
{
    reveal_strlit(".tera");
    reveal_strlit("data/mod.rs.tera");
    reveal_strlit("data/store.rs.tera");
    reveal_strlit("services/api_client.rs.tera");
    reveal_strlit("services/embedding_service.rs.tera");
    reveal_strlit("services/mod.rs.tera");
    reveal_strlit("src/");
    reveal_strlit("src/data/mod.rs");
    reveal_strlit("src/data/store.rs");
    reveal_strlit("src/services/api_client.rs");
    reveal_strlit("src/services/embedding_service.rs");
    reveal_strlit("src/services/mod.rs");
    reveal_strlit("src/tools/call_tool.rs");
    reveal_strlit("src/tools/get_tool.rs");
    reveal_strlit("src/tools/mod.rs");
    reveal_strlit("src/tools/search_tool.rs");
    reveal_strlit("src/validation/mod.rs");
    reveal_strlit("src/validation/validator.rs");
    reveal_strlit("tools/call_tool.rs.tera");
    reveal_strlit("tools/get_tool.rs.tera");
    reveal_strlit("tools/mod.rs.tera");
    reveal_strlit("tools/search_tool.rs.tera");
    reveal_strlit("validation/mod.rs.tera");
    reveal_strlit("validation/validator.rs.tera");
    assert(files()[0].0.skip(16 - 5) =~= ".tera"@);
    assert(files()[0].1 =~= "src/"@ + files()[0].0.take(16 - 5));
    assert(files()[1].0.skip(18 - 5) =~= ".tera"@);
    assert(files()[1].1 =~= "src/"@ + files()[1].0.take(18 - 5));
    assert(files()[2].0.skip(20 - 5) =~= ".tera"@);
    assert(files()[2].1 =~= "src/"@ + files()[2].0.take(20 - 5));
    assert(files()[3].0.skip(34 - 5) =~= ".tera"@);
    assert(files()[3].1 =~= "src/"@ + files()[3].0.take(34 - 5));
    assert(files()[4].0.skip(27 - 5) =~= ".tera"@);
    assert(files()[4].1 =~= "src/"@ + files()[4].0.take(27 - 5));
    assert(files()[5].0.skip(22 - 5) =~= ".tera"@);
    assert(files()[5].1 =~= "src/"@ + files()[5].0.take(22 - 5));
    assert(files()[6].0.skip(28 - 5) =~= ".tera"@);
    assert(files()[6].1 =~= "src/"@ + files()[6].0.take(28 - 5));
    assert(files()[7].0.skip(17 - 5) =~= ".tera"@);
    assert(files()[7].1 =~= "src/"@ + files()[7].0.take(17 - 5));
    assert(files()[8].0.skip(25 - 5) =~= ".tera"@);
    assert(files()[8].1 =~= "src/"@ + files()[8].0.take(25 - 5));
    assert(files()[9].0.skip(22 - 5) =~= ".tera"@);
    assert(files()[9].1 =~= "src/"@ + files()[9].0.take(22 - 5));
    assert(files()[10].0.skip(23 - 5) =~= ".tera"@);
    assert(files()[10].1 =~= "src/"@ + files()[10].0.take(23 - 5));
    assert(files().len() == 11);
}

} // verus!
