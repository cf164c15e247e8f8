//! Step five: data access, services, validation and the MCP tools.

use crate::context::GeneratorContext;
use crate::plan::{Action, ActionView, action_views, push_action, push_root_render, root_renders};
use vstd::prelude::*;
use vstd::string::*;

verus! {

/// Where the compressed schemas asset lands.
pub const GENERATED_SCHEMAS_PATH: &'static str = "Validation/GeneratedSchemas.json.zst";

/// Structurally static whatever the spec.
pub open spec fn files() -> Seq<(Seq<char>, Seq<char>)> {
    seq![
        ("Data/EndpointRecord.cs.tera"@, "Data/EndpointRecord.cs"@),
        ("Data/SqliteVecStore.cs.tera"@, "Data/SqliteVecStore.cs"@),
        ("Services/EmbeddingService.cs.tera"@, "Services/EmbeddingService.cs"@),
        ("Services/ApiClient.cs.tera"@, "Services/ApiClient.cs"@),
        ("Services/PopulateEmbeddingsService.cs.tera"@, "Services/PopulateEmbeddingsService.cs"@),
        ("Validation/Validator.cs.tera"@, "Validation/Validator.cs"@),
        ("Tools/McpTools.cs.tera"@, "Tools/McpTools.cs"@),
        ("Core/DataStore.cs.tera"@, "Core/DataStore.cs"@),
        ("Core/EmbeddingService.cs.tera"@, "Core/EmbeddingService.cs"@),
        ("Core/ApiClient.cs.tera"@, "Core/ApiClient.cs"@),
        ("Cli/VersionsCommand.cs.tera"@, "Cli/VersionsCommand.cs"@),
    ]
}

/// Written by earlier steps and rendered again from their one template.
pub open spec fn rerendered_files() -> Seq<(Seq<char>, Seq<char>)> {
    seq![
        ("Program.cs.tera"@, "Program.cs"@),
        ("Core/McpServer.cs.tera"@, "Core/McpServer.cs"@),
        ("Http/HttpServer.cs.tera"@, "Http/HttpServer.cs"@),
    ]
}

/// Every tool-layer file, the files whose templates this step extends, then the schemas asset.
pub open spec fn tools_plan() -> Seq<ActionView> {
    root_renders(files())
        + root_renders(rerendered_files())
        + seq![ActionView::WriteSchemas { path: GENERATED_SCHEMAS_PATH@ }]
}

/// The tools step.
pub fn generate_mcp_tools(_ctx: &GeneratorContext) -> (r: Vec<Action>)
    ensures
        action_views(r@) == tools_plan(),
{
    let mut acts: Vec<Action> = Vec::new();
    let ghost start = action_views(acts@);
    push_root_render(&mut acts, "Data/EndpointRecord.cs.tera", "Data/EndpointRecord.cs");
    push_root_render(&mut acts, "Data/SqliteVecStore.cs.tera", "Data/SqliteVecStore.cs");
    push_root_render(&mut acts, "Services/EmbeddingService.cs.tera", "Services/EmbeddingService.cs");
    push_root_render(&mut acts, "Services/ApiClient.cs.tera", "Services/ApiClient.cs");
    push_root_render(&mut acts, "Services/PopulateEmbeddingsService.cs.tera", "Services/PopulateEmbeddingsService.cs");
    push_root_render(&mut acts, "Validation/Validator.cs.tera", "Validation/Validator.cs");
    push_root_render(&mut acts, "Tools/McpTools.cs.tera", "Tools/McpTools.cs");
    push_root_render(&mut acts, "Core/DataStore.cs.tera", "Core/DataStore.cs");
    push_root_render(&mut acts, "Core/EmbeddingService.cs.tera", "Core/EmbeddingService.cs");
    push_root_render(&mut acts, "Core/ApiClient.cs.tera", "Core/ApiClient.cs");
    push_root_render(&mut acts, "Cli/VersionsCommand.cs.tera", "Cli/VersionsCommand.cs");
    assert(action_views(acts@) =~= start + root_renders(files()));
    let ghost after0 = action_views(acts@);
    push_root_render(&mut acts, "Program.cs.tera", "Program.cs");
    push_root_render(&mut acts, "Core/McpServer.cs.tera", "Core/McpServer.cs");
    push_root_render(&mut acts, "Http/HttpServer.cs.tera", "Http/HttpServer.cs");
    assert(action_views(acts@) =~= after0 + root_renders(rerendered_files()));
    let ghost after1 = action_views(acts@);
    push_action(&mut acts, Action::WriteSchemas { path: String::from_str(GENERATED_SCHEMAS_PATH) });
    assert(action_views(acts@) =~= after1 + seq![ActionView::WriteSchemas { path: GENERATED_SCHEMAS_PATH@ }]);
    assert(action_views(acts@) =~= tools_plan());
    acts
}


/// Each row of `files` renders the template of the same name: its output
/// is the template's path without `.tera`, under `src/` for sources.
pub proof fn law_files_outputs_match_templates()
    ensures
        forall|i: int|
            0 <= i < files().len() ==> {
                let t = #[trigger] files()[i].0;
                let o = files()[i].1;
                &&& t.len() >= 5
                &&& t.skip(t.len() - 5) == ".tera"@
                &&& (o == t.take(t.len() - 5) || o == "src/"@ + t.take(t.len() - 5))
            },
{
    reveal_strlit(".tera");
    reveal_strlit("Cli/VersionsCommand.cs");
    reveal_strlit("Cli/VersionsCommand.cs.tera");
    reveal_strlit("Core/ApiClient.cs");
    reveal_strlit("Core/ApiClient.cs.tera");
    reveal_strlit("Core/DataStore.cs");
    reveal_strlit("Core/DataStore.cs.tera");
    reveal_strlit("Core/EmbeddingService.cs");
    reveal_strlit("Core/EmbeddingService.cs.tera");
    reveal_strlit("Data/EndpointRecord.cs");
    reveal_strlit("Data/EndpointRecord.cs.tera");
    reveal_strlit("Data/SqliteVecStore.cs");
    reveal_strlit("Data/SqliteVecStore.cs.tera");
    reveal_strlit("Services/ApiClient.cs");
    reveal_strlit("Services/ApiClient.cs.tera");
    reveal_strlit("Services/EmbeddingService.cs");
    reveal_strlit("Services/EmbeddingService.cs.tera");
    reveal_strlit("Services/PopulateEmbeddingsService.cs");
    reveal_strlit("Services/PopulateEmbeddingsService.cs.tera");
    reveal_strlit("Tools/McpTools.cs");
    reveal_strlit("Tools/McpTools.cs.tera");
    reveal_strlit("Validation/Validator.cs");
    reveal_strlit("Validation/Validator.cs.tera");
    reveal_strlit("src/");
    assert(files()[0].0.skip(27 - 5) =~= ".tera"@);
    assert(files()[0].1 =~= files()[0].0.take(27 - 5));
    assert(files()[1].0.skip(27 - 5) =~= ".tera"@);
    assert(files()[1].1 =~= files()[1].0.take(27 - 5));
    assert(files()[2].0.skip(33 - 5) =~= ".tera"@);
    assert(files()[2].1 =~= files()[2].0.take(33 - 5));
    assert(files()[3].0.skip(26 - 5) =~= ".tera"@);
    assert(files()[3].1 =~= files()[3].0.take(26 - 5));
    assert(files()[4].0.skip(42 - 5) =~= ".tera"@);
    assert(files()[4].1 =~= files()[4].0.take(42 - 5));
    assert(files()[5].0.skip(28 - 5) =~= ".tera"@);
    assert(files()[5].1 =~= files()[5].0.take(28 - 5));
    assert(files()[6].0.skip(22 - 5) =~= ".tera"@);
    assert(files()[6].1 =~= files()[6].0.take(22 - 5));
    assert(files()[7].0.skip(22 - 5) =~= ".tera"@);
    assert(files()[7].1 =~= files()[7].0.take(22 - 5));
    assert(files()[8].0.skip(29 - 5) =~= ".tera"@);
    assert(files()[8].1 =~= files()[8].0.take(29 - 5));
    assert(files()[9].0.skip(22 - 5) =~= ".tera"@);
    assert(files()[9].1 =~= files()[9].0.take(22 - 5));
    assert(files()[10].0.skip(27 - 5) =~= ".tera"@);
    assert(files()[10].1 =~= files()[10].0.take(27 - 5));
    assert(files().len() == 11);
}

/// Each row of `rerendered_files` renders the template of the same name: its output
/// is the template's path without `.tera`, under `src/` for sources.
pub proof fn law_rerendered_files_outputs_match_templates()
    ensures
        forall|i: int|
            0 <= i < rerendered_files().len() ==> {
                let t = #[trigger] rerendered_files()[i].0;
                let o = rerendered_files()[i].1;
                &&& t.len() >= 5
                &&& t.skip(t.len() - 5) == ".tera"@
                &&& (o == t.take(t.len() - 5) || o == "src/"@ + t.take(t.len() - 5))
            },
{
    reveal_strlit(".tera");
    reveal_strlit("Core/McpServer.cs");
    reveal_strlit("Core/McpServer.cs.tera");
    reveal_strlit("Http/HttpServer.cs");
    reveal_strlit("Http/HttpServer.cs.tera");
    reveal_strlit("Program.cs");
    reveal_strlit("Program.cs.tera");
    reveal_strlit("src/");
    assert(rerendered_files()[0].0.skip(15 - 5) =~= ".tera"@);
    assert(rerendered_files()[0].1 =~= rerendered_files()[0].0.take(15 - 5));
    assert(rerendered_files()[1].0.skip(22 - 5) =~= ".tera"@);
    assert(rerendered_files()[1].1 =~= rerendered_files()[1].0.take(22 - 5));
    assert(rerendered_files()[2].0.skip(23 - 5) =~= ".tera"@);
    assert(rerendered_files()[2].1 =~= rerendered_files()[2].0.take(23 - 5));
    assert(rerendered_files().len() == 3);
}

} // verus!
