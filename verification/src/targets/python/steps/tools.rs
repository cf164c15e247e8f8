//! Step five: data access, services, validation and the MCP tools.

use crate::context::GeneratorContext;
use crate::plan::{Action, ActionView, action_views, push_action, push_render, renders};
use crate::targets::python::context::{module_name, spec_py_module_name};
use crate::targets::python::context::GENERATED_SCHEMAS_RELATIVE_PATH;
use vstd::prelude::*;
use vstd::string::*;

verus! {

/// Data access, services, validator and tools, relative to the package root.
pub open spec fn files() -> Seq<(Seq<char>, Seq<char>)> {
    seq![
        ("data/__init__.py.tera"@, "data/__init__.py"@),
        ("data/store.py.tera"@, "data/store.py"@),
        ("services/__init__.py.tera"@, "services/__init__.py"@),
        ("services/embedding_service.py.tera"@, "services/embedding_service.py"@),
        ("services/populate_embeddings.py.tera"@, "services/populate_embeddings.py"@),
        ("services/api_client.py.tera"@, "services/api_client.py"@),
        ("validation/__init__.py.tera"@, "validation/__init__.py"@),
        ("validation/validator.py.tera"@, "validation/validator.py"@),
        ("tools/__init__.py.tera"@, "tools/__init__.py"@),
        ("tools/search_tool.py.tera"@, "tools/search_tool.py"@),
        ("tools/get_tool.py.tera"@, "tools/get_tool.py"@),
        ("tools/call_tool.py.tera"@, "tools/call_tool.py"@),
    ]
}

/// Every tool-layer module inside the package, then the schemas JSON.
pub open spec fn tools_plan(module: Seq<char>) -> Seq<ActionView> {
    renders("src/"@ + module + "/"@, files())
        + seq![ActionView::WriteSchemas { path: "src/"@ + module + "/"@ + GENERATED_SCHEMAS_RELATIVE_PATH@ }]
}

/// The tools step.
pub fn generate_mcp_tools(ctx: &GeneratorContext) -> (r: Vec<Action>)
    ensures
        action_views(r@) == tools_plan(spec_py_module_name(ctx.output_dir@, ctx.api_title@)),
{
    let module = module_name(ctx);
    let mut package_root = String::from_str("src/");
    package_root.append(module.as_str());
    package_root.append("/");
    let mut schemas_path = String::from_str(package_root.as_str());
    schemas_path.append(GENERATED_SCHEMAS_RELATIVE_PATH);
    let mut acts: Vec<Action> = Vec::new();
    let ghost start = action_views(acts@);
    push_render(&mut acts, package_root.as_str(), "data/__init__.py.tera", "data/__init__.py");
    push_render(&mut acts, package_root.as_str(), "data/store.py.tera", "data/store.py");
    push_render(&mut acts, package_root.as_str(), "services/__init__.py.tera", "services/__init__.py");
    push_render(&mut acts, package_root.as_str(), "services/embedding_service.py.tera", "services/embedding_service.py");
    push_render(&mut acts, package_root.as_str(), "services/populate_embeddings.py.tera", "services/populate_embeddings.py");
    push_render(&mut acts, package_root.as_str(), "services/api_client.py.tera", "services/api_client.py");
    push_render(&mut acts, package_root.as_str(), "validation/__init__.py.tera", "validation/__init__.py");
    push_render(&mut acts, package_root.as_str(), "validation/validator.py.tera", "validation/validator.py");
    push_render(&mut acts, package_root.as_str(), "tools/__init__.py.tera", "tools/__init__.py");
    push_render(&mut acts, package_root.as_str(), "tools/search_tool.py.tera", "tools/search_tool.py");
    push_render(&mut acts, package_root.as_str(), "tools/get_tool.py.tera", "tools/get_tool.py");
    push_render(&mut acts, package_root.as_str(), "tools/call_tool.py.tera", "tools/call_tool.py");
    assert(action_views(acts@) =~= start + renders("src/"@ + module@ + "/"@, files()));
    let ghost after0 = action_views(acts@);
    push_action(&mut acts, Action::WriteSchemas { path: schemas_path });
    assert(action_views(acts@) =~= after0 + seq![ActionView::WriteSchemas { path: "src/"@ + module@ + "/"@ + GENERATED_SCHEMAS_RELATIVE_PATH@ }]);
    assert(action_views(acts@) =~= tools_plan(spec_py_module_name(ctx.output_dir@, ctx.api_title@)));
    acts
}


/// Each row of `files` renders the template of the same name: its output
/// is the template's path without `.tera`, under `src/` for sources.
pub proof fn law_files_outputs_match_templates()
    ensures
        forall|i: int|
            0 <= i < files().len() ==> {
                let t = #[trigger] files()[i].0;
                let o = files()[i].1;
                &&& t.len() >= 5
                &&& t.skip(t.len() - 5) == ".tera"@
                &&& (o == t.take(t.len() - 5) || o == "src/"@ + t.take(t.len() - 5))
            },
{
    reveal_strlit(".tera");
    reveal_strlit("data/__init__.py");
    reveal_strlit("data/__init__.py.tera");
    reveal_strlit("data/store.py");
    reveal_strlit("data/store.py.tera");
    reveal_strlit("services/__init__.py");
    reveal_strlit("services/__init__.py.tera");
    reveal_strlit("services/api_client.py");
    reveal_strlit("services/api_client.py.tera");
    reveal_strlit("services/embedding_service.py");
    reveal_strlit("services/embedding_service.py.tera");
    reveal_strlit("services/populate_embeddings.py");
    reveal_strlit("services/populate_embeddings.py.tera");
    reveal_strlit("src/");
    reveal_strlit("tools/__init__.py");
    reveal_strlit("tools/__init__.py.tera");
    reveal_strlit("tools/call_tool.py");
    reveal_strlit("tools/call_tool.py.tera");
    reveal_strlit("tools/get_tool.py");
    reveal_strlit("tools/get_tool.py.tera");
    reveal_strlit("tools/search_tool.py");
    reveal_strlit("tools/search_tool.py.tera");
    reveal_strlit("validation/__init__.py");
    reveal_strlit("validation/__init__.py.tera");
    reveal_strlit("validation/validator.py");
    reveal_strlit("validation/validator.py.tera");
    assert(files()[0].0.skip(21 - 5) =~= ".tera"@);
    assert(files()[0].1 =~= files()[0].0.take(21 - 5));
    assert(files()[1].0.skip(18 - 5) =~= ".tera"@);
    assert(files()[1].1 =~= files()[1].0.take(18 - 5));
    assert(files()[2].0.skip(25 - 5) =~= ".tera"@);
    assert(files()[2].1 =~= files()[2].0.take(25 - 5));
    assert(files()[3].0.skip(34 - 5) =~= ".tera"@);
    assert(files()[3].1 =~= files()[3].0.take(34 - 5));
    assert(files()[4].0.skip(36 - 5) =~= ".tera"@);
    assert(files()[4].1 =~= files()[4].0.take(36 - 5));
    assert(files()[5].0.skip(27 - 5) =~= ".tera"@);
    assert(files()[5].1 =~= files()[5].0.take(27 - 5));
    assert(files()[6].0.skip(27 - 5) =~= ".tera"@);
    assert(files()[6].1 =~= files()[6].0.take(27 - 5));
    assert(files()[7].0.skip(28 - 5) =~= ".tera"@);
    assert(files()[7].1 =~= files()[7].0.take(28 - 5));
    assert(files()[8].0.skip(22 - 5) =~= ".tera"@);
    assert(files()[8].1 =~= files()[8].0.take(22 - 5));
    assert(files()[9].0.skip(25 - 5) =~= ".tera"@);
    assert(files()[9].1 =~= files()[9].0.take(25 - 5));
    assert(files()[10].0.skip(22 - 5) =~= ".tera"@);
    assert(files()[10].1 =~= files()[10].0.take(22 - 5));
    assert(files()[11].0.skip(23 - 5) =~= ".tera"@);
    assert(files()[11].1 =~= files()[11].0.take(23 - 5));
    assert(files().len() == 12);
}

} // verus!
