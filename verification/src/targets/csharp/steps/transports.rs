//! Step four: the HTTP middleware and the dual-role entry point.

use crate::context::GeneratorContext;
use crate::plan::{Action, ActionView, action_views, push_root_render, root_renders};
use vstd::prelude::*;
use vstd::string::*;

verus! {

/// HTTP middleware and the role dispatcher.
pub open spec fn files() -> Seq<(Seq<char>, Seq<char>)> {
    seq![
        ("Http/LocalhostDetector.cs.tera"@, "Http/LocalhostDetector.cs"@),
        ("Http/AuthExtractor.cs.tera"@, "Http/AuthExtractor.cs"@),
        ("Http/Metrics.cs.tera"@, "Http/Metrics.cs"@),
        ("Http/RequestCredentialProvider.cs.tera"@, "Http/RequestCredentialProvider.cs"@),
        ("Http/AuthGateMiddleware.cs.tera"@, "Http/AuthGateMiddleware.cs"@),
        ("Http/CorsHeaderMiddleware.cs.tera"@, "Http/CorsHeaderMiddleware.cs"@),
        ("Http/HttpServer.cs.tera"@, "Http/HttpServer.cs"@),
        ("Cli/Roles.cs.tera"@, "Cli/Roles.cs"@),
    ]
}

/// Every HTTP and role file, then `Program.cs`.
pub open spec fn transports_plan() -> Seq<ActionView> {
    root_renders(files())
        + seq![ActionView::Render { template: "Program.cs.tera"@, out_path: "Program.cs"@ }]
}

/// The transports step.
pub fn generate_transports_and_roles(_ctx: &GeneratorContext) -> (r: Vec<Action>)
    ensures
        action_views(r@) == transports_plan(),
{
    let mut acts: Vec<Action> = Vec::new();
    let ghost start = action_views(acts@);
    push_root_render(&mut acts, "Http/LocalhostDetector.cs.tera", "Http/LocalhostDetector.cs");
    push_root_render(&mut acts, "Http/AuthExtractor.cs.tera", "Http/AuthExtractor.cs");
    push_root_render(&mut acts, "Http/Metrics.cs.tera", "Http/Metrics.cs");
    push_root_render(&mut acts, "Http/RequestCredentialProvider.cs.tera", "Http/RequestCredentialProvider.cs");
    push_root_render(&mut acts, "Http/AuthGateMiddleware.cs.tera", "Http/AuthGateMiddleware.cs");
    push_root_render(&mut acts, "Http/CorsHeaderMiddleware.cs.tera", "Http/CorsHeaderMiddleware.cs");
    push_root_render(&mut acts, "Http/HttpServer.cs.tera", "Http/HttpServer.cs");
    push_root_render(&mut acts, "Cli/Roles.cs.tera", "Cli/Roles.cs");
    assert(action_views(acts@) =~= start + root_renders(files()));
    let ghost after0 = action_views(acts@);
    push_root_render(&mut acts, "Program.cs.tera", "Program.cs");
    assert(action_views(acts@) =~= after0 + seq![ActionView::Render { template: "Program.cs.tera"@, out_path: "Program.cs"@ }]);
    assert(action_views(acts@) =~= transports_plan());
    acts
}


/// Each row of `files` renders the template of the same name: its output
/// is the template's path without `.tera`, under `src/` for sources.
pub proof fn law_files_outputs_match_templates()
    ensures
        forall|i: int|
            0 <= i < files().len() ==> {
                let t = #[trigger] files()[i].0;
                let o = files()[i].1;
                &&& t.len() >= 5
                &&& t.skip(t.len() - 5) == ".tera"@
                &&& (o == t.take(t.len() - 5) || o == "src/"@ + t.take(t.len() - 5))
            },
{
    reveal_strlit(".tera");
    reveal_strlit("Cli/Roles.cs");
    reveal_strlit("Cli/Roles.cs.tera");
    reveal_strlit("Http/AuthExtractor.cs");
    reveal_strlit("Http/AuthExtractor.cs.tera");
    reveal_strlit("Http/AuthGateMiddleware.cs");
    reveal_strlit("Http/AuthGateMiddleware.cs.tera");
    reveal_strlit("Http/CorsHeaderMiddleware.cs");
    reveal_strlit("Http/CorsHeaderMiddleware.cs.tera");
    reveal_strlit("Http/HttpServer.cs");
    reveal_strlit("Http/HttpServer.cs.tera");
    reveal_strlit("Http/LocalhostDetector.cs");
    reveal_strlit("Http/LocalhostDetector.cs.tera");
    reveal_strlit("Http/Metrics.cs");
    reveal_strlit("Http/Metrics.cs.tera");
    reveal_strlit("Http/RequestCredentialProvider.cs");
    reveal_strlit("Http/RequestCredentialProvider.cs.tera");
    reveal_strlit("src/");
    assert(files()[0].0.skip(30 - 5) =~= ".tera"@);
    assert(files()[0].1 =~= files()[0].0.take(30 - 5));
    assert(files()[1].0.skip(26 - 5) =~= ".tera"@);
    assert(files()[1].1 =~= files()[1].0.take(26 - 5));
    assert(files()[2].0.skip(20 - 5) =~= ".tera"@);
    assert(files()[2].1 =~= files()[2].0.take(20 - 5));
    assert(files()[3].0.skip(38 - 5) =~= ".tera"@);
    assert(files()[3].1 =~= files()[3].0.take(38 - 5));
    assert(files()[4].0.skip(31 - 5) =~= ".tera"@);
    assert(files()[4].1 =~= files()[4].0.take(31 - 5));
    assert(files()[5].0.skip(33 - 5) =~= ".tera"@);
    assert(files()[5].1 =~= files()[5].0.take(33 - 5));
    assert(files()[6].0.skip(23 - 5) =~= ".tera"@);
    assert(files()[6].1 =~= files()[6].0.take(23 - 5));
    assert(files()[7].0.skip(17 - 5) =~= ".tera"@);
    assert(files()[7].1 =~= files()[7].0.take(17 - 5));
    assert(files().len() == 8);
}

} // verus!
