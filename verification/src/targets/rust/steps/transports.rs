//! Step four: the dual-role entry point, the CLI commands and the HTTP transport.

use crate::context::GeneratorContext;
use crate::plan::{Action, ActionView, action_views, push_root_render, root_renders};
use vstd::prelude::*;
use vstd::string::*;

verus! {

/// The entry point, CLI commands and HTTP modules.
pub open spec fn files() -> Seq<(Seq<char>, Seq<char>)> {
    seq![
        ("main.rs.tera"@, "src/main.rs"@),
        ("cli/mod.rs.tera"@, "src/cli/mod.rs"@),
        ("cli/setup.rs.tera"@, "src/cli/setup.rs"@),
        ("cli/search.rs.tera"@, "src/cli/search.rs"@),
        ("cli/get.rs.tera"@, "src/cli/get.rs"@),
        ("cli/call.rs.tera"@, "src/cli/call.rs"@),
        ("cli/test_connection.rs.tera"@, "src/cli/test_connection.rs"@),
        ("cli/config.rs.tera"@, "src/cli/config.rs"@),
        ("cli/version.rs.tera"@, "src/cli/version.rs"@),
        ("http/mod.rs.tera"@, "src/http/mod.rs"@),
        ("http/types.rs.tera"@, "src/http/types.rs"@),
        ("http/localhost_detector.rs.tera"@, "src/http/localhost_detector.rs"@),
        ("http/auth_extractor.rs.tera"@, "src/http/auth_extractor.rs"@),
        ("http/metrics.rs.tera"@, "src/http/metrics.rs"@),
        ("http/server.rs.tera"@, "src/http/server.rs"@),
    ]
}

/// Every entry point, command and HTTP module.
pub open spec fn transports_plan() -> Seq<ActionView> {
    root_renders(files())
}

/// The transports step.
pub fn generate_transports_and_roles(_ctx: &GeneratorContext) -> (r: Vec<Action>)
    ensures
        action_views(r@) == transports_plan(),
{
    let mut acts: Vec<Action> = Vec::new();
    let ghost start = action_views(acts@);
    push_root_render(&mut acts, "main.rs.tera", "src/main.rs");
    push_root_render(&mut acts, "cli/mod.rs.tera", "src/cli/mod.rs");
    push_root_render(&mut acts, "cli/setup.rs.tera", "src/cli/setup.rs");
    push_root_render(&mut acts, "cli/search.rs.tera", "src/cli/search.rs");
    push_root_render(&mut acts, "cli/get.rs.tera", "src/cli/get.rs");
    push_root_render(&mut acts, "cli/call.rs.tera", "src/cli/call.rs");
    push_root_render(&mut acts, "cli/test_connection.rs.tera", "src/cli/test_connection.rs");
    push_root_render(&mut acts, "cli/config.rs.tera", "src/cli/config.rs");
    push_root_render(&mut acts, "cli/version.rs.tera", "src/cli/version.rs");
    push_root_render(&mut acts, "http/mod.rs.tera", "src/http/mod.rs");
    push_root_render(&mut acts, "http/types.rs.tera", "src/http/types.rs");
    push_root_render(&mut acts, "http/localhost_detector.rs.tera", "src/http/localhost_detector.rs");
    push_root_render(&mut acts, "http/auth_extractor.rs.tera", "src/http/auth_extractor.rs");
    push_root_render(&mut acts, "http/metrics.rs.tera", "src/http/metrics.rs");
    push_root_render(&mut acts, "http/server.rs.tera", "src/http/server.rs");
    assert(action_views(acts@) =~= start + root_renders(files()));
    assert(action_views(acts@) =~= transports_plan());
    acts
}


/// Each row of `files` renders the template of the same name: its output
/// is the template's path without `.tera`, under `src/` for sources.
pub proof fn law_files_outputs_match_templates()
    ensures
        forall|i: int|
            0 <= i < files().len() ==> {
                let t = #[trigger] files()[i].0;
                let o = files()[i].1;
                &&& t.len() >= 5
                &&& t.skip(t.len() - 5) == ".tera"@
                &&& (o == t.take(t.len() - 5) || o == "src/"@ + t.take(t.len() - 5))
            },
{
    reveal_strlit(".tera");
    reveal_strlit("cli/call.rs.tera");
    reveal_strlit("cli/config.rs.tera");
    reveal_strlit("cli/get.rs.tera");
    reveal_strlit("cli/mod.rs.tera");
    reveal_strlit("cli/search.rs.tera");
    reveal_strlit("cli/setup.rs.tera");
    reveal_strlit("cli/test_connection.rs.tera");
    reveal_strlit("cli/version.rs.tera");
    reveal_strlit("http/auth_extractor.rs.tera");
    reveal_strlit("http/localhost_detector.rs.tera");
    reveal_strlit("http/metrics.rs.tera");
    reveal_strlit("http/mod.rs.tera");
    reveal_strlit("http/server.rs.tera");
    reveal_strlit("http/types.rs.tera");
    reveal_strlit("main.rs.tera");
    reveal_strlit("src/");
    reveal_strlit("src/cli/call.rs");
    reveal_strlit("src/cli/config.rs");
    reveal_strlit("src/cli/get.rs");
    reveal_strlit("src/cli/mod.rs");
    reveal_strlit("src/cli/search.rs");
    reveal_strlit("src/cli/setup.rs");
    reveal_strlit("src/cli/test_connection.rs");
    reveal_strlit("src/cli/version.rs");
    reveal_strlit("src/http/auth_extractor.rs");
    reveal_strlit("src/http/localhost_detector.rs");
    reveal_strlit("src/http/metrics.rs");
    reveal_strlit("src/http/mod.rs");
    reveal_strlit("src/http/server.rs");
    reveal_strlit("src/http/types.rs");
    reveal_strlit("src/main.rs");
    assert(files()[0].0.skip(12 - 5) =~= ".tera"@);
    assert(files()[0].1 =~= "src/"@ + files()[0].0.take(12 - 5));
    assert(files()[1].0.skip(15 - 5) =~= ".tera"@);
    assert(files()[1].1 =~= "src/"@ + files()[1].0.take(15 - 5));
    assert(files()[2].0.skip(17 - 5) =~= ".tera"@);
    assert(files()[2].1 =~= "src/"@ + files()[2].0.take(17 - 5));
    assert(files()[3].0.skip(18 - 5) =~= ".tera"@);
    assert(files()[3].1 =~= "src/"@ + files()[3].0.take(18 - 5));
    assert(files()[4].0.skip(15 - 5) =~= ".tera"@);
    assert(files()[4].1 =~= "src/"@ + files()[4].0.take(15 - 5));
    assert(files()[5].0.skip(16 - 5) =~= ".tera"@);
    assert(files()[5].1 =~= "src/"@ + files()[5].0.take(16 - 5));
    assert(files()[6].0.skip(27 - 5) =~= ".tera"@);
    assert(files()[6].1 =~= "src/"@ + files()[6].0.take(27 - 5));
    assert(files()[7].0.skip(18 - 5) =~= ".tera"@);
    assert(files()[7].1 =~= "src/"@ + files()[7].0.take(18 - 5));
    assert(files()[8].0.skip(19 - 5) =~= ".tera"@);
    assert(files()[8].1 =~= "src/"@ + files()[8].0.take(19 - 5));
    assert(files()[9].0.skip(16 - 5) =~= ".tera"@);
    assert(files()[9].1 =~= "src/"@ + files()[9].0.take(16 - 5));
    assert(files()[10].0.skip(18 - 5) =~= ".tera"@);
    assert(files()[10].1 =~= "src/"@ + files()[10].0.take(18 - 5));
    assert(files()[11].0.skip(31 - 5) =~= ".tera"@);
    assert(files()[11].1 =~= "src/"@ + files()[11].0.take(31 - 5));
    assert(files()[12].0.skip(27 - 5) =~= ".tera"@);
    assert(files()[12].1 =~= "src/"@ + files()[12].0.take(27 - 5));
    assert(files()[13].0.skip(20 - 5) =~= ".tera"@);
    assert(files()[13].1 =~= "src/"@ + files()[13].0.take(20 - 5));
    assert(files()[14].0.skip(19 - 5) =~= ".tera"@);
    assert(files()[14].1 =~= "src/"@ + files()[14].0.take(19 - 5));
    assert(files().len() == 15);
}

} // verus!
