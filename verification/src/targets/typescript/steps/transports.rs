//! Step four: the dual-role entry point, the CLI commands and the HTTP transport.

use crate::context::GeneratorContext;
use crate::plan::{Action, ActionView, action_views, push_root_render, root_renders};
use vstd::prelude::*;
use vstd::string::*;

verus! {

/// Entry points, CLI commands and HTTP modules.
pub open spec fn files() -> Seq<(Seq<char>, Seq<char>)> {
    seq![
        ("index.ts.tera"@, "src/index.ts"@),
        ("cli.ts.tera"@, "src/cli.ts"@),
        ("cli/setup-command.ts.tera"@, "src/cli/setup-command.ts"@),
        ("cli/search-command.ts.tera"@, "src/cli/search-command.ts"@),
        ("cli/get-command.ts.tera"@, "src/cli/get-command.ts"@),
        ("cli/call-command.ts.tera"@, "src/cli/call-command.ts"@),
        ("cli/start-command.ts.tera"@, "src/cli/start-command.ts"@),
        ("cli/http-command.ts.tera"@, "src/cli/http-command.ts"@),
        ("cli/test-connection-command.ts.tera"@, "src/cli/test-connection-command.ts"@),
        ("cli/config-command.ts.tera"@, "src/cli/config-command.ts"@),
        ("cli/version-command.ts.tera"@, "src/cli/version-command.ts"@),
        ("http/types.ts.tera"@, "src/http/types.ts"@),
        ("http/localhost-detector.ts.tera"@, "src/http/localhost-detector.ts"@),
        ("http/auth-extractor.ts.tera"@, "src/http/auth-extractor.ts"@),
        ("http/metrics.ts.tera"@, "src/http/metrics.ts"@),
        ("http/http-server.ts.tera"@, "src/http/http-server.ts"@),
    ]
}

/// Every entry point, command and HTTP module.
pub open spec fn transports_plan() -> Seq<ActionView> {
    root_renders(files())
}

/// The transports step.
pub fn generate_transports_and_roles(_ctx: &GeneratorContext) -> (r: Vec<Action>)
    ensures
        action_views(r@) == transports_plan(),
{
    let mut acts: Vec<Action> = Vec::new();
    let ghost start = action_views(acts@);
    push_root_render(&mut acts, "index.ts.tera", "src/index.ts");
    push_root_render(&mut acts, "cli.ts.tera", "src/cli.ts");
    push_root_render(&mut acts, "cli/setup-command.ts.tera", "src/cli/setup-command.ts");
    push_root_render(&mut acts, "cli/search-command.ts.tera", "src/cli/search-command.ts");
    push_root_render(&mut acts, "cli/get-command.ts.tera", "src/cli/get-command.ts");
    push_root_render(&mut acts, "cli/call-command.ts.tera", "src/cli/call-command.ts");
    push_root_render(&mut acts, "cli/start-command.ts.tera", "src/cli/start-command.ts");
    push_root_render(&mut acts, "cli/http-command.ts.tera", "src/cli/http-command.ts");
    push_root_render(&mut acts, "cli/test-connection-command.ts.tera", "src/cli/test-connection-command.ts");
    push_root_render(&mut acts, "cli/config-command.ts.tera", "src/cli/config-command.ts");
    push_root_render(&mut acts, "cli/version-command.ts.tera", "src/cli/version-command.ts");
    push_root_render(&mut acts, "http/types.ts.tera", "src/http/types.ts");
    push_root_render(&mut acts, "http/localhost-detector.ts.tera", "src/http/localhost-detector.ts");
    push_root_render(&mut acts, "http/auth-extractor.ts.tera", "src/http/auth-extractor.ts");
    push_root_render(&mut acts, "http/metrics.ts.tera", "src/http/metrics.ts");
    push_root_render(&mut acts, "http/http-server.ts.tera", "src/http/http-server.ts");
    assert(action_views(acts@) =~= start + root_renders(files()));
    assert(action_views(acts@) =~= transports_plan());
    acts
}


/// Each row of `files` renders the template of the same name: its output
/// is the template's path without `.tera`, under `src/` for sources.
pub proof fn law_files_outputs_match_templates()
    ensures
        forall|i: int|
            0 <= i < files().len() ==> {
                let t = #[trigger] files()[i].0;
                let o = files()[i].1;
                &&& t.len() >= 5
                &&& t.skip(t.len() - 5) == ".tera"@
                &&& (o == t.take(t.len() - 5) || o == "src/"@ + t.take(t.len() - 5))
            },
{
    reveal_strlit(".tera");
    reveal_strlit("cli.ts.tera");
    reveal_strlit("cli/call-command.ts.tera");
    reveal_strlit("cli/config-command.ts.tera");
    reveal_strlit("cli/get-command.ts.tera");
    reveal_strlit("cli/http-command.ts.tera");
    reveal_strlit("cli/search-command.ts.tera");
    reveal_strlit("cli/setup-command.ts.tera");
    reveal_strlit("cli/start-command.ts.tera");
    reveal_strlit("cli/test-connection-command.ts.tera");
    reveal_strlit("cli/version-command.ts.tera");
    reveal_strlit("http/auth-extractor.ts.tera");
    reveal_strlit("http/http-server.ts.tera");
    reveal_strlit("http/localhost-detector.ts.tera");
    reveal_strlit("http/metrics.ts.tera");
    reveal_strlit("http/types.ts.tera");
    reveal_strlit("index.ts.tera");
    reveal_strlit("src/");
    reveal_strlit("src/cli.ts");
    reveal_strlit("src/cli/call-command.ts");
    reveal_strlit("src/cli/config-command.ts");
    reveal_strlit("src/cli/get-command.ts");
    reveal_strlit("src/cli/http-command.ts");
    reveal_strlit("src/cli/search-command.ts");
    reveal_strlit("src/cli/setup-command.ts");
    reveal_strlit("src/cli/start-command.ts");
    reveal_strlit("src/cli/test-connection-command.ts");
    reveal_strlit("src/cli/version-command.ts");
    reveal_strlit("src/http/auth-extractor.ts");
    reveal_strlit("src/http/http-server.ts");
    reveal_strlit("src/http/localhost-detector.ts");
    reveal_strlit("src/http/metrics.ts");
    reveal_strlit("src/http/types.ts");
    reveal_strlit("src/index.ts");
    assert(files()[0].0.skip(13 - 5) =~= ".tera"@);
    assert(files()[0].1 =~= "src/"@ + files()[0].0.take(13 - 5));
    assert(files()[1].0.skip(11 - 5) =~= ".tera"@);
    assert(files()[1].1 =~= "src/"@ + files()[1].0.take(11 - 5));
    assert(files()[2].0.skip(25 - 5) =~= ".tera"@);
    assert(files()[2].1 =~= "src/"@ + files()[2].0.take(25 - 5));
    assert(files()[3].0.skip(26 - 5) =~= ".tera"@);
    assert(files()[3].1 =~= "src/"@ + files()[3].0.take(26 - 5));
    assert(files()[4].0.skip(23 - 5) =~= ".tera"@);
    assert(files()[4].1 =~= "src/"@ + files()[4].0.take(23 - 5));
    assert(files()[5].0.skip(24 - 5) =~= ".tera"@);
    assert(files()[5].1 =~= "src/"@ + files()[5].0.take(24 - 5));
    assert(files()[6].0.skip(25 - 5) =~= ".tera"@);
    assert(files()[6].1 =~= "src/"@ + files()[6].0.take(25 - 5));
    assert(files()[7].0.skip(24 - 5) =~= ".tera"@);
    assert(files()[7].1 =~= "src/"@ + files()[7].0.take(24 - 5));
    assert(files()[8].0.skip(35 - 5) =~= ".tera"@);
    assert(files()[8].1 =~= "src/"@ + files()[8].0.take(35 - 5));
    assert(files()[9].0.skip(26 - 5) =~= ".tera"@);
    assert(files()[9].1 =~= "src/"@ + files()[9].0.take(26 - 5));
    assert(files()[10].0.skip(27 - 5) =~= ".tera"@);
    assert(files()[10].1 =~= "src/"@ + files()[10].0.take(27 - 5));
    assert(files()[11].0.skip(18 - 5) =~= ".tera"@);
    assert(files()[11].1 =~= "src/"@ + files()[11].0.take(18 - 5));
    assert(files()[12].0.skip(31 - 5) =~= ".tera"@);
    assert(files()[12].1 =~= "src/"@ + files()[12].0.take(31 - 5));
    assert(files()[13].0.skip(27 - 5) =~= ".tera"@);
    assert(files()[13].1 =~= "src/"@ + files()[13].0.take(27 - 5));
    assert(files()[14].0.skip(20 - 5) =~= ".tera"@);
    assert(files()[14].1 =~= "src/"@ + files()[14].0.take(20 - 5));
    assert(files()[15].0.skip(24 - 5) =~= ".tera"@);
    assert(files()[15].1 =~= "src/"@ + files()[15].0.take(24 - 5));
    assert(files().len() == 16);
}

} // verus!
