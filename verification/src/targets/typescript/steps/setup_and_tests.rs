//! Step six: the setup wizard and the generated test suite.

use crate::context::GeneratorContext;
use crate::plan::{Action, ActionView, action_views, law_one_root_render_per_discovered_kind, outputs_distinct, push_root_render, renders, root_kind_renders, root_renders};
use crate::auth_profile::AuthSchemeKind;
use crate::context::{distinct_kinds, first_occurrences, scheme_kinds};
use crate::auth_profile::AuthSchemeDescriptor;
use crate::auth_profile::{law_method_keys_and_idents, spec_method_ident, spec_method_key};
use vstd::prelude::*;
use vstd::string::*;

verus! {

/// The test file of a kind: only generated strategies get one.
pub open spec fn spec_auth_test_template(kind: AuthSchemeKind) -> (Seq<char>, Seq<char>) {
    match kind {
        AuthSchemeKind::Basic => ("tests/unit/auth/basic.test.ts.tera"@, "tests/unit/auth/basic.test.ts"@),
        AuthSchemeKind::ApiKey => ("tests/unit/auth/api-key.test.ts.tera"@, "tests/unit/auth/api-key.test.ts"@),
        AuthSchemeKind::BearerPat => ("tests/unit/auth/pat.test.ts.tera"@, "tests/unit/auth/pat.test.ts"@),
        AuthSchemeKind::OAuth2 => ("tests/unit/auth/oauth2.test.ts.tera"@, "tests/unit/auth/oauth2.test.ts"@),
        AuthSchemeKind::OAuth1 => ("tests/unit/auth/oauth1.test.ts.tera"@, "tests/unit/auth/oauth1.test.ts"@),
    }
}

pub open spec fn auth_test_template_table() -> spec_fn(AuthSchemeKind) -> (Seq<char>, Seq<char>) {
    |kind: AuthSchemeKind| spec_auth_test_template(kind)
}

pub fn auth_test_template(kind: AuthSchemeKind) -> (r: (&'static str, &'static str))
    ensures
        (r.0@, r.1@) == spec_auth_test_template(kind),
{
    match kind {
        AuthSchemeKind::Basic => ("tests/unit/auth/basic.test.ts.tera", "tests/unit/auth/basic.test.ts"),
        AuthSchemeKind::ApiKey => ("tests/unit/auth/api-key.test.ts.tera", "tests/unit/auth/api-key.test.ts"),
        AuthSchemeKind::BearerPat => ("tests/unit/auth/pat.test.ts.tera", "tests/unit/auth/pat.test.ts"),
        AuthSchemeKind::OAuth2 => ("tests/unit/auth/oauth2.test.ts.tera", "tests/unit/auth/oauth2.test.ts"),
        AuthSchemeKind::OAuth1 => ("tests/unit/auth/oauth1.test.ts.tera", "tests/unit/auth/oauth1.test.ts"),
    }
}

/// Each kind's template is its output path with `.tera` appended, and no kind's file is one of the
/// `shared_files`.
pub proof fn lemma_auth_test_template_table_shape()
    ensures
        forall|k: AuthSchemeKind| #[trigger] spec_auth_test_template(k).0 == spec_auth_test_template(k).1 + ".tera"@,
        forall|k: AuthSchemeKind, i: int|
            0 <= i < shared_files().len() ==> #[trigger] shared_files()[i].1 != #[trigger] spec_auth_test_template(k).1,
{
    reveal_strlit(".tera");
    reveal_strlit("src/cli/setup-wizard.ts");
    reveal_strlit("tests/e2e/mcp-server.test.ts");
    reveal_strlit("tests/helpers/dummy-credentials.ts");
    reveal_strlit("tests/helpers/log-capture.ts");
    reveal_strlit("tests/helpers/mcp-test-client.ts");
    reveal_strlit("tests/helpers/mock-api-server.ts");
    reveal_strlit("tests/helpers/skip-integration.ts");
    reveal_strlit("tests/integration/call-pipeline.test.ts");
    reveal_strlit("tests/unit/auth/api-key.test.ts");
    reveal_strlit("tests/unit/auth/api-key.test.ts.tera");
    reveal_strlit("tests/unit/auth/basic.test.ts");
    reveal_strlit("tests/unit/auth/basic.test.ts.tera");
    reveal_strlit("tests/unit/auth/oauth1.test.ts");
    reveal_strlit("tests/unit/auth/oauth1.test.ts.tera");
    reveal_strlit("tests/unit/auth/oauth2.test.ts");
    reveal_strlit("tests/unit/auth/oauth2.test.ts.tera");
    reveal_strlit("tests/unit/auth/pat.test.ts");
    reveal_strlit("tests/unit/auth/pat.test.ts.tera");
    reveal_strlit("tests/unit/auth/stub.test.ts");
    reveal_strlit("tests/unit/core/config-manager.test.ts");
    reveal_strlit("tests/unit/tools/call-tool.test.ts");
    reveal_strlit("tests/unit/tools/get-tool.test.ts");
    reveal_strlit("tests/unit/tools/search-tool.test.ts");
    reveal_strlit("vitest.config.ts");
    assert(spec_auth_test_template(AuthSchemeKind::Basic).0 =~= spec_auth_test_template(AuthSchemeKind::Basic).1 + ".tera"@);
    assert(spec_auth_test_template(AuthSchemeKind::ApiKey).0 =~= spec_auth_test_template(AuthSchemeKind::ApiKey).1 + ".tera"@);
    assert(spec_auth_test_template(AuthSchemeKind::BearerPat).0 =~= spec_auth_test_template(AuthSchemeKind::BearerPat).1 + ".tera"@);
    assert(spec_auth_test_template(AuthSchemeKind::OAuth2).0 =~= spec_auth_test_template(AuthSchemeKind::OAuth2).1 + ".tera"@);
    assert(spec_auth_test_template(AuthSchemeKind::OAuth1).0 =~= spec_auth_test_template(AuthSchemeKind::OAuth1).1 + ".tera"@);
    assert(shared_files()[0].1.len() != spec_auth_test_template(AuthSchemeKind::Basic).1.len());
    assert(shared_files()[1].1.len() != spec_auth_test_template(AuthSchemeKind::Basic).1.len());
    assert(shared_files()[2].1.len() != spec_auth_test_template(AuthSchemeKind::Basic).1.len());
    assert(shared_files()[3].1.len() != spec_auth_test_template(AuthSchemeKind::Basic).1.len());
    assert(shared_files()[4].1.len() != spec_auth_test_template(AuthSchemeKind::Basic).1.len());
    assert(shared_files()[5].1.len() != spec_auth_test_template(AuthSchemeKind::Basic).1.len());
    assert(shared_files()[6].1.len() != spec_auth_test_template(AuthSchemeKind::Basic).1.len());
    assert(shared_files()[7].1.len() != spec_auth_test_template(AuthSchemeKind::Basic).1.len());
    assert(shared_files()[8].1.len() != spec_auth_test_template(AuthSchemeKind::Basic).1.len());
    assert(shared_files()[9].1.len() != spec_auth_test_template(AuthSchemeKind::Basic).1.len());
    assert(shared_files()[10].1.len() != spec_auth_test_template(AuthSchemeKind::Basic).1.len());
    assert(shared_files()[11].1.len() != spec_auth_test_template(AuthSchemeKind::Basic).1.len());
    assert(shared_files()[12].1.len() != spec_auth_test_template(AuthSchemeKind::Basic).1.len());
    assert(shared_files()[13].1.len() != spec_auth_test_template(AuthSchemeKind::Basic).1.len());
    assert(shared_files()[0].1.len() != spec_auth_test_template(AuthSchemeKind::ApiKey).1.len());
    assert(shared_files()[1].1.len() != spec_auth_test_template(AuthSchemeKind::ApiKey).1.len());
    assert(shared_files()[2].1.len() != spec_auth_test_template(AuthSchemeKind::ApiKey).1.len());
    assert(shared_files()[3].1.len() != spec_auth_test_template(AuthSchemeKind::ApiKey).1.len());
    assert(shared_files()[4].1.len() != spec_auth_test_template(AuthSchemeKind::ApiKey).1.len());
    assert(shared_files()[5].1.len() != spec_auth_test_template(AuthSchemeKind::ApiKey).1.len());
    assert(shared_files()[6].1.len() != spec_auth_test_template(AuthSchemeKind::ApiKey).1.len());
    assert(shared_files()[7].1.len() != spec_auth_test_template(AuthSchemeKind::ApiKey).1.len());
    assert(shared_files()[8].1.len() != spec_auth_test_template(AuthSchemeKind::ApiKey).1.len());
    assert(shared_files()[9].1.len() != spec_auth_test_template(AuthSchemeKind::ApiKey).1.len());
    assert(shared_files()[10].1.len() != spec_auth_test_template(AuthSchemeKind::ApiKey).1.len());
    assert(shared_files()[11].1.len() != spec_auth_test_template(AuthSchemeKind::ApiKey).1.len());
    assert(shared_files()[12].1.len() != spec_auth_test_template(AuthSchemeKind::ApiKey).1.len());
    assert(shared_files()[13].1.len() != spec_auth_test_template(AuthSchemeKind::ApiKey).1.len());
    assert(shared_files()[0].1.len() != spec_auth_test_template(AuthSchemeKind::BearerPat).1.len());
    assert(shared_files()[1].1.len() != spec_auth_test_template(AuthSchemeKind::BearerPat).1.len());
    assert(shared_files()[2].1.len() != spec_auth_test_template(AuthSchemeKind::BearerPat).1.len());
    assert(shared_files()[3].1.len() != spec_auth_test_template(AuthSchemeKind::BearerPat).1.len());
    assert(shared_files()[4].1.len() != spec_auth_test_template(AuthSchemeKind::BearerPat).1.len());
    assert(shared_files()[5].1.len() != spec_auth_test_template(AuthSchemeKind::BearerPat).1.len());
    assert(shared_files()[6].1.len() != spec_auth_test_template(AuthSchemeKind::BearerPat).1.len());
    assert(shared_files()[7].1.len() != spec_auth_test_template(AuthSchemeKind::BearerPat).1.len());
    assert(shared_files()[8].1.len() != spec_auth_test_template(AuthSchemeKind::BearerPat).1.len());
    assert(shared_files()[9].1.len() != spec_auth_test_template(AuthSchemeKind::BearerPat).1.len());
    assert(shared_files()[10].1.len() != spec_auth_test_template(AuthSchemeKind::BearerPat).1.len());
    assert(shared_files()[11].1.len() != spec_auth_test_template(AuthSchemeKind::BearerPat).1.len());
    assert(shared_files()[12].1.len() != spec_auth_test_template(AuthSchemeKind::BearerPat).1.len());
    assert(shared_files()[13].1.len() != spec_auth_test_template(AuthSchemeKind::BearerPat).1.len());
    assert(shared_files()[0].1.len() != spec_auth_test_template(AuthSchemeKind::OAuth2).1.len());
    assert(shared_files()[1].1.len() != spec_auth_test_template(AuthSchemeKind::OAuth2).1.len());
    assert(shared_files()[2].1.len() != spec_auth_test_template(AuthSchemeKind::OAuth2).1.len());
    assert(shared_files()[3].1.len() != spec_auth_test_template(AuthSchemeKind::OAuth2).1.len());
    assert(shared_files()[4].1.len() != spec_auth_test_template(AuthSchemeKind::OAuth2).1.len());
    assert(shared_files()[5].1.len() != spec_auth_test_template(AuthSchemeKind::OAuth2).1.len());
    assert(shared_files()[6].1.len() != spec_auth_test_template(AuthSchemeKind::OAuth2).1.len());
    assert(shared_files()[7].1.len() != spec_auth_test_template(AuthSchemeKind::OAuth2).1.len());
    assert(shared_files()[8].1.len() != spec_auth_test_template(AuthSchemeKind::OAuth2).1.len());
    assert(shared_files()[9].1.len() != spec_auth_test_template(AuthSchemeKind::OAuth2).1.len());
    assert(shared_files()[10].1.len() != spec_auth_test_template(AuthSchemeKind::OAuth2).1.len());
    assert(shared_files()[11].1.len() != spec_auth_test_template(AuthSchemeKind::OAuth2).1.len());
    assert(shared_files()[12].1.len() != spec_auth_test_template(AuthSchemeKind::OAuth2).1.len());
    assert(shared_files()[13].1.len() != spec_auth_test_template(AuthSchemeKind::OAuth2).1.len());
    assert(shared_files()[0].1.len() != spec_auth_test_template(AuthSchemeKind::OAuth1).1.len());
    assert(shared_files()[1].1.len() != spec_auth_test_template(AuthSchemeKind::OAuth1).1.len());
    assert(shared_files()[2].1.len() != spec_auth_test_template(AuthSchemeKind::OAuth1).1.len());
    assert(shared_files()[3].1.len() != spec_auth_test_template(AuthSchemeKind::OAuth1).1.len());
    assert(shared_files()[4].1.len() != spec_auth_test_template(AuthSchemeKind::OAuth1).1.len());
    assert(shared_files()[5].1.len() != spec_auth_test_template(AuthSchemeKind::OAuth1).1.len());
    assert(shared_files()[6].1.len() != spec_auth_test_template(AuthSchemeKind::OAuth1).1.len());
    assert(shared_files()[7].1.len() != spec_auth_test_template(AuthSchemeKind::OAuth1).1.len());
    assert(shared_files()[8].1.len() != spec_auth_test_template(AuthSchemeKind::OAuth1).1.len());
    assert(shared_files()[9].1.len() != spec_auth_test_template(AuthSchemeKind::OAuth1).1.len());
    assert(shared_files()[10].1.len() != spec_auth_test_template(AuthSchemeKind::OAuth1).1.len());
    assert(shared_files()[11].1.len() != spec_auth_test_template(AuthSchemeKind::OAuth1).1.len());
    assert(shared_files()[12].1.len() != spec_auth_test_template(AuthSchemeKind::OAuth1).1.len());
    assert(shared_files()[13].1.len() != spec_auth_test_template(AuthSchemeKind::OAuth1).1.len());
    assert forall|k: AuthSchemeKind, i: int| 0 <= i < shared_files().len() implies #[trigger] shared_files()[i].1
        != #[trigger] spec_auth_test_template(k).1 by {
        assert(shared_files().len() == 14);
    }
}

/// Different kinds have different files.
pub proof fn lemma_auth_test_template_outputs_distinct()
    ensures
        outputs_distinct(auth_test_template_table()),
{
    reveal_strlit("tests/unit/auth/basic.test.ts");
    reveal_strlit("tests/unit/auth/api-key.test.ts");
    reveal_strlit("tests/unit/auth/pat.test.ts");
    reveal_strlit("tests/unit/auth/oauth2.test.ts");
    reveal_strlit("tests/unit/auth/oauth1.test.ts");
    assert(spec_auth_test_template(AuthSchemeKind::Basic).1.len() != spec_auth_test_template(AuthSchemeKind::ApiKey).1.len());
    assert(spec_auth_test_template(AuthSchemeKind::Basic).1.len() != spec_auth_test_template(AuthSchemeKind::BearerPat).1.len());
    assert(spec_auth_test_template(AuthSchemeKind::Basic).1.len() != spec_auth_test_template(AuthSchemeKind::OAuth2).1.len());
    assert(spec_auth_test_template(AuthSchemeKind::Basic).1.len() != spec_auth_test_template(AuthSchemeKind::OAuth1).1.len());
    assert(spec_auth_test_template(AuthSchemeKind::ApiKey).1.len() != spec_auth_test_template(AuthSchemeKind::BearerPat).1.len());
    assert(spec_auth_test_template(AuthSchemeKind::ApiKey).1.len() != spec_auth_test_template(AuthSchemeKind::OAuth2).1.len());
    assert(spec_auth_test_template(AuthSchemeKind::ApiKey).1.len() != spec_auth_test_template(AuthSchemeKind::OAuth1).1.len());
    assert(spec_auth_test_template(AuthSchemeKind::BearerPat).1.len() != spec_auth_test_template(AuthSchemeKind::OAuth2).1.len());
    assert(spec_auth_test_template(AuthSchemeKind::BearerPat).1.len() != spec_auth_test_template(AuthSchemeKind::OAuth1).1.len());
    assert(spec_auth_test_template(AuthSchemeKind::OAuth2).1[21] != spec_auth_test_template(AuthSchemeKind::OAuth1).1[21]);
    assert forall|a: AuthSchemeKind, b: AuthSchemeKind| #![trigger auth_test_template_table()(a), auth_test_template_table()(b)] a != b implies auth_test_template_table()(a).1 != auth_test_template_table()(b).1 by {
        assert(auth_test_template_table()(a) == spec_auth_test_template(a));
        assert(auth_test_template_table()(b) == spec_auth_test_template(b));
    }
}

/// The step renders the auth test of kind `k` exactly when some discovered scheme has kind `k`, and no test twice.
pub proof fn law_one_auth_test_per_discovered_kind(schemes: Seq<AuthSchemeDescriptor>, k: AuthSchemeKind)
    ensures
        root_kind_renders(first_occurrences(scheme_kinds(schemes)), auth_test_template_table()).contains(ActionView::Render { template: spec_auth_test_template(k).0, out_path: spec_auth_test_template(k).1 }) <==> scheme_kinds(schemes).contains(k),
        forall|i: int, j: int|
            0 <= i < j < first_occurrences(scheme_kinds(schemes)).len() ==> root_kind_renders(first_occurrences(scheme_kinds(schemes)), auth_test_template_table())[i] != root_kind_renders(first_occurrences(scheme_kinds(schemes)), auth_test_template_table())[j],
{
    lemma_auth_test_template_outputs_distinct();
    law_one_root_render_per_discovered_kind(schemes, auth_test_template_table(), k);
}

/// An auth test is generated for kind `k` exactly when the auth step
/// generates the strategy of `k`.
pub proof fn law_auth_tests_match_strategies(schemes: Seq<AuthSchemeDescriptor>, k: AuthSchemeKind)
    ensures
        root_kind_renders(first_occurrences(scheme_kinds(schemes)), auth_test_template_table()).contains(ActionView::Render { template: spec_auth_test_template(k).0, out_path: spec_auth_test_template(k).1 }) <==> root_kind_renders(first_occurrences(scheme_kinds(schemes)), crate::targets::typescript::steps::auth::strategy_template_table()).contains(ActionView::Render { template: crate::targets::typescript::steps::auth::spec_strategy_template(k).0, out_path: crate::targets::typescript::steps::auth::spec_strategy_template(k).1 }),
{
    law_one_auth_test_per_discovered_kind(schemes, k);
    crate::targets::typescript::steps::auth::law_one_strategy_per_discovered_kind(schemes, k);
}

/// Emitted whatever schemes were discovered.
pub open spec fn shared_files() -> Seq<(Seq<char>, Seq<char>)> {
    seq![
        ("cli/setup-wizard.ts.tera"@, "src/cli/setup-wizard.ts"@),
        ("vitest.config.ts.tera"@, "vitest.config.ts"@),
        ("tests/helpers/mock-api-server.ts.tera"@, "tests/helpers/mock-api-server.ts"@),
        ("tests/helpers/mcp-test-client.ts.tera"@, "tests/helpers/mcp-test-client.ts"@),
        ("tests/helpers/dummy-credentials.ts.tera"@, "tests/helpers/dummy-credentials.ts"@),
        ("tests/helpers/log-capture.ts.tera"@, "tests/helpers/log-capture.ts"@),
        ("tests/helpers/skip-integration.ts.tera"@, "tests/helpers/skip-integration.ts"@),
        ("tests/unit/core/config-manager.test.ts.tera"@, "tests/unit/core/config-manager.test.ts"@),
        ("tests/unit/tools/search-tool.test.ts.tera"@, "tests/unit/tools/search-tool.test.ts"@),
        ("tests/unit/tools/get-tool.test.ts.tera"@, "tests/unit/tools/get-tool.test.ts"@),
        ("tests/unit/tools/call-tool.test.ts.tera"@, "tests/unit/tools/call-tool.test.ts"@),
        ("tests/unit/auth/stub.test.ts.tera"@, "tests/unit/auth/stub.test.ts"@),
        ("tests/integration/call-pipeline.test.ts.tera"@, "tests/integration/call-pipeline.test.ts"@),
        ("tests/e2e/mcp-server.test.ts.tera"@, "tests/e2e/mcp-server.test.ts"@),
    ]
}

/// The setup wizard and shared tests, then one auth test per distinct kind, in discovery order.
pub open spec fn setup_and_tests_plan(schemes: Seq<AuthSchemeDescriptor>) -> Seq<ActionView> {
    root_renders(shared_files())
        + root_kind_renders(first_occurrences(scheme_kinds(schemes)), auth_test_template_table())
}

/// The setup-and-tests step.
pub fn generate_setup_wizard_and_tests(ctx: &GeneratorContext) -> (r: Vec<Action>)
    ensures
        action_views(r@) == setup_and_tests_plan(ctx.auth_schemes@),
{
    let mut acts: Vec<Action> = Vec::new();
    let ghost start = action_views(acts@);
    push_root_render(&mut acts, "cli/setup-wizard.ts.tera", "src/cli/setup-wizard.ts");
    push_root_render(&mut acts, "vitest.config.ts.tera", "vitest.config.ts");
    push_root_render(&mut acts, "tests/helpers/mock-api-server.ts.tera", "tests/helpers/mock-api-server.ts");
    push_root_render(&mut acts, "tests/helpers/mcp-test-client.ts.tera", "tests/helpers/mcp-test-client.ts");
    push_root_render(&mut acts, "tests/helpers/dummy-credentials.ts.tera", "tests/helpers/dummy-credentials.ts");
    push_root_render(&mut acts, "tests/helpers/log-capture.ts.tera", "tests/helpers/log-capture.ts");
    push_root_render(&mut acts, "tests/helpers/skip-integration.ts.tera", "tests/helpers/skip-integration.ts");
    push_root_render(&mut acts, "tests/unit/core/config-manager.test.ts.tera", "tests/unit/core/config-manager.test.ts");
    push_root_render(&mut acts, "tests/unit/tools/search-tool.test.ts.tera", "tests/unit/tools/search-tool.test.ts");
    push_root_render(&mut acts, "tests/unit/tools/get-tool.test.ts.tera", "tests/unit/tools/get-tool.test.ts");
    push_root_render(&mut acts, "tests/unit/tools/call-tool.test.ts.tera", "tests/unit/tools/call-tool.test.ts");
    push_root_render(&mut acts, "tests/unit/auth/stub.test.ts.tera", "tests/unit/auth/stub.test.ts");
    push_root_render(&mut acts, "tests/integration/call-pipeline.test.ts.tera", "tests/integration/call-pipeline.test.ts");
    push_root_render(&mut acts, "tests/e2e/mcp-server.test.ts.tera", "tests/e2e/mcp-server.test.ts");
    assert(action_views(acts@) =~= start + root_renders(shared_files()));
    let ghost after0 = action_views(acts@);
    let kinds = distinct_kinds(&ctx.auth_schemes);
    let ghost before_kinds = action_views(acts@);
    let mut i: usize = 0;
    while i < kinds.len()
        invariant
            i <= kinds.len(),
            action_views(acts@) == before_kinds + root_kind_renders(kinds@.take(i as int), auth_test_template_table()),
        decreases kinds.len() - i,
    {
        let (template, out) = auth_test_template(kinds[i]);
        push_root_render(&mut acts, template, out);
        assert(root_kind_renders(kinds@.take(i + 1), auth_test_template_table()) =~= root_kind_renders(kinds@.take(i as int), auth_test_template_table()).push(action_views(acts@).last()));
        i = i + 1;
    }
    assert(kinds@.take(kinds.len() as int) =~= kinds@);
    assert(action_views(acts@) =~= setup_and_tests_plan(ctx.auth_schemes@));
    acts
}


/// Each kind's auth test has the name of that kind's strategy module (`src/auth/strategies/<m>.ts` is tested by `tests/unit/auth/<m>.test.ts`), so a test only ever exercises its own kind's strategy.
pub proof fn law_auth_test_file_per_kind()
    ensures
        forall|k: AuthSchemeKind| #[trigger] spec_auth_test_template(k).1 == "tests/unit/auth/"@ + (if k == AuthSchemeKind::ApiKey { "api-key"@ } else { spec_method_key(k) }) + ".test.ts"@,
{
    law_method_keys_and_idents();
    reveal_strlit(".test.ts");
    reveal_strlit("api-key");
    reveal_strlit("basic");
    reveal_strlit("oauth1");
    reveal_strlit("oauth2");
    reveal_strlit("pat");
    reveal_strlit("tests/unit/auth/");
    reveal_strlit("tests/unit/auth/api-key.test.ts");
    reveal_strlit("tests/unit/auth/basic.test.ts");
    reveal_strlit("tests/unit/auth/oauth1.test.ts");
    reveal_strlit("tests/unit/auth/oauth2.test.ts");
    reveal_strlit("tests/unit/auth/pat.test.ts");
    assert(spec_auth_test_template(AuthSchemeKind::Basic).1 =~= "tests/unit/auth/"@ + "basic"@ + ".test.ts"@);
    assert(spec_auth_test_template(AuthSchemeKind::ApiKey).1 =~= "tests/unit/auth/"@ + "api-key"@ + ".test.ts"@);
    assert(spec_auth_test_template(AuthSchemeKind::BearerPat).1 =~= "tests/unit/auth/"@ + "pat"@ + ".test.ts"@);
    assert(spec_auth_test_template(AuthSchemeKind::OAuth2).1 =~= "tests/unit/auth/"@ + "oauth2"@ + ".test.ts"@);
    assert(spec_auth_test_template(AuthSchemeKind::OAuth1).1 =~= "tests/unit/auth/"@ + "oauth1"@ + ".test.ts"@);
}


/// Each row of `shared_files` renders the template of the same name: its output
/// is the template's path without `.tera`, under `src/` for sources.
pub proof fn law_shared_files_outputs_match_templates()
    ensures
        forall|i: int|
            0 <= i < shared_files().len() ==> {
                let t = #[trigger] shared_files()[i].0;
                let o = shared_files()[i].1;
                &&& t.len() >= 5
                &&& t.skip(t.len() - 5) == ".tera"@
                &&& (o == t.take(t.len() - 5) || o == "src/"@ + t.take(t.len() - 5))
            },
{
    reveal_strlit(".tera");
    reveal_strlit("cli/setup-wizard.ts.tera");
    reveal_strlit("src/");
    reveal_strlit("src/cli/setup-wizard.ts");
    reveal_strlit("tests/e2e/mcp-server.test.ts");
    reveal_strlit("tests/e2e/mcp-server.test.ts.tera");
    reveal_strlit("tests/helpers/dummy-credentials.ts");
    reveal_strlit("tests/helpers/dummy-credentials.ts.tera");
    reveal_strlit("tests/helpers/log-capture.ts");
    reveal_strlit("tests/helpers/log-capture.ts.tera");
    reveal_strlit("tests/helpers/mcp-test-client.ts");
    reveal_strlit("tests/helpers/mcp-test-client.ts.tera");
    reveal_strlit("tests/helpers/mock-api-server.ts");
    reveal_strlit("tests/helpers/mock-api-server.ts.tera");
    reveal_strlit("tests/helpers/skip-integration.ts");
    reveal_strlit("tests/helpers/skip-integration.ts.tera");
    reveal_strlit("tests/integration/call-pipeline.test.ts");
    reveal_strlit("tests/integration/call-pipeline.test.ts.tera");
    reveal_strlit("tests/unit/auth/stub.test.ts");
    reveal_strlit("tests/unit/auth/stub.test.ts.tera");
    reveal_strlit("tests/unit/core/config-manager.test.ts");
    reveal_strlit("tests/unit/core/config-manager.test.ts.tera");
    reveal_strlit("tests/unit/tools/call-tool.test.ts");
    reveal_strlit("tests/unit/tools/call-tool.test.ts.tera");
    reveal_strlit("tests/unit/tools/get-tool.test.ts");
    reveal_strlit("tests/unit/tools/get-tool.test.ts.tera");
    reveal_strlit("tests/unit/tools/search-tool.test.ts");
    reveal_strlit("tests/unit/tools/search-tool.test.ts.tera");
    reveal_strlit("vitest.config.ts");
    reveal_strlit("vitest.config.ts.tera");
    assert(shared_files()[0].0.skip(24 - 5) =~= ".tera"@);
    assert(shared_files()[0].1 =~= "src/"@ + shared_files()[0].0.take(24 - 5));
    assert(shared_files()[1].0.skip(21 - 5) =~= ".tera"@);
    assert(shared_files()[1].1 =~= shared_files()[1].0.take(21 - 5));
    assert(shared_files()[2].0.skip(37 - 5) =~= ".tera"@);
    assert(shared_files()[2].1 =~= shared_files()[2].0.take(37 - 5));
    assert(shared_files()[3].0.skip(37 - 5) =~= ".tera"@);
    assert(shared_files()[3].1 =~= shared_files()[3].0.take(37 - 5));
    assert(shared_files()[4].0.skip(39 - 5) =~= ".tera"@);
    assert(shared_files()[4].1 =~= shared_files()[4].0.take(39 - 5));
    assert(shared_files()[5].0.skip(33 - 5) =~= ".tera"@);
    assert(shared_files()[5].1 =~= shared_files()[5].0.take(33 - 5));
    assert(shared_files()[6].0.skip(38 - 5) =~= ".tera"@);
    assert(shared_files()[6].1 =~= shared_files()[6].0.take(38 - 5));
    assert(shared_files()[7].0.skip(43 - 5) =~= ".tera"@);
    assert(shared_files()[7].1 =~= shared_files()[7].0.take(43 - 5));
    assert(shared_files()[8].0.skip(41 - 5) =~= ".tera"@);
    assert(shared_files()[8].1 =~= shared_files()[8].0.take(41 - 5));
    assert(shared_files()[9].0.skip(38 - 5) =~= ".tera"@);
    assert(shared_files()[9].1 =~= shared_files()[9].0.take(38 - 5));
    assert(shared_files()[10].0.skip(39 - 5) =~= ".tera"@);
    assert(shared_files()[10].1 =~= shared_files()[10].0.take(39 - 5));
    assert(shared_files()[11].0.skip(33 - 5) =~= ".tera"@);
    assert(shared_files()[11].1 =~= shared_files()[11].0.take(33 - 5));
    assert(shared_files()[12].0.skip(44 - 5) =~= ".tera"@);
    assert(shared_files()[12].1 =~= shared_files()[12].0.take(44 - 5));
    assert(shared_files()[13].0.skip(33 - 5) =~= ".tera"@);
    assert(shared_files()[13].1 =~= shared_files()[13].0.take(33 - 5));
    assert(shared_files().len() == 14);
}

} // verus!
