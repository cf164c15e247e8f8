//! Step six: the setup wizard and the generated pytest suite.

use crate::context::GeneratorContext;
use crate::plan::{Action, ActionView, action_views, kind_renders, law_one_root_render_per_discovered_kind, outputs_distinct, push_render, push_root_render, render_view, renders, root_kind_renders, root_renders};
use crate::auth_profile::AuthSchemeKind;
use crate::context::{distinct_kinds, first_occurrences, scheme_kinds};
use crate::targets::python::context::{module_name, spec_py_module_name};
use crate::auth_profile::AuthSchemeDescriptor;
use crate::auth_profile::{law_method_keys_and_idents, spec_method_ident, spec_method_key};
use vstd::prelude::*;
use vstd::string::*;

verus! {

/// The test module of a kind: only generated strategies get one.
pub open spec fn spec_auth_test_template(kind: AuthSchemeKind) -> (Seq<char>, Seq<char>) {
    match kind {
        AuthSchemeKind::Basic => ("tests/unit/auth/test_basic.py.tera"@, "tests/unit/auth/test_basic.py"@),
        AuthSchemeKind::ApiKey => ("tests/unit/auth/test_api_key.py.tera"@, "tests/unit/auth/test_api_key.py"@),
        AuthSchemeKind::BearerPat => ("tests/unit/auth/test_pat.py.tera"@, "tests/unit/auth/test_pat.py"@),
        AuthSchemeKind::OAuth2 => ("tests/unit/auth/test_oauth2.py.tera"@, "tests/unit/auth/test_oauth2.py"@),
        AuthSchemeKind::OAuth1 => ("tests/unit/auth/test_oauth1.py.tera"@, "tests/unit/auth/test_oauth1.py"@),
    }
}

pub open spec fn auth_test_template_table() -> spec_fn(AuthSchemeKind) -> (Seq<char>, Seq<char>) {
    |kind: AuthSchemeKind| spec_auth_test_template(kind)
}

pub fn auth_test_template(kind: AuthSchemeKind) -> (r: (&'static str, &'static str))
    ensures
        (r.0@, r.1@) == spec_auth_test_template(kind),
{
    match kind {
        AuthSchemeKind::Basic => ("tests/unit/auth/test_basic.py.tera", "tests/unit/auth/test_basic.py"),
        AuthSchemeKind::ApiKey => ("tests/unit/auth/test_api_key.py.tera", "tests/unit/auth/test_api_key.py"),
        AuthSchemeKind::BearerPat => ("tests/unit/auth/test_pat.py.tera", "tests/unit/auth/test_pat.py"),
        AuthSchemeKind::OAuth2 => ("tests/unit/auth/test_oauth2.py.tera", "tests/unit/auth/test_oauth2.py"),
        AuthSchemeKind::OAuth1 => ("tests/unit/auth/test_oauth1.py.tera", "tests/unit/auth/test_oauth1.py"),
    }
}

/// Each kind's template is its output path with `.tera` appended, and no kind's file is one of the
/// `shared_test_files`.
pub proof fn lemma_auth_test_template_table_shape()
    ensures
        forall|k: AuthSchemeKind| #[trigger] spec_auth_test_template(k).0 == spec_auth_test_template(k).1 + ".tera"@,
        forall|k: AuthSchemeKind, i: int|
            0 <= i < shared_test_files().len() ==> #[trigger] shared_test_files()[i].1 != #[trigger] spec_auth_test_template(k).1,
{
    reveal_strlit(".tera");
    reveal_strlit("scripts/coverage.sh");
    reveal_strlit("scripts/profile.sh");
    reveal_strlit("tests/conftest.py");
    reveal_strlit("tests/e2e/test_mcp_server.py");
    reveal_strlit("tests/integration/test_call_pipeline.py");
    reveal_strlit("tests/packaging/test_embeddings_populated.py");
    reveal_strlit("tests/unit/auth/test_api_key.py");
    reveal_strlit("tests/unit/auth/test_api_key.py.tera");
    reveal_strlit("tests/unit/auth/test_basic.py");
    reveal_strlit("tests/unit/auth/test_basic.py.tera");
    reveal_strlit("tests/unit/auth/test_oauth1.py");
    reveal_strlit("tests/unit/auth/test_oauth1.py.tera");
    reveal_strlit("tests/unit/auth/test_oauth2.py");
    reveal_strlit("tests/unit/auth/test_oauth2.py.tera");
    reveal_strlit("tests/unit/auth/test_pat.py");
    reveal_strlit("tests/unit/auth/test_pat.py.tera");
    reveal_strlit("tests/unit/auth/test_stub.py");
    reveal_strlit("tests/unit/core/test_cache.py");
    reveal_strlit("tests/unit/core/test_circuit_breaker.py");
    reveal_strlit("tests/unit/core/test_config.py");
    reveal_strlit("tests/unit/core/test_rate_limiter.py");
    reveal_strlit("tests/unit/tools/test_call_tool.py");
    reveal_strlit("tests/unit/tools/test_get_tool.py");
    reveal_strlit("tests/unit/tools/test_search_tool.py");
    reveal_strlit("tests/unit/validation/test_validator.py");
    assert(spec_auth_test_template(AuthSchemeKind::Basic).0 =~= spec_auth_test_template(AuthSchemeKind::Basic).1 + ".tera"@);
    assert(spec_auth_test_template(AuthSchemeKind::ApiKey).0 =~= spec_auth_test_template(AuthSchemeKind::ApiKey).1 + ".tera"@);
    assert(spec_auth_test_template(AuthSchemeKind::BearerPat).0 =~= spec_auth_test_template(AuthSchemeKind::BearerPat).1 + ".tera"@);
    assert(spec_auth_test_template(AuthSchemeKind::OAuth2).0 =~= spec_auth_test_template(AuthSchemeKind::OAuth2).1 + ".tera"@);
    assert(spec_auth_test_template(AuthSchemeKind::OAuth1).0 =~= spec_auth_test_template(AuthSchemeKind::OAuth1).1 + ".tera"@);
    assert(shared_test_files()[0].1.len() != spec_auth_test_template(AuthSchemeKind::Basic).1.len());
    assert(shared_test_files()[1].1.len() != spec_auth_test_template(AuthSchemeKind::Basic).1.len());
    assert(shared_test_files()[2].1.len() != spec_auth_test_template(AuthSchemeKind::Basic).1.len());
    assert(shared_test_files()[3].1.len() != spec_auth_test_template(AuthSchemeKind::Basic).1.len());
    assert(shared_test_files()[4].1[11] != spec_auth_test_template(AuthSchemeKind::Basic).1[11]);
    assert(shared_test_files()[5].1.len() != spec_auth_test_template(AuthSchemeKind::Basic).1.len());
    assert(shared_test_files()[6].1.len() != spec_auth_test_template(AuthSchemeKind::Basic).1.len());
    assert(shared_test_files()[7].1.len() != spec_auth_test_template(AuthSchemeKind::Basic).1.len());
    assert(shared_test_files()[8].1.len() != spec_auth_test_template(AuthSchemeKind::Basic).1.len());
    assert(shared_test_files()[9].1.len() != spec_auth_test_template(AuthSchemeKind::Basic).1.len());
    assert(shared_test_files()[10].1.len() != spec_auth_test_template(AuthSchemeKind::Basic).1.len());
    assert(shared_test_files()[11].1.len() != spec_auth_test_template(AuthSchemeKind::Basic).1.len());
    assert(shared_test_files()[12].1.len() != spec_auth_test_template(AuthSchemeKind::Basic).1.len());
    assert(shared_test_files()[13].1.len() != spec_auth_test_template(AuthSchemeKind::Basic).1.len());
    assert(shared_test_files()[14].1.len() != spec_auth_test_template(AuthSchemeKind::Basic).1.len());
    assert(shared_test_files()[0].1.len() != spec_auth_test_template(AuthSchemeKind::ApiKey).1.len());
    assert(shared_test_files()[1].1.len() != spec_auth_test_template(AuthSchemeKind::ApiKey).1.len());
    assert(shared_test_files()[2].1.len() != spec_auth_test_template(AuthSchemeKind::ApiKey).1.len());
    assert(shared_test_files()[3].1.len() != spec_auth_test_template(AuthSchemeKind::ApiKey).1.len());
    assert(shared_test_files()[4].1.len() != spec_auth_test_template(AuthSchemeKind::ApiKey).1.len());
    assert(shared_test_files()[5].1.len() != spec_auth_test_template(AuthSchemeKind::ApiKey).1.len());
    assert(shared_test_files()[6].1.len() != spec_auth_test_template(AuthSchemeKind::ApiKey).1.len());
    assert(shared_test_files()[7].1.len() != spec_auth_test_template(AuthSchemeKind::ApiKey).1.len());
    assert(shared_test_files()[8].1.len() != spec_auth_test_template(AuthSchemeKind::ApiKey).1.len());
    assert(shared_test_files()[9].1.len() != spec_auth_test_template(AuthSchemeKind::ApiKey).1.len());
    assert(shared_test_files()[10].1.len() != spec_auth_test_template(AuthSchemeKind::ApiKey).1.len());
    assert(shared_test_files()[11].1.len() != spec_auth_test_template(AuthSchemeKind::ApiKey).1.len());
    assert(shared_test_files()[12].1.len() != spec_auth_test_template(AuthSchemeKind::ApiKey).1.len());
    assert(shared_test_files()[13].1.len() != spec_auth_test_template(AuthSchemeKind::ApiKey).1.len());
    assert(shared_test_files()[14].1.len() != spec_auth_test_template(AuthSchemeKind::ApiKey).1.len());
    assert(shared_test_files()[0].1.len() != spec_auth_test_template(AuthSchemeKind::BearerPat).1.len());
    assert(shared_test_files()[1].1.len() != spec_auth_test_template(AuthSchemeKind::BearerPat).1.len());
    assert(shared_test_files()[2].1.len() != spec_auth_test_template(AuthSchemeKind::BearerPat).1.len());
    assert(shared_test_files()[3].1.len() != spec_auth_test_template(AuthSchemeKind::BearerPat).1.len());
    assert(shared_test_files()[4].1.len() != spec_auth_test_template(AuthSchemeKind::BearerPat).1.len());
    assert(shared_test_files()[5].1.len() != spec_auth_test_template(AuthSchemeKind::BearerPat).1.len());
    assert(shared_test_files()[6].1.len() != spec_auth_test_template(AuthSchemeKind::BearerPat).1.len());
    assert(shared_test_files()[7].1.len() != spec_auth_test_template(AuthSchemeKind::BearerPat).1.len());
    assert(shared_test_files()[8].1.len() != spec_auth_test_template(AuthSchemeKind::BearerPat).1.len());
    assert(shared_test_files()[9].1.len() != spec_auth_test_template(AuthSchemeKind::BearerPat).1.len());
    assert(shared_test_files()[10].1.len() != spec_auth_test_template(AuthSchemeKind::BearerPat).1.len());
    assert(shared_test_files()[11].1.len() != spec_auth_test_template(AuthSchemeKind::BearerPat).1.len());
    assert(shared_test_files()[12].1.len() != spec_auth_test_template(AuthSchemeKind::BearerPat).1.len());
    assert(shared_test_files()[13].1.len() != spec_auth_test_template(AuthSchemeKind::BearerPat).1.len());
    assert(shared_test_files()[14].1.len() != spec_auth_test_template(AuthSchemeKind::BearerPat).1.len());
    assert(shared_test_files()[0].1.len() != spec_auth_test_template(AuthSchemeKind::OAuth2).1.len());
    assert(shared_test_files()[1].1[11] != spec_auth_test_template(AuthSchemeKind::OAuth2).1[11]);
    assert(shared_test_files()[2].1.len() != spec_auth_test_template(AuthSchemeKind::OAuth2).1.len());
    assert(shared_test_files()[3].1.len() != spec_auth_test_template(AuthSchemeKind::OAuth2).1.len());
    assert(shared_test_files()[4].1.len() != spec_auth_test_template(AuthSchemeKind::OAuth2).1.len());
    assert(shared_test_files()[5].1.len() != spec_auth_test_template(AuthSchemeKind::OAuth2).1.len());
    assert(shared_test_files()[6].1.len() != spec_auth_test_template(AuthSchemeKind::OAuth2).1.len());
    assert(shared_test_files()[7].1.len() != spec_auth_test_template(AuthSchemeKind::OAuth2).1.len());
    assert(shared_test_files()[8].1.len() != spec_auth_test_template(AuthSchemeKind::OAuth2).1.len());
    assert(shared_test_files()[9].1.len() != spec_auth_test_template(AuthSchemeKind::OAuth2).1.len());
    assert(shared_test_files()[10].1.len() != spec_auth_test_template(AuthSchemeKind::OAuth2).1.len());
    assert(shared_test_files()[11].1.len() != spec_auth_test_template(AuthSchemeKind::OAuth2).1.len());
    assert(shared_test_files()[12].1.len() != spec_auth_test_template(AuthSchemeKind::OAuth2).1.len());
    assert(shared_test_files()[13].1.len() != spec_auth_test_template(AuthSchemeKind::OAuth2).1.len());
    assert(shared_test_files()[14].1.len() != spec_auth_test_template(AuthSchemeKind::OAuth2).1.len());
    assert(shared_test_files()[0].1.len() != spec_auth_test_template(AuthSchemeKind::OAuth1).1.len());
    assert(shared_test_files()[1].1[11] != spec_auth_test_template(AuthSchemeKind::OAuth1).1[11]);
    assert(shared_test_files()[2].1.len() != spec_auth_test_template(AuthSchemeKind::OAuth1).1.len());
    assert(shared_test_files()[3].1.len() != spec_auth_test_template(AuthSchemeKind::OAuth1).1.len());
    assert(shared_test_files()[4].1.len() != spec_auth_test_template(AuthSchemeKind::OAuth1).1.len());
    assert(shared_test_files()[5].1.len() != spec_auth_test_template(AuthSchemeKind::OAuth1).1.len());
    assert(shared_test_files()[6].1.len() != spec_auth_test_template(AuthSchemeKind::OAuth1).1.len());
    assert(shared_test_files()[7].1.len() != spec_auth_test_template(AuthSchemeKind::OAuth1).1.len());
    assert(shared_test_files()[8].1.len() != spec_auth_test_template(AuthSchemeKind::OAuth1).1.len());
    assert(shared_test_files()[9].1.len() != spec_auth_test_template(AuthSchemeKind::OAuth1).1.len());
    assert(shared_test_files()[10].1.len() != spec_auth_test_template(AuthSchemeKind::OAuth1).1.len());
    assert(shared_test_files()[11].1.len() != spec_auth_test_template(AuthSchemeKind::OAuth1).1.len());
    assert(shared_test_files()[12].1.len() != spec_auth_test_template(AuthSchemeKind::OAuth1).1.len());
    assert(shared_test_files()[13].1.len() != spec_auth_test_template(AuthSchemeKind::OAuth1).1.len());
    assert(shared_test_files()[14].1.len() != spec_auth_test_template(AuthSchemeKind::OAuth1).1.len());
    assert forall|k: AuthSchemeKind, i: int| 0 <= i < shared_test_files().len() implies #[trigger] shared_test_files()[i].1
        != #[trigger] spec_auth_test_template(k).1 by {
        assert(shared_test_files().len() == 15);
    }
}

/// Different kinds have different files.
pub proof fn lemma_auth_test_template_outputs_distinct()
    ensures
        outputs_distinct(auth_test_template_table()),
{
    reveal_strlit("tests/unit/auth/test_basic.py");
    reveal_strlit("tests/unit/auth/test_api_key.py");
    reveal_strlit("tests/unit/auth/test_pat.py");
    reveal_strlit("tests/unit/auth/test_oauth2.py");
    reveal_strlit("tests/unit/auth/test_oauth1.py");
    assert(spec_auth_test_template(AuthSchemeKind::Basic).1.len() != spec_auth_test_template(AuthSchemeKind::ApiKey).1.len());
    assert(spec_auth_test_template(AuthSchemeKind::Basic).1.len() != spec_auth_test_template(AuthSchemeKind::BearerPat).1.len());
    assert(spec_auth_test_template(AuthSchemeKind::Basic).1.len() != spec_auth_test_template(AuthSchemeKind::OAuth2).1.len());
    assert(spec_auth_test_template(AuthSchemeKind::Basic).1.len() != spec_auth_test_template(AuthSchemeKind::OAuth1).1.len());
    assert(spec_auth_test_template(AuthSchemeKind::ApiKey).1.len() != spec_auth_test_template(AuthSchemeKind::BearerPat).1.len());
    assert(spec_auth_test_template(AuthSchemeKind::ApiKey).1.len() != spec_auth_test_template(AuthSchemeKind::OAuth2).1.len());
    assert(spec_auth_test_template(AuthSchemeKind::ApiKey).1.len() != spec_auth_test_template(AuthSchemeKind::OAuth1).1.len());
    assert(spec_auth_test_template(AuthSchemeKind::BearerPat).1.len() != spec_auth_test_template(AuthSchemeKind::OAuth2).1.len());
    assert(spec_auth_test_template(AuthSchemeKind::BearerPat).1.len() != spec_auth_test_template(AuthSchemeKind::OAuth1).1.len());
    assert(spec_auth_test_template(AuthSchemeKind::OAuth2).1[26] != spec_auth_test_template(AuthSchemeKind::OAuth1).1[26]);
    assert forall|a: AuthSchemeKind, b: AuthSchemeKind| #![trigger auth_test_template_table()(a), auth_test_template_table()(b)] a != b implies auth_test_template_table()(a).1 != auth_test_template_table()(b).1 by {
        assert(auth_test_template_table()(a) == spec_auth_test_template(a));
        assert(auth_test_template_table()(b) == spec_auth_test_template(b));
    }
}

/// The step renders the auth test of kind `k` exactly when some discovered scheme has kind `k`, and no test twice.
pub proof fn law_one_auth_test_per_discovered_kind(schemes: Seq<AuthSchemeDescriptor>, k: AuthSchemeKind)
    ensures
        root_kind_renders(first_occurrences(scheme_kinds(schemes)), auth_test_template_table()).contains(ActionView::Render { template: spec_auth_test_template(k).0, out_path: spec_auth_test_template(k).1 }) <==> scheme_kinds(schemes).contains(k),
        forall|i: int, j: int|
            0 <= i < j < first_occurrences(scheme_kinds(schemes)).len() ==> root_kind_renders(first_occurrences(scheme_kinds(schemes)), auth_test_template_table())[i] != root_kind_renders(first_occurrences(scheme_kinds(schemes)), auth_test_template_table())[j],
{
    lemma_auth_test_template_outputs_distinct();
    law_one_root_render_per_discovered_kind(schemes, auth_test_template_table(), k);
}

/// An auth test is generated for kind `k` exactly when the auth step
/// generates the strategy of `k`.
pub proof fn law_auth_tests_match_strategies(module: Seq<char>, schemes: Seq<AuthSchemeDescriptor>, k: AuthSchemeKind)
    ensures
        root_kind_renders(first_occurrences(scheme_kinds(schemes)), auth_test_template_table()).contains(ActionView::Render { template: spec_auth_test_template(k).0, out_path: spec_auth_test_template(k).1 }) <==> kind_renders("src/"@ + module + "/"@, first_occurrences(scheme_kinds(schemes)), crate::targets::python::steps::auth::strategy_template_table()).contains(render_view("src/"@ + module + "/"@, crate::targets::python::steps::auth::spec_strategy_template(k).0, crate::targets::python::steps::auth::spec_strategy_template(k).1)),
{
    law_one_auth_test_per_discovered_kind(schemes, k);
    crate::targets::python::steps::auth::law_one_strategy_per_discovered_kind(module, schemes, k);
}

/// Relative to the package root.
pub open spec fn package_files() -> Seq<(Seq<char>, Seq<char>)> {
    seq![
        ("cli/setup_wizard.py.tera"@, "cli/setup_wizard.py"@),
    ]
}

/// Emitted whatever schemes were discovered.
pub open spec fn shared_test_files() -> Seq<(Seq<char>, Seq<char>)> {
    seq![
        ("tests/conftest.py.tera"@, "tests/conftest.py"@),
        ("tests/unit/core/test_config.py.tera"@, "tests/unit/core/test_config.py"@),
        ("tests/unit/core/test_circuit_breaker.py.tera"@, "tests/unit/core/test_circuit_breaker.py"@),
        ("tests/unit/core/test_rate_limiter.py.tera"@, "tests/unit/core/test_rate_limiter.py"@),
        ("tests/unit/core/test_cache.py.tera"@, "tests/unit/core/test_cache.py"@),
        ("tests/unit/tools/test_search_tool.py.tera"@, "tests/unit/tools/test_search_tool.py"@),
        ("tests/unit/tools/test_get_tool.py.tera"@, "tests/unit/tools/test_get_tool.py"@),
        ("tests/unit/tools/test_call_tool.py.tera"@, "tests/unit/tools/test_call_tool.py"@),
        ("tests/unit/validation/test_validator.py.tera"@, "tests/unit/validation/test_validator.py"@),
        ("tests/unit/auth/test_stub.py.tera"@, "tests/unit/auth/test_stub.py"@),
        ("tests/integration/test_call_pipeline.py.tera"@, "tests/integration/test_call_pipeline.py"@),
        ("tests/e2e/test_mcp_server.py.tera"@, "tests/e2e/test_mcp_server.py"@),
        ("tests/packaging/test_embeddings_populated.py.tera"@, "tests/packaging/test_embeddings_populated.py"@),
        ("scripts/coverage.sh.tera"@, "scripts/coverage.sh"@),
        ("scripts/profile.sh.tera"@, "scripts/profile.sh"@),
    ]
}

/// The wizard inside the package, the shared tests, then one auth test per distinct kind, in discovery order.
pub open spec fn setup_and_tests_plan(module: Seq<char>, schemes: Seq<AuthSchemeDescriptor>) -> Seq<ActionView> {
    renders("src/"@ + module + "/"@, package_files())
        + root_renders(shared_test_files())
        + root_kind_renders(first_occurrences(scheme_kinds(schemes)), auth_test_template_table())
}

/// The setup-and-tests step.
pub fn generate_setup_wizard_and_tests(ctx: &GeneratorContext) -> (r: Vec<Action>)
    ensures
        action_views(r@) == setup_and_tests_plan(spec_py_module_name(ctx.output_dir@, ctx.api_title@), ctx.auth_schemes@),
{
    let module = module_name(ctx);
    let mut package_root = String::from_str("src/");
    package_root.append(module.as_str());
    package_root.append("/");
    let mut acts: Vec<Action> = Vec::new();
    let ghost start = action_views(acts@);
    push_render(&mut acts, package_root.as_str(), "cli/setup_wizard.py.tera", "cli/setup_wizard.py");
    assert(action_views(acts@) =~= start + renders("src/"@ + module@ + "/"@, package_files()));
    let ghost after0 = action_views(acts@);
    push_root_render(&mut acts, "tests/conftest.py.tera", "tests/conftest.py");
    push_root_render(&mut acts, "tests/unit/core/test_config.py.tera", "tests/unit/core/test_config.py");
    push_root_render(&mut acts, "tests/unit/core/test_circuit_breaker.py.tera", "tests/unit/core/test_circuit_breaker.py");
    push_root_render(&mut acts, "tests/unit/core/test_rate_limiter.py.tera", "tests/unit/core/test_rate_limiter.py");
    push_root_render(&mut acts, "tests/unit/core/test_cache.py.tera", "tests/unit/core/test_cache.py");
    push_root_render(&mut acts, "tests/unit/tools/test_search_tool.py.tera", "tests/unit/tools/test_search_tool.py");
    push_root_render(&mut acts, "tests/unit/tools/test_get_tool.py.tera", "tests/unit/tools/test_get_tool.py");
    push_root_render(&mut acts, "tests/unit/tools/test_call_tool.py.tera", "tests/unit/tools/test_call_tool.py");
    push_root_render(&mut acts, "tests/unit/validation/test_validator.py.tera", "tests/unit/validation/test_validator.py");
    push_root_render(&mut acts, "tests/unit/auth/test_stub.py.tera", "tests/unit/auth/test_stub.py");
    push_root_render(&mut acts, "tests/integration/test_call_pipeline.py.tera", "tests/integration/test_call_pipeline.py");
    push_root_render(&mut acts, "tests/e2e/test_mcp_server.py.tera", "tests/e2e/test_mcp_server.py");
    push_root_render(&mut acts, "tests/packaging/test_embeddings_populated.py.tera", "tests/packaging/test_embeddings_populated.py");
    push_root_render(&mut acts, "scripts/coverage.sh.tera", "scripts/coverage.sh");
    push_root_render(&mut acts, "scripts/profile.sh.tera", "scripts/profile.sh");
    assert(action_views(acts@) =~= after0 + root_renders(shared_test_files()));
    let ghost after1 = action_views(acts@);
    let kinds = distinct_kinds(&ctx.auth_schemes);
    let ghost before_kinds = action_views(acts@);
    let mut i: usize = 0;
    while i < kinds.len()
        invariant
            i <= kinds.len(),
            action_views(acts@) == before_kinds + root_kind_renders(kinds@.take(i as int), auth_test_template_table()),
        decreases kinds.len() - i,
    {
        let (template, out) = auth_test_template(kinds[i]);
        push_root_render(&mut acts, template, out);
        assert(root_kind_renders(kinds@.take(i + 1), auth_test_template_table()) =~= root_kind_renders(kinds@.take(i as int), auth_test_template_table()).push(action_views(acts@).last()));
        i = i + 1;
    }
    assert(kinds@.take(kinds.len() as int) =~= kinds@);
    assert(action_views(acts@) =~= setup_and_tests_plan(spec_py_module_name(ctx.output_dir@, ctx.api_title@), ctx.auth_schemes@));
    acts
}


/// Each kind's test module is `test_<m>.py` for the kind's strategy module `<m>.py`, so a test only ever exercises its own kind's strategy.
pub proof fn law_auth_test_file_per_kind()
    ensures
        forall|k: AuthSchemeKind| #[trigger] spec_auth_test_template(k).1 == "tests/unit/auth/test_"@ + (if k == AuthSchemeKind::ApiKey { "api_key"@ } else { spec_method_key(k) }) + ".py"@,
{
    law_method_keys_and_idents();
    reveal_strlit(".py");
    reveal_strlit("api_key");
    reveal_strlit("basic");
    reveal_strlit("oauth1");
    reveal_strlit("oauth2");
    reveal_strlit("pat");
    reveal_strlit("tests/unit/auth/test_");
    reveal_strlit("tests/unit/auth/test_api_key.py");
    reveal_strlit("tests/unit/auth/test_basic.py");
    reveal_strlit("tests/unit/auth/test_oauth1.py");
    reveal_strlit("tests/unit/auth/test_oauth2.py");
    reveal_strlit("tests/unit/auth/test_pat.py");
    assert(spec_auth_test_template(AuthSchemeKind::Basic).1 =~= "tests/unit/auth/test_"@ + "basic"@ + ".py"@);
    assert(spec_auth_test_template(AuthSchemeKind::ApiKey).1 =~= "tests/unit/auth/test_"@ + "api_key"@ + ".py"@);
    assert(spec_auth_test_template(AuthSchemeKind::BearerPat).1 =~= "tests/unit/auth/test_"@ + "pat"@ + ".py"@);
    assert(spec_auth_test_template(AuthSchemeKind::OAuth2).1 =~= "tests/unit/auth/test_"@ + "oauth2"@ + ".py"@);
    assert(spec_auth_test_template(AuthSchemeKind::OAuth1).1 =~= "tests/unit/auth/test_"@ + "oauth1"@ + ".py"@);
}


/// Each row of `package_files` renders the template of the same name: its output
/// is the template's path without `.tera`, under `src/` for sources.
pub proof fn law_package_files_outputs_match_templates()
    ensures
        forall|i: int|
            0 <= i < package_files().len() ==> {
                let t = #[trigger] package_files()[i].0;
                let o = package_files()[i].1;
                &&& t.len() >= 5
                &&& t.skip(t.len() - 5) == ".tera"@
                &&& (o == t.take(t.len() - 5) || o == "src/"@ + t.take(t.len() - 5))
            },
{
    reveal_strlit(".tera");
    reveal_strlit("cli/setup_wizard.py");
    reveal_strlit("cli/setup_wizard.py.tera");
    reveal_strlit("src/");
    assert(package_files()[0].0.skip(24 - 5) =~= ".tera"@);
    assert(package_files()[0].1 =~= package_files()[0].0.take(24 - 5));
    assert(package_files().len() == 1);
}

/// Each row of `shared_test_files` renders the template of the same name: its output
/// is the template's path without `.tera`, under `src/` for sources.
pub proof fn law_shared_test_files_outputs_match_templates()
    ensures
        forall|i: int|
            0 <= i < shared_test_files().len() ==> {
                let t = #[trigger] shared_test_files()[i].0;
                let o = shared_test_files()[i].1;
                &&& t.len() >= 5
                &&& t.skip(t.len() - 5) == ".tera"@
                &&& (o == t.take(t.len() - 5) || o == "src/"@ + t.take(t.len() - 5))
            },
{
    reveal_strlit(".tera");
    reveal_strlit("scripts/coverage.sh");
    reveal_strlit("scripts/coverage.sh.tera");
    reveal_strlit("scripts/profile.sh");
    reveal_strlit("scripts/profile.sh.tera");
    reveal_strlit("src/");
    reveal_strlit("tests/conftest.py");
    reveal_strlit("tests/conftest.py.tera");
    reveal_strlit("tests/e2e/test_mcp_server.py");
    reveal_strlit("tests/e2e/test_mcp_server.py.tera");
    reveal_strlit("tests/integration/test_call_pipeline.py");
    reveal_strlit("tests/integration/test_call_pipeline.py.tera");
    reveal_strlit("tests/packaging/test_embeddings_populated.py");
    reveal_strlit("tests/packaging/test_embeddings_populated.py.tera");
    reveal_strlit("tests/unit/auth/test_stub.py");
    reveal_strlit("tests/unit/auth/test_stub.py.tera");
    reveal_strlit("tests/unit/core/test_cache.py");
    reveal_strlit("tests/unit/core/test_cache.py.tera");
    reveal_strlit("tests/unit/core/test_circuit_breaker.py");
    reveal_strlit("tests/unit/core/test_circuit_breaker.py.tera");
    reveal_strlit("tests/unit/core/test_config.py");
    reveal_strlit("tests/unit/core/test_config.py.tera");
    reveal_strlit("tests/unit/core/test_rate_limiter.py");
    reveal_strlit("tests/unit/core/test_rate_limiter.py.tera");
    reveal_strlit("tests/unit/tools/test_call_tool.py");
    reveal_strlit("tests/unit/tools/test_call_tool.py.tera");
    reveal_strlit("tests/unit/tools/test_get_tool.py");
    reveal_strlit("tests/unit/tools/test_get_tool.py.tera");
    reveal_strlit("tests/unit/tools/test_search_tool.py");
    reveal_strlit("tests/unit/tools/test_search_tool.py.tera");
    reveal_strlit("tests/unit/validation/test_validator.py");
    reveal_strlit("tests/unit/validation/test_validator.py.tera");
    assert(shared_test_files()[0].0.skip(22 - 5) =~= ".tera"@);
    assert(shared_test_files()[0].1 =~= shared_test_files()[0].0.take(22 - 5));
    assert(shared_test_files()[1].0.skip(35 - 5) =~= ".tera"@);
    assert(shared_test_files()[1].1 =~= shared_test_files()[1].0.take(35 - 5));
    assert(shared_test_files()[2].0.skip(44 - 5) =~= ".tera"@);
    assert(shared_test_files()[2].1 =~= shared_test_files()[2].0.take(44 - 5));
    assert(shared_test_files()[3].0.skip(41 - 5) =~= ".tera"@);
    assert(shared_test_files()[3].1 =~= shared_test_files()[3].0.take(41 - 5));
    assert(shared_test_files()[4].0.skip(34 - 5) =~= ".tera"@);
    assert(shared_test_files()[4].1 =~= shared_test_files()[4].0.take(34 - 5));
    assert(shared_test_files()[5].0.skip(41 - 5) =~= ".tera"@);
    assert(shared_test_files()[5].1 =~= shared_test_files()[5].0.take(41 - 5));
    assert(shared_test_files()[6].0.skip(38 - 5) =~= ".tera"@);
    assert(shared_test_files()[6].1 =~= shared_test_files()[6].0.take(38 - 5));
    assert(shared_test_files()[7].0.skip(39 - 5) =~= ".tera"@);
    assert(shared_test_files()[7].1 =~= shared_test_files()[7].0.take(39 - 5));
    assert(shared_test_files()[8].0.skip(44 - 5) =~= ".tera"@);
    assert(shared_test_files()[8].1 =~= shared_test_files()[8].0.take(44 - 5));
    assert(shared_test_files()[9].0.skip(33 - 5) =~= ".tera"@);
    assert(shared_test_files()[9].1 =~= shared_test_files()[9].0.take(33 - 5));
    assert(shared_test_files()[10].0.skip(44 - 5) =~= ".tera"@);
    assert(shared_test_files()[10].1 =~= shared_test_files()[10].0.take(44 - 5));
    assert(shared_test_files()[11].0.skip(33 - 5) =~= ".tera"@);
    assert(shared_test_files()[11].1 =~= shared_test_files()[11].0.take(33 - 5));
    assert(shared_test_files()[12].0.skip(49 - 5) =~= ".tera"@);
    assert(shared_test_files()[12].1 =~= shared_test_files()[12].0.take(49 - 5));
    assert(shared_test_files()[13].0.skip(24 - 5) =~= ".tera"@);
    assert(shared_test_files()[13].1 =~= shared_test_files()[13].0.take(24 - 5));
    assert(shared_test_files()[14].0.skip(23 - 5) =~= ".tera"@);
    assert(shared_test_files()[14].1 =~= shared_test_files()[14].0.take(23 - 5));
    assert(shared_test_files().len() == 15);
}

} // verus!
