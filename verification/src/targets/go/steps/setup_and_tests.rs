//! Step six: the setup command and the generated test suite.

use crate::context::GeneratorContext;
use crate::plan::{Action, ActionView, action_views, law_one_root_render_per_discovered_kind, outputs_distinct, push_root_render, renders, root_kind_renders, root_renders};
use crate::auth_profile::AuthSchemeKind;
use crate::context::{distinct_kinds, first_occurrences, scheme_kinds};
use crate::auth_profile::AuthSchemeDescriptor;
use crate::auth_profile::{law_method_keys_and_idents, spec_method_ident, spec_method_key};
use vstd::prelude::*;
use vstd::string::*;

verus! {

/// The test file of a kind.
pub open spec fn spec_test_template(kind: AuthSchemeKind) -> (Seq<char>, Seq<char>) {
    match kind {
        AuthSchemeKind::Basic => ("internal/auth/basic_test.go.tera"@, "internal/auth/basic_test.go"@),
        AuthSchemeKind::ApiKey => ("internal/auth/apikey_test.go.tera"@, "internal/auth/apikey_test.go"@),
        AuthSchemeKind::BearerPat => ("internal/auth/pat_test.go.tera"@, "internal/auth/pat_test.go"@),
        AuthSchemeKind::OAuth2 => ("internal/auth/oauth2_test.go.tera"@, "internal/auth/oauth2_test.go"@),
        AuthSchemeKind::OAuth1 => ("internal/auth/oauth1_test.go.tera"@, "internal/auth/oauth1_test.go"@),
    }
}

pub open spec fn test_template_table() -> spec_fn(AuthSchemeKind) -> (Seq<char>, Seq<char>) {
    |kind: AuthSchemeKind| spec_test_template(kind)
}

pub fn test_template(kind: AuthSchemeKind) -> (r: (&'static str, &'static str))
    ensures
        (r.0@, r.1@) == spec_test_template(kind),
{
    match kind {
        AuthSchemeKind::Basic => ("internal/auth/basic_test.go.tera", "internal/auth/basic_test.go"),
        AuthSchemeKind::ApiKey => ("internal/auth/apikey_test.go.tera", "internal/auth/apikey_test.go"),
        AuthSchemeKind::BearerPat => ("internal/auth/pat_test.go.tera", "internal/auth/pat_test.go"),
        AuthSchemeKind::OAuth2 => ("internal/auth/oauth2_test.go.tera", "internal/auth/oauth2_test.go"),
        AuthSchemeKind::OAuth1 => ("internal/auth/oauth1_test.go.tera", "internal/auth/oauth1_test.go"),
    }
}

/// Each kind's template is its output path with `.tera` appended, and no kind's file is one of the
/// `files`.
pub proof fn lemma_test_template_table_shape()
    ensures
        forall|k: AuthSchemeKind| #[trigger] spec_test_template(k).0 == spec_test_template(k).1 + ".tera"@,
        forall|k: AuthSchemeKind, i: int|
            0 <= i < files().len() ==> #[trigger] files()[i].1 != #[trigger] spec_test_template(k).1,
{
    reveal_strlit(".tera");
    reveal_strlit("internal/auth/apikey_test.go");
    reveal_strlit("internal/auth/apikey_test.go.tera");
    reveal_strlit("internal/auth/basic_test.go");
    reveal_strlit("internal/auth/basic_test.go.tera");
    reveal_strlit("internal/auth/oauth1_test.go");
    reveal_strlit("internal/auth/oauth1_test.go.tera");
    reveal_strlit("internal/auth/oauth2_test.go");
    reveal_strlit("internal/auth/oauth2_test.go.tera");
    reveal_strlit("internal/auth/pat_test.go");
    reveal_strlit("internal/auth/pat_test.go.tera");
    reveal_strlit("internal/cli/roles.go");
    reveal_strlit("internal/cli/setup.go");
    reveal_strlit("internal/core/cache_test.go");
    reveal_strlit("internal/core/healthcheck_test.go");
    reveal_strlit("internal/services/embedding_integration_test.go");
    reveal_strlit("scripts/coverage.sh");
    reveal_strlit("scripts/profile.sh");
    assert(spec_test_template(AuthSchemeKind::Basic).0 =~= spec_test_template(AuthSchemeKind::Basic).1 + ".tera"@);
    assert(spec_test_template(AuthSchemeKind::ApiKey).0 =~= spec_test_template(AuthSchemeKind::ApiKey).1 + ".tera"@);
    assert(spec_test_template(AuthSchemeKind::BearerPat).0 =~= spec_test_template(AuthSchemeKind::BearerPat).1 + ".tera"@);
    assert(spec_test_template(AuthSchemeKind::OAuth2).0 =~= spec_test_template(AuthSchemeKind::OAuth2).1 + ".tera"@);
    assert(spec_test_template(AuthSchemeKind::OAuth1).0 =~= spec_test_template(AuthSchemeKind::OAuth1).1 + ".tera"@);
    assert(files()[0].1.len() != spec_test_template(AuthSchemeKind::Basic).1.len());
    assert(files()[1].1.len() != spec_test_template(AuthSchemeKind::Basic).1.len());
    assert(files()[2].1[9] != spec_test_template(AuthSchemeKind::Basic).1[9]);
    assert(files()[3].1.len() != spec_test_template(AuthSchemeKind::Basic).1.len());
    assert(files()[4].1.len() != spec_test_template(AuthSchemeKind::Basic).1.len());
    assert(files()[5].1.len() != spec_test_template(AuthSchemeKind::Basic).1.len());
    assert(files()[6].1.len() != spec_test_template(AuthSchemeKind::Basic).1.len());
    assert(files()[0].1.len() != spec_test_template(AuthSchemeKind::ApiKey).1.len());
    assert(files()[1].1.len() != spec_test_template(AuthSchemeKind::ApiKey).1.len());
    assert(files()[2].1.len() != spec_test_template(AuthSchemeKind::ApiKey).1.len());
    assert(files()[3].1.len() != spec_test_template(AuthSchemeKind::ApiKey).1.len());
    assert(files()[4].1.len() != spec_test_template(AuthSchemeKind::ApiKey).1.len());
    assert(files()[5].1.len() != spec_test_template(AuthSchemeKind::ApiKey).1.len());
    assert(files()[6].1.len() != spec_test_template(AuthSchemeKind::ApiKey).1.len());
    assert(files()[0].1.len() != spec_test_template(AuthSchemeKind::BearerPat).1.len());
    assert(files()[1].1.len() != spec_test_template(AuthSchemeKind::BearerPat).1.len());
    assert(files()[2].1.len() != spec_test_template(AuthSchemeKind::BearerPat).1.len());
    assert(files()[3].1.len() != spec_test_template(AuthSchemeKind::BearerPat).1.len());
    assert(files()[4].1.len() != spec_test_template(AuthSchemeKind::BearerPat).1.len());
    assert(files()[5].1.len() != spec_test_template(AuthSchemeKind::BearerPat).1.len());
    assert(files()[6].1.len() != spec_test_template(AuthSchemeKind::BearerPat).1.len());
    assert(files()[0].1.len() != spec_test_template(AuthSchemeKind::OAuth2).1.len());
    assert(files()[1].1.len() != spec_test_template(AuthSchemeKind::OAuth2).1.len());
    assert(files()[2].1.len() != spec_test_template(AuthSchemeKind::OAuth2).1.len());
    assert(files()[3].1.len() != spec_test_template(AuthSchemeKind::OAuth2).1.len());
    assert(files()[4].1.len() != spec_test_template(AuthSchemeKind::OAuth2).1.len());
    assert(files()[5].1.len() != spec_test_template(AuthSchemeKind::OAuth2).1.len());
    assert(files()[6].1.len() != spec_test_template(AuthSchemeKind::OAuth2).1.len());
    assert(files()[0].1.len() != spec_test_template(AuthSchemeKind::OAuth1).1.len());
    assert(files()[1].1.len() != spec_test_template(AuthSchemeKind::OAuth1).1.len());
    assert(files()[2].1.len() != spec_test_template(AuthSchemeKind::OAuth1).1.len());
    assert(files()[3].1.len() != spec_test_template(AuthSchemeKind::OAuth1).1.len());
    assert(files()[4].1.len() != spec_test_template(AuthSchemeKind::OAuth1).1.len());
    assert(files()[5].1.len() != spec_test_template(AuthSchemeKind::OAuth1).1.len());
    assert(files()[6].1.len() != spec_test_template(AuthSchemeKind::OAuth1).1.len());
    assert forall|k: AuthSchemeKind, i: int| 0 <= i < files().len() implies #[trigger] files()[i].1
        != #[trigger] spec_test_template(k).1 by {
        assert(files().len() == 7);
    }
}

/// Different kinds have different files.
pub proof fn lemma_test_template_outputs_distinct()
    ensures
        outputs_distinct(test_template_table()),
{
    reveal_strlit("internal/auth/basic_test.go");
    reveal_strlit("internal/auth/apikey_test.go");
    reveal_strlit("internal/auth/pat_test.go");
    reveal_strlit("internal/auth/oauth2_test.go");
    reveal_strlit("internal/auth/oauth1_test.go");
    assert(spec_test_template(AuthSchemeKind::Basic).1.len() != spec_test_template(AuthSchemeKind::ApiKey).1.len());
    assert(spec_test_template(AuthSchemeKind::Basic).1.len() != spec_test_template(AuthSchemeKind::BearerPat).1.len());
    assert(spec_test_template(AuthSchemeKind::Basic).1.len() != spec_test_template(AuthSchemeKind::OAuth2).1.len());
    assert(spec_test_template(AuthSchemeKind::Basic).1.len() != spec_test_template(AuthSchemeKind::OAuth1).1.len());
    assert(spec_test_template(AuthSchemeKind::ApiKey).1.len() != spec_test_template(AuthSchemeKind::BearerPat).1.len());
    assert(spec_test_template(AuthSchemeKind::ApiKey).1[14] != spec_test_template(AuthSchemeKind::OAuth2).1[14]);
    assert(spec_test_template(AuthSchemeKind::ApiKey).1[14] != spec_test_template(AuthSchemeKind::OAuth1).1[14]);
    assert(spec_test_template(AuthSchemeKind::BearerPat).1.len() != spec_test_template(AuthSchemeKind::OAuth2).1.len());
    assert(spec_test_template(AuthSchemeKind::BearerPat).1.len() != spec_test_template(AuthSchemeKind::OAuth1).1.len());
    assert(spec_test_template(AuthSchemeKind::OAuth2).1[19] != spec_test_template(AuthSchemeKind::OAuth1).1[19]);
    assert forall|a: AuthSchemeKind, b: AuthSchemeKind| #![trigger test_template_table()(a), test_template_table()(b)] a != b implies test_template_table()(a).1 != test_template_table()(b).1 by {
        assert(test_template_table()(a) == spec_test_template(a));
        assert(test_template_table()(b) == spec_test_template(b));
    }
}

/// The step renders the auth test of kind `k` exactly when some discovered scheme has kind `k`, and no test twice.
pub proof fn law_one_auth_test_per_discovered_kind(schemes: Seq<AuthSchemeDescriptor>, k: AuthSchemeKind)
    ensures
        root_kind_renders(first_occurrences(scheme_kinds(schemes)), test_template_table()).contains(ActionView::Render { template: spec_test_template(k).0, out_path: spec_test_template(k).1 }) <==> scheme_kinds(schemes).contains(k),
        forall|i: int, j: int|
            0 <= i < j < first_occurrences(scheme_kinds(schemes)).len() ==> root_kind_renders(first_occurrences(scheme_kinds(schemes)), test_template_table())[i] != root_kind_renders(first_occurrences(scheme_kinds(schemes)), test_template_table())[j],
{
    lemma_test_template_outputs_distinct();
    law_one_root_render_per_discovered_kind(schemes, test_template_table(), k);
}

/// Emitted whatever schemes were discovered.
pub open spec fn files() -> Seq<(Seq<char>, Seq<char>)> {
    seq![
        ("internal/cli/roles.go.tera"@, "internal/cli/roles.go"@),
        ("internal/cli/setup.go.tera"@, "internal/cli/setup.go"@),
        ("internal/core/cache_test.go.tera"@, "internal/core/cache_test.go"@),
        ("internal/core/healthcheck_test.go.tera"@, "internal/core/healthcheck_test.go"@),
        ("internal/services/embedding_integration_test.go.tera"@, "internal/services/embedding_integration_test.go"@),
        ("scripts/coverage.sh.tera"@, "scripts/coverage.sh"@),
        ("scripts/profile.sh.tera"@, "scripts/profile.sh"@),
    ]
}

/// Every setup and shared test file, then one auth test per distinct kind, in discovery order.
pub open spec fn setup_and_tests_plan(schemes: Seq<AuthSchemeDescriptor>) -> Seq<ActionView> {
    root_renders(files())
        + root_kind_renders(first_occurrences(scheme_kinds(schemes)), test_template_table())
}

/// The setup-and-tests step.
pub fn generate_setup_wizard_and_tests(ctx: &GeneratorContext) -> (r: Vec<Action>)
    ensures
        action_views(r@) == setup_and_tests_plan(ctx.auth_schemes@),
{
    let mut acts: Vec<Action> = Vec::new();
    let ghost start = action_views(acts@);
    push_root_render(&mut acts, "internal/cli/roles.go.tera", "internal/cli/roles.go");
    push_root_render(&mut acts, "internal/cli/setup.go.tera", "internal/cli/setup.go");
    push_root_render(&mut acts, "internal/core/cache_test.go.tera", "internal/core/cache_test.go");
    push_root_render(&mut acts, "internal/core/healthcheck_test.go.tera", "internal/core/healthcheck_test.go");
    push_root_render(&mut acts, "internal/services/embedding_integration_test.go.tera", "internal/services/embedding_integration_test.go");
    push_root_render(&mut acts, "scripts/coverage.sh.tera", "scripts/coverage.sh");
    push_root_render(&mut acts, "scripts/profile.sh.tera", "scripts/profile.sh");
    assert(action_views(acts@) =~= start + root_renders(files()));
    let ghost after0 = action_views(acts@);
    let kinds = distinct_kinds(&ctx.auth_schemes);
    let ghost before_kinds = action_views(acts@);
    let mut i: usize = 0;
    while i < kinds.len()
        invariant
            i <= kinds.len(),
            action_views(acts@) == before_kinds + root_kind_renders(kinds@.take(i as int), test_template_table()),
        decreases kinds.len() - i,
    {
        let (template, out) = test_template(kinds[i]);
        push_root_render(&mut acts, template, out);
        assert(root_kind_renders(kinds@.take(i + 1), test_template_table()) =~= root_kind_renders(kinds@.take(i as int), test_template_table()).push(action_views(acts@).last()));
        i = i + 1;
    }
    assert(kinds@.take(kinds.len() as int) =~= kinds@);
    assert(action_views(acts@) =~= setup_and_tests_plan(ctx.auth_schemes@));
    acts
}


/// Each kind's test file is named after its `auth_method` value (`apikey` for API keys), so a test only ever exercises its own kind's strategy.
pub proof fn law_auth_test_file_per_kind()
    ensures
        forall|k: AuthSchemeKind| #[trigger] spec_test_template(k).1 == "internal/auth/"@ + (if k == AuthSchemeKind::ApiKey { "apikey"@ } else { spec_method_key(k) }) + "_test.go"@,
{
    law_method_keys_and_idents();
    reveal_strlit("_test.go");
    reveal_strlit("apikey");
    reveal_strlit("basic");
    reveal_strlit("internal/auth/");
    reveal_strlit("internal/auth/apikey_test.go");
    reveal_strlit("internal/auth/basic_test.go");
    reveal_strlit("internal/auth/oauth1_test.go");
    reveal_strlit("internal/auth/oauth2_test.go");
    reveal_strlit("internal/auth/pat_test.go");
    reveal_strlit("oauth1");
    reveal_strlit("oauth2");
    reveal_strlit("pat");
    assert(spec_test_template(AuthSchemeKind::Basic).1 =~= "internal/auth/"@ + "basic"@ + "_test.go"@);
    assert(spec_test_template(AuthSchemeKind::ApiKey).1 =~= "internal/auth/"@ + "apikey"@ + "_test.go"@);
    assert(spec_test_template(AuthSchemeKind::BearerPat).1 =~= "internal/auth/"@ + "pat"@ + "_test.go"@);
    assert(spec_test_template(AuthSchemeKind::OAuth2).1 =~= "internal/auth/"@ + "oauth2"@ + "_test.go"@);
    assert(spec_test_template(AuthSchemeKind::OAuth1).1 =~= "internal/auth/"@ + "oauth1"@ + "_test.go"@);
}


/// Each row of `files` renders the template of the same name: its output
/// is the template's path without `.tera`, under `src/` for sources.
pub proof fn law_files_outputs_match_templates()
    ensures
        forall|i: int|
            0 <= i < files().len() ==> {
                let t = #[trigger] files()[i].0;
                let o = files()[i].1;
                &&& t.len() >= 5
                &&& t.skip(t.len() - 5) == ".tera"@
                &&& (o == t.take(t.len() - 5) || o == "src/"@ + t.take(t.len() - 5))
            },
{
    reveal_strlit(".tera");
    reveal_strlit("internal/cli/roles.go");
    reveal_strlit("internal/cli/roles.go.tera");
    reveal_strlit("internal/cli/setup.go");
    reveal_strlit("internal/cli/setup.go.tera");
    reveal_strlit("internal/core/cache_test.go");
    reveal_strlit("internal/core/cache_test.go.tera");
    reveal_strlit("internal/core/healthcheck_test.go");
    reveal_strlit("internal/core/healthcheck_test.go.tera");
    reveal_strlit("internal/services/embedding_integration_test.go");
    reveal_strlit("internal/services/embedding_integration_test.go.tera");
    reveal_strlit("scripts/coverage.sh");
    reveal_strlit("scripts/coverage.sh.tera");
    reveal_strlit("scripts/profile.sh");
    reveal_strlit("scripts/profile.sh.tera");
    reveal_strlit("src/");
    assert(files()[0].0.skip(26 - 5) =~= ".tera"@);
    assert(files()[0].1 =~= files()[0].0.take(26 - 5));
    assert(files()[1].0.skip(26 - 5) =~= ".tera"@);
    assert(files()[1].1 =~= files()[1].0.take(26 - 5));
    assert(files()[2].0.skip(32 - 5) =~= ".tera"@);
    assert(files()[2].1 =~= files()[2].0.take(32 - 5));
    assert(files()[3].0.skip(38 - 5) =~= ".tera"@);
    assert(files()[3].1 =~= files()[3].0.take(38 - 5));
    assert(files()[4].0.skip(52 - 5) =~= ".tera"@);
    assert(files()[4].1 =~= files()[4].0.take(52 - 5));
    assert(files()[5].0.skip(24 - 5) =~= ".tera"@);
    assert(files()[5].1 =~= files()[5].0.take(24 - 5));
    assert(files()[6].0.skip(23 - 5) =~= ".tera"@);
    assert(files()[6].1 =~= files()[6].0.take(23 - 5));
    assert(files().len() == 7);
}

} // verus!
