//! Step six: the setup commands and the generated xUnit suite.

use crate::context::GeneratorContext;
use crate::plan::{Action, ActionView, action_views, law_one_root_render_per_discovered_kind, outputs_distinct, push_render, push_root_render, render_view, renders, root_kind_renders, root_renders};
use crate::auth_profile::AuthSchemeKind;
use crate::context::{distinct_kinds, first_occurrences, scheme_kinds};
use crate::auth_profile::AuthSchemeDescriptor;
use crate::auth_profile::{law_method_keys_and_idents, spec_method_ident, spec_method_key};
use vstd::prelude::*;
use vstd::string::*;

verus! {

/// The test file of a kind: only generated strategies get one.
pub open spec fn spec_auth_test_template(kind: AuthSchemeKind) -> (Seq<char>, Seq<char>) {
    match kind {
        AuthSchemeKind::Basic => ("Tests/Auth/BasicAuthStrategyTests.cs.tera"@, "Tests/Auth/BasicAuthStrategyTests.cs"@),
        AuthSchemeKind::ApiKey => ("Tests/Auth/ApiKeyAuthStrategyTests.cs.tera"@, "Tests/Auth/ApiKeyAuthStrategyTests.cs"@),
        AuthSchemeKind::BearerPat => ("Tests/Auth/PatAuthStrategyTests.cs.tera"@, "Tests/Auth/PatAuthStrategyTests.cs"@),
        AuthSchemeKind::OAuth2 => ("Tests/Auth/OAuth2AuthStrategyTests.cs.tera"@, "Tests/Auth/OAuth2AuthStrategyTests.cs"@),
        AuthSchemeKind::OAuth1 => ("Tests/Auth/OAuth1SignerTests.cs.tera"@, "Tests/Auth/OAuth1SignerTests.cs"@),
    }
}

pub open spec fn auth_test_template_table() -> spec_fn(AuthSchemeKind) -> (Seq<char>, Seq<char>) {
    |kind: AuthSchemeKind| spec_auth_test_template(kind)
}

pub fn auth_test_template(kind: AuthSchemeKind) -> (r: (&'static str, &'static str))
    ensures
        (r.0@, r.1@) == spec_auth_test_template(kind),
{
    match kind {
        AuthSchemeKind::Basic => ("Tests/Auth/BasicAuthStrategyTests.cs.tera", "Tests/Auth/BasicAuthStrategyTests.cs"),
        AuthSchemeKind::ApiKey => ("Tests/Auth/ApiKeyAuthStrategyTests.cs.tera", "Tests/Auth/ApiKeyAuthStrategyTests.cs"),
        AuthSchemeKind::BearerPat => ("Tests/Auth/PatAuthStrategyTests.cs.tera", "Tests/Auth/PatAuthStrategyTests.cs"),
        AuthSchemeKind::OAuth2 => ("Tests/Auth/OAuth2AuthStrategyTests.cs.tera", "Tests/Auth/OAuth2AuthStrategyTests.cs"),
        AuthSchemeKind::OAuth1 => ("Tests/Auth/OAuth1SignerTests.cs.tera", "Tests/Auth/OAuth1SignerTests.cs"),
    }
}

/// Each kind's template is its output path with `.tera` appended, and no kind's file is one of the
/// `shared_test_files`.
pub proof fn lemma_auth_test_template_table_shape()
    ensures
        forall|k: AuthSchemeKind| #[trigger] spec_auth_test_template(k).0 == spec_auth_test_template(k).1 + ".tera"@,
        forall|k: AuthSchemeKind, i: int|
            0 <= i < shared_test_files().len() ==> #[trigger] shared_test_files()[i].1 != #[trigger] spec_auth_test_template(k).1,
{
    reveal_strlit(".tera");
    reveal_strlit("Tests/Auth/ApiKeyAuthStrategyTests.cs");
    reveal_strlit("Tests/Auth/ApiKeyAuthStrategyTests.cs.tera");
    reveal_strlit("Tests/Auth/BasicAuthStrategyTests.cs");
    reveal_strlit("Tests/Auth/BasicAuthStrategyTests.cs.tera");
    reveal_strlit("Tests/Auth/OAuth1SignerTests.cs");
    reveal_strlit("Tests/Auth/OAuth1SignerTests.cs.tera");
    reveal_strlit("Tests/Auth/OAuth2AuthStrategyTests.cs");
    reveal_strlit("Tests/Auth/OAuth2AuthStrategyTests.cs.tera");
    reveal_strlit("Tests/Auth/PatAuthStrategyTests.cs");
    reveal_strlit("Tests/Auth/PatAuthStrategyTests.cs.tera");
    reveal_strlit("Tests/Auth/StubAuthStrategyTests.cs");
    reveal_strlit("Tests/Core/ConfigTests.cs");
    reveal_strlit("Tests/Data/SqliteVecStoreTests.cs");
    reveal_strlit("Tests/Validation/ValidatorTests.cs");
    reveal_strlit("Tools/Profiler/Profiler.csproj");
    reveal_strlit("Tools/Profiler/Program.cs");
    reveal_strlit("scripts/coverage.sh");
    reveal_strlit("scripts/profile.sh");
    reveal_strlit("scripts/speedscope_to_text.py");
    assert(spec_auth_test_template(AuthSchemeKind::Basic).0 =~= spec_auth_test_template(AuthSchemeKind::Basic).1 + ".tera"@);
    assert(spec_auth_test_template(AuthSchemeKind::ApiKey).0 =~= spec_auth_test_template(AuthSchemeKind::ApiKey).1 + ".tera"@);
    assert(spec_auth_test_template(AuthSchemeKind::BearerPat).0 =~= spec_auth_test_template(AuthSchemeKind::BearerPat).1 + ".tera"@);
    assert(spec_auth_test_template(AuthSchemeKind::OAuth2).0 =~= spec_auth_test_template(AuthSchemeKind::OAuth2).1 + ".tera"@);
    assert(spec_auth_test_template(AuthSchemeKind::OAuth1).0 =~= spec_auth_test_template(AuthSchemeKind::OAuth1).1 + ".tera"@);
    assert(shared_test_files()[0].1.len() != spec_auth_test_template(AuthSchemeKind::Basic).1.len());
    assert(shared_test_files()[1].1.len() != spec_auth_test_template(AuthSchemeKind::Basic).1.len());
    assert(shared_test_files()[2].1.len() != spec_auth_test_template(AuthSchemeKind::Basic).1.len());
    assert(shared_test_files()[3].1.len() != spec_auth_test_template(AuthSchemeKind::Basic).1.len());
    assert(shared_test_files()[4].1.len() != spec_auth_test_template(AuthSchemeKind::Basic).1.len());
    assert(shared_test_files()[5].1.len() != spec_auth_test_template(AuthSchemeKind::Basic).1.len());
    assert(shared_test_files()[6].1.len() != spec_auth_test_template(AuthSchemeKind::Basic).1.len());
    assert(shared_test_files()[7].1.len() != spec_auth_test_template(AuthSchemeKind::Basic).1.len());
    assert(shared_test_files()[8].1.len() != spec_auth_test_template(AuthSchemeKind::Basic).1.len());
    assert(shared_test_files()[0].1.len() != spec_auth_test_template(AuthSchemeKind::ApiKey).1.len());
    assert(shared_test_files()[1].1.len() != spec_auth_test_template(AuthSchemeKind::ApiKey).1.len());
    assert(shared_test_files()[2].1.len() != spec_auth_test_template(AuthSchemeKind::ApiKey).1.len());
    assert(shared_test_files()[3].1.len() != spec_auth_test_template(AuthSchemeKind::ApiKey).1.len());
    assert(shared_test_files()[4].1.len() != spec_auth_test_template(AuthSchemeKind::ApiKey).1.len());
    assert(shared_test_files()[5].1.len() != spec_auth_test_template(AuthSchemeKind::ApiKey).1.len());
    assert(shared_test_files()[6].1.len() != spec_auth_test_template(AuthSchemeKind::ApiKey).1.len());
    assert(shared_test_files()[7].1.len() != spec_auth_test_template(AuthSchemeKind::ApiKey).1.len());
    assert(shared_test_files()[8].1.len() != spec_auth_test_template(AuthSchemeKind::ApiKey).1.len());
    assert(shared_test_files()[0].1.len() != spec_auth_test_template(AuthSchemeKind::BearerPat).1.len());
    assert(shared_test_files()[1].1.len() != spec_auth_test_template(AuthSchemeKind::BearerPat).1.len());
    assert(shared_test_files()[2].1.len() != spec_auth_test_template(AuthSchemeKind::BearerPat).1.len());
    assert(shared_test_files()[3].1[6] != spec_auth_test_template(AuthSchemeKind::BearerPat).1[6]);
    assert(shared_test_files()[4].1.len() != spec_auth_test_template(AuthSchemeKind::BearerPat).1.len());
    assert(shared_test_files()[5].1.len() != spec_auth_test_template(AuthSchemeKind::BearerPat).1.len());
    assert(shared_test_files()[6].1.len() != spec_auth_test_template(AuthSchemeKind::BearerPat).1.len());
    assert(shared_test_files()[7].1.len() != spec_auth_test_template(AuthSchemeKind::BearerPat).1.len());
    assert(shared_test_files()[8].1.len() != spec_auth_test_template(AuthSchemeKind::BearerPat).1.len());
    assert(shared_test_files()[0].1.len() != spec_auth_test_template(AuthSchemeKind::OAuth2).1.len());
    assert(shared_test_files()[1].1.len() != spec_auth_test_template(AuthSchemeKind::OAuth2).1.len());
    assert(shared_test_files()[2].1.len() != spec_auth_test_template(AuthSchemeKind::OAuth2).1.len());
    assert(shared_test_files()[3].1.len() != spec_auth_test_template(AuthSchemeKind::OAuth2).1.len());
    assert(shared_test_files()[4].1.len() != spec_auth_test_template(AuthSchemeKind::OAuth2).1.len());
    assert(shared_test_files()[5].1.len() != spec_auth_test_template(AuthSchemeKind::OAuth2).1.len());
    assert(shared_test_files()[6].1.len() != spec_auth_test_template(AuthSchemeKind::OAuth2).1.len());
    assert(shared_test_files()[7].1.len() != spec_auth_test_template(AuthSchemeKind::OAuth2).1.len());
    assert(shared_test_files()[8].1.len() != spec_auth_test_template(AuthSchemeKind::OAuth2).1.len());
    assert(shared_test_files()[0].1.len() != spec_auth_test_template(AuthSchemeKind::OAuth1).1.len());
    assert(shared_test_files()[1].1.len() != spec_auth_test_template(AuthSchemeKind::OAuth1).1.len());
    assert(shared_test_files()[2].1.len() != spec_auth_test_template(AuthSchemeKind::OAuth1).1.len());
    assert(shared_test_files()[3].1.len() != spec_auth_test_template(AuthSchemeKind::OAuth1).1.len());
    assert(shared_test_files()[4].1.len() != spec_auth_test_template(AuthSchemeKind::OAuth1).1.len());
    assert(shared_test_files()[5].1.len() != spec_auth_test_template(AuthSchemeKind::OAuth1).1.len());
    assert(shared_test_files()[6].1.len() != spec_auth_test_template(AuthSchemeKind::OAuth1).1.len());
    assert(shared_test_files()[7].1.len() != spec_auth_test_template(AuthSchemeKind::OAuth1).1.len());
    assert(shared_test_files()[8].1.len() != spec_auth_test_template(AuthSchemeKind::OAuth1).1.len());
    assert forall|k: AuthSchemeKind, i: int| 0 <= i < shared_test_files().len() implies #[trigger] shared_test_files()[i].1
        != #[trigger] spec_auth_test_template(k).1 by {
        assert(shared_test_files().len() == 9);
    }
}

/// Different kinds have different files.
pub proof fn lemma_auth_test_template_outputs_distinct()
    ensures
        outputs_distinct(auth_test_template_table()),
{
    reveal_strlit("Tests/Auth/BasicAuthStrategyTests.cs");
    reveal_strlit("Tests/Auth/ApiKeyAuthStrategyTests.cs");
    reveal_strlit("Tests/Auth/PatAuthStrategyTests.cs");
    reveal_strlit("Tests/Auth/OAuth2AuthStrategyTests.cs");
    reveal_strlit("Tests/Auth/OAuth1SignerTests.cs");
    assert(spec_auth_test_template(AuthSchemeKind::Basic).1.len() != spec_auth_test_template(AuthSchemeKind::ApiKey).1.len());
    assert(spec_auth_test_template(AuthSchemeKind::Basic).1.len() != spec_auth_test_template(AuthSchemeKind::BearerPat).1.len());
    assert(spec_auth_test_template(AuthSchemeKind::Basic).1.len() != spec_auth_test_template(AuthSchemeKind::OAuth2).1.len());
    assert(spec_auth_test_template(AuthSchemeKind::Basic).1.len() != spec_auth_test_template(AuthSchemeKind::OAuth1).1.len());
    assert(spec_auth_test_template(AuthSchemeKind::ApiKey).1.len() != spec_auth_test_template(AuthSchemeKind::BearerPat).1.len());
    assert(spec_auth_test_template(AuthSchemeKind::ApiKey).1[11] != spec_auth_test_template(AuthSchemeKind::OAuth2).1[11]);
    assert(spec_auth_test_template(AuthSchemeKind::ApiKey).1.len() != spec_auth_test_template(AuthSchemeKind::OAuth1).1.len());
    assert(spec_auth_test_template(AuthSchemeKind::BearerPat).1.len() != spec_auth_test_template(AuthSchemeKind::OAuth2).1.len());
    assert(spec_auth_test_template(AuthSchemeKind::BearerPat).1.len() != spec_auth_test_template(AuthSchemeKind::OAuth1).1.len());
    assert(spec_auth_test_template(AuthSchemeKind::OAuth2).1.len() != spec_auth_test_template(AuthSchemeKind::OAuth1).1.len());
    assert forall|a: AuthSchemeKind, b: AuthSchemeKind| #![trigger auth_test_template_table()(a), auth_test_template_table()(b)] a != b implies auth_test_template_table()(a).1 != auth_test_template_table()(b).1 by {
        assert(auth_test_template_table()(a) == spec_auth_test_template(a));
        assert(auth_test_template_table()(b) == spec_auth_test_template(b));
    }
}

/// The step renders the auth test of kind `k` exactly when some discovered scheme has kind `k`, and no test twice.
pub proof fn law_one_auth_test_per_discovered_kind(schemes: Seq<AuthSchemeDescriptor>, k: AuthSchemeKind)
    ensures
        root_kind_renders(first_occurrences(scheme_kinds(schemes)), auth_test_template_table()).contains(ActionView::Render { template: spec_auth_test_template(k).0, out_path: spec_auth_test_template(k).1 }) <==> scheme_kinds(schemes).contains(k),
        forall|i: int, j: int|
            0 <= i < j < first_occurrences(scheme_kinds(schemes)).len() ==> root_kind_renders(first_occurrences(scheme_kinds(schemes)), auth_test_template_table())[i] != root_kind_renders(first_occurrences(scheme_kinds(schemes)), auth_test_template_table())[j],
{
    lemma_auth_test_template_outputs_distinct();
    law_one_root_render_per_discovered_kind(schemes, auth_test_template_table(), k);
}

/// An auth test is generated for kind `k` exactly when the auth step
/// generates the strategy of `k`.
pub proof fn law_auth_tests_match_strategies(schemes: Seq<AuthSchemeDescriptor>, k: AuthSchemeKind)
    ensures
        root_kind_renders(first_occurrences(scheme_kinds(schemes)), auth_test_template_table()).contains(ActionView::Render { template: spec_auth_test_template(k).0, out_path: spec_auth_test_template(k).1 }) <==> root_kind_renders(first_occurrences(scheme_kinds(schemes)), crate::targets::csharp::steps::auth::strategy_template_table()).contains(ActionView::Render { template: crate::targets::csharp::steps::auth::spec_strategy_template(k).0, out_path: crate::targets::csharp::steps::auth::spec_strategy_template(k).1 }),
{
    law_one_auth_test_per_discovered_kind(schemes, k);
    crate::targets::csharp::steps::auth::law_one_strategy_per_discovered_kind(schemes, k);
}

/// Rendered into the main project tree.
pub open spec fn package_files() -> Seq<(Seq<char>, Seq<char>)> {
    seq![
        ("Cli/SetupWizard.cs.tera"@, "Cli/SetupWizard.cs"@),
    ]
}

/// Written by earlier steps and rendered again from their one template.
pub open spec fn rerendered_files() -> Seq<(Seq<char>, Seq<char>)> {
    seq![
        ("Program.cs.tera"@, "Program.cs"@),
        ("Cli/Roles.cs.tera"@, "Cli/Roles.cs"@),
    ]
}

/// Emitted whatever schemes were discovered.
pub open spec fn shared_test_files() -> Seq<(Seq<char>, Seq<char>)> {
    seq![
        ("Tests/Auth/StubAuthStrategyTests.cs.tera"@, "Tests/Auth/StubAuthStrategyTests.cs"@),
        ("Tests/Core/ConfigTests.cs.tera"@, "Tests/Core/ConfigTests.cs"@),
        ("Tests/Data/SqliteVecStoreTests.cs.tera"@, "Tests/Data/SqliteVecStoreTests.cs"@),
        ("Tests/Validation/ValidatorTests.cs.tera"@, "Tests/Validation/ValidatorTests.cs"@),
        ("scripts/coverage.sh.tera"@, "scripts/coverage.sh"@),
        ("scripts/profile.sh.tera"@, "scripts/profile.sh"@),
        ("scripts/speedscope_to_text.py.tera"@, "scripts/speedscope_to_text.py"@),
        ("Tools/Profiler/Profiler.csproj.tera"@, "Tools/Profiler/Profiler.csproj"@),
        ("Tools/Profiler/Program.cs.tera"@, "Tools/Profiler/Program.cs"@),
    ]
}

/// The wizard, the re-rendered entry files, both manifests, the shared tests, then one auth test per distinct kind, in discovery order.
pub open spec fn setup_and_tests_plan(namespace: Seq<char>, schemes: Seq<AuthSchemeDescriptor>) -> Seq<ActionView> {
    root_renders(package_files())
        + root_renders(rerendered_files())
        + seq![render_view(namespace, "Project.csproj.tera"@, ".csproj"@)]
        + seq![render_view("Tests/"@ + namespace, "Tests/Project.Tests.csproj.tera"@, ".Tests.csproj"@)]
        + root_renders(shared_test_files())
        + root_kind_renders(first_occurrences(scheme_kinds(schemes)), auth_test_template_table())
}

/// The setup-and-tests step; `namespace` names both project manifests.
pub fn generate_setup_wizard_and_tests(ctx: &GeneratorContext, namespace: &str) -> (r: Vec<Action>)
    ensures
        action_views(r@) == setup_and_tests_plan(namespace@, ctx.auth_schemes@),
{
    let mut tests_prefix = String::from_str("Tests/");
    tests_prefix.append(namespace);
    let mut acts: Vec<Action> = Vec::new();
    let ghost start = action_views(acts@);
    push_root_render(&mut acts, "Cli/SetupWizard.cs.tera", "Cli/SetupWizard.cs");
    assert(action_views(acts@) =~= start + root_renders(package_files()));
    let ghost after0 = action_views(acts@);
    push_root_render(&mut acts, "Program.cs.tera", "Program.cs");
    push_root_render(&mut acts, "Cli/Roles.cs.tera", "Cli/Roles.cs");
    assert(action_views(acts@) =~= after0 + root_renders(rerendered_files()));
    let ghost after1 = action_views(acts@);
    push_render(&mut acts, namespace, "Project.csproj.tera", ".csproj");
    assert(action_views(acts@) =~= after1 + seq![render_view(namespace@, "Project.csproj.tera"@, ".csproj"@)]);
    let ghost after2 = action_views(acts@);
    push_render(&mut acts, tests_prefix.as_str(), "Tests/Project.Tests.csproj.tera", ".Tests.csproj");
    assert(action_views(acts@) =~= after2 + seq![render_view("Tests/"@ + namespace@, "Tests/Project.Tests.csproj.tera"@, ".Tests.csproj"@)]);
    let ghost after3 = action_views(acts@);
    push_root_render(&mut acts, "Tests/Auth/StubAuthStrategyTests.cs.tera", "Tests/Auth/StubAuthStrategyTests.cs");
    push_root_render(&mut acts, "Tests/Core/ConfigTests.cs.tera", "Tests/Core/ConfigTests.cs");
    push_root_render(&mut acts, "Tests/Data/SqliteVecStoreTests.cs.tera", "Tests/Data/SqliteVecStoreTests.cs");
    push_root_render(&mut acts, "Tests/Validation/ValidatorTests.cs.tera", "Tests/Validation/ValidatorTests.cs");
    push_root_render(&mut acts, "scripts/coverage.sh.tera", "scripts/coverage.sh");
    push_root_render(&mut acts, "scripts/profile.sh.tera", "scripts/profile.sh");
    push_root_render(&mut acts, "scripts/speedscope_to_text.py.tera", "scripts/speedscope_to_text.py");
    push_root_render(&mut acts, "Tools/Profiler/Profiler.csproj.tera", "Tools/Profiler/Profiler.csproj");
    push_root_render(&mut acts, "Tools/Profiler/Program.cs.tera", "Tools/Profiler/Program.cs");
    assert(action_views(acts@) =~= after3 + root_renders(shared_test_files()));
    let ghost after4 = action_views(acts@);
    let kinds = distinct_kinds(&ctx.auth_schemes);
    let ghost before_kinds = action_views(acts@);
    let mut i: usize = 0;
    while i < kinds.len()
        invariant
            i <= kinds.len(),
            tests_prefix@ == "Tests/"@ + namespace@,
            action_views(acts@) == before_kinds + root_kind_renders(kinds@.take(i as int), auth_test_template_table()),
        decreases kinds.len() - i,
    {
        let (template, out) = auth_test_template(kinds[i]);
        push_root_render(&mut acts, template, out);
        assert(root_kind_renders(kinds@.take(i + 1), auth_test_template_table()) =~= root_kind_renders(kinds@.take(i as int), auth_test_template_table()).push(action_views(acts@).last()));
        i = i + 1;
    }
    assert(kinds@.take(kinds.len() as int) =~= kinds@);
    assert(action_views(acts@) =~= setup_and_tests_plan(namespace@, ctx.auth_schemes@));
    acts
}


/// Each kind's test file is named after the kind's identifier (the OAuth1 one tests its request signer), so a test only ever exercises its own kind's strategy.
pub proof fn law_auth_test_file_per_kind()
    ensures
        forall|k: AuthSchemeKind| #[trigger] spec_auth_test_template(k).1 == "Tests/Auth/"@ + spec_method_ident(k) + (if k == AuthSchemeKind::OAuth1 { "SignerTests.cs"@ } else { "AuthStrategyTests.cs"@ }),
{
    law_method_keys_and_idents();
    reveal_strlit("ApiKey");
    reveal_strlit("AuthStrategyTests.cs");
    reveal_strlit("Basic");
    reveal_strlit("OAuth1");
    reveal_strlit("OAuth2");
    reveal_strlit("Pat");
    reveal_strlit("SignerTests.cs");
    reveal_strlit("Tests/Auth/");
    reveal_strlit("Tests/Auth/ApiKeyAuthStrategyTests.cs");
    reveal_strlit("Tests/Auth/BasicAuthStrategyTests.cs");
    reveal_strlit("Tests/Auth/OAuth1SignerTests.cs");
    reveal_strlit("Tests/Auth/OAuth2AuthStrategyTests.cs");
    reveal_strlit("Tests/Auth/PatAuthStrategyTests.cs");
    assert(spec_auth_test_template(AuthSchemeKind::Basic).1 =~= "Tests/Auth/"@ + "Basic"@ + "AuthStrategyTests.cs"@);
    assert(spec_auth_test_template(AuthSchemeKind::ApiKey).1 =~= "Tests/Auth/"@ + "ApiKey"@ + "AuthStrategyTests.cs"@);
    assert(spec_auth_test_template(AuthSchemeKind::BearerPat).1 =~= "Tests/Auth/"@ + "Pat"@ + "AuthStrategyTests.cs"@);
    assert(spec_auth_test_template(AuthSchemeKind::OAuth2).1 =~= "Tests/Auth/"@ + "OAuth2"@ + "AuthStrategyTests.cs"@);
    assert(spec_auth_test_template(AuthSchemeKind::OAuth1).1 =~= "Tests/Auth/"@ + "OAuth1"@ + "SignerTests.cs"@);
}


/// Each row of `package_files` renders the template of the same name: its output
/// is the template's path without `.tera`, under `src/` for sources.
pub proof fn law_package_files_outputs_match_templates()
    ensures
        forall|i: int|
            0 <= i < package_files().len() ==> {
                let t = #[trigger] package_files()[i].0;
                let o = package_files()[i].1;
                &&& t.len() >= 5
                &&& t.skip(t.len() - 5) == ".tera"@
                &&& (o == t.take(t.len() - 5) || o == "src/"@ + t.take(t.len() - 5))
            },
{
    reveal_strlit(".tera");
    reveal_strlit("Cli/SetupWizard.cs");
    reveal_strlit("Cli/SetupWizard.cs.tera");
    reveal_strlit("src/");
    assert(package_files()[0].0.skip(23 - 5) =~= ".tera"@);
    assert(package_files()[0].1 =~= package_files()[0].0.take(23 - 5));
    assert(package_files().len() == 1);
}

/// Each row of `rerendered_files` renders the template of the same name: its output
/// is the template's path without `.tera`, under `src/` for sources.
pub proof fn law_rerendered_files_outputs_match_templates()
    ensures
        forall|i: int|
            0 <= i < rerendered_files().len() ==> {
                let t = #[trigger] rerendered_files()[i].0;
                let o = rerendered_files()[i].1;
                &&& t.len() >= 5
                &&& t.skip(t.len() - 5) == ".tera"@
                &&& (o == t.take(t.len() - 5) || o == "src/"@ + t.take(t.len() - 5))
            },
{
    reveal_strlit(".tera");
    reveal_strlit("Cli/Roles.cs");
    reveal_strlit("Cli/Roles.cs.tera");
    reveal_strlit("Program.cs");
    reveal_strlit("Program.cs.tera");
    reveal_strlit("src/");
    assert(rerendered_files()[0].0.skip(15 - 5) =~= ".tera"@);
    assert(rerendered_files()[0].1 =~= rerendered_files()[0].0.take(15 - 5));
    assert(rerendered_files()[1].0.skip(17 - 5) =~= ".tera"@);
    assert(rerendered_files()[1].1 =~= rerendered_files()[1].0.take(17 - 5));
    assert(rerendered_files().len() == 2);
}

/// Each row of `shared_test_files` renders the template of the same name: its output
/// is the template's path without `.tera`, under `src/` for sources.
pub proof fn law_shared_test_files_outputs_match_templates()
    ensures
        forall|i: int|
            0 <= i < shared_test_files().len() ==> {
                let t = #[trigger] shared_test_files()[i].0;
                let o = shared_test_files()[i].1;
                &&& t.len() >= 5
                &&& t.skip(t.len() - 5) == ".tera"@
                &&& (o == t.take(t.len() - 5) || o == "src/"@ + t.take(t.len() - 5))
            },
{
    reveal_strlit(".tera");
    reveal_strlit("Tests/Auth/StubAuthStrategyTests.cs");
    reveal_strlit("Tests/Auth/StubAuthStrategyTests.cs.tera");
    reveal_strlit("Tests/Core/ConfigTests.cs");
    reveal_strlit("Tests/Core/ConfigTests.cs.tera");
    reveal_strlit("Tests/Data/SqliteVecStoreTests.cs");
    reveal_strlit("Tests/Data/SqliteVecStoreTests.cs.tera");
    reveal_strlit("Tests/Validation/ValidatorTests.cs");
    reveal_strlit("Tests/Validation/ValidatorTests.cs.tera");
    reveal_strlit("Tools/Profiler/Profiler.csproj");
    reveal_strlit("Tools/Profiler/Profiler.csproj.tera");
    reveal_strlit("Tools/Profiler/Program.cs");
    reveal_strlit("Tools/Profiler/Program.cs.tera");
    reveal_strlit("scripts/coverage.sh");
    reveal_strlit("scripts/coverage.sh.tera");
    reveal_strlit("scripts/profile.sh");
    reveal_strlit("scripts/profile.sh.tera");
    reveal_strlit("scripts/speedscope_to_text.py");
    reveal_strlit("scripts/speedscope_to_text.py.tera");
    reveal_strlit("src/");
    assert(shared_test_files()[0].0.skip(40 - 5) =~= ".tera"@);
    assert(shared_test_files()[0].1 =~= shared_test_files()[0].0.take(40 - 5));
    assert(shared_test_files()[1].0.skip(30 - 5) =~= ".tera"@);
    assert(shared_test_files()[1].1 =~= shared_test_files()[1].0.take(30 - 5));
    assert(shared_test_files()[2].0.skip(38 - 5) =~= ".tera"@);
    assert(shared_test_files()[2].1 =~= shared_test_files()[2].0.take(38 - 5));
    assert(shared_test_files()[3].0.skip(39 - 5) =~= ".tera"@);
    assert(shared_test_files()[3].1 =~= shared_test_files()[3].0.take(39 - 5));
    assert(shared_test_files()[4].0.skip(24 - 5) =~= ".tera"@);
    assert(shared_test_files()[4].1 =~= shared_test_files()[4].0.take(24 - 5));
    assert(shared_test_files()[5].0.skip(23 - 5) =~= ".tera"@);
    assert(shared_test_files()[5].1 =~= shared_test_files()[5].0.take(23 - 5));
    assert(shared_test_files()[6].0.skip(34 - 5) =~= ".tera"@);
    assert(shared_test_files()[6].1 =~= shared_test_files()[6].0.take(34 - 5));
    assert(shared_test_files()[7].0.skip(35 - 5) =~= ".tera"@);
    assert(shared_test_files()[7].1 =~= shared_test_files()[7].0.take(35 - 5));
    assert(shared_test_files()[8].0.skip(30 - 5) =~= ".tera"@);
    assert(shared_test_files()[8].1 =~= shared_test_files()[8].0.take(30 - 5));
    assert(shared_test_files().len() == 9);
}

} // verus!
