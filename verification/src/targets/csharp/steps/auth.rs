//! Step three: the auth strategies of the discovered scheme kinds.

use crate::context::GeneratorContext;
use crate::plan::{Action, ActionView, action_views, law_one_root_render_per_discovered_kind, outputs_distinct, push_root_render, renders, root_kind_renders, root_renders};
use crate::auth_profile::AuthSchemeKind;
use crate::context::{distinct_kinds, first_occurrences, scheme_kinds};
use crate::auth_profile::AuthSchemeDescriptor;
use crate::auth_profile::{law_method_keys_and_idents, spec_method_ident, spec_method_key};
use vstd::prelude::*;
use vstd::string::*;

verus! {

/// The strategy file of a kind; its content depends on the kind alone.
pub open spec fn spec_strategy_template(kind: AuthSchemeKind) -> (Seq<char>, Seq<char>) {
    match kind {
        AuthSchemeKind::Basic => ("Auth/Strategies/BasicAuthStrategy.cs.tera"@, "Auth/Strategies/BasicAuthStrategy.cs"@),
        AuthSchemeKind::ApiKey => ("Auth/Strategies/ApiKeyAuthStrategy.cs.tera"@, "Auth/Strategies/ApiKeyAuthStrategy.cs"@),
        AuthSchemeKind::BearerPat => ("Auth/Strategies/PatAuthStrategy.cs.tera"@, "Auth/Strategies/PatAuthStrategy.cs"@),
        AuthSchemeKind::OAuth2 => ("Auth/Strategies/OAuth2AuthStrategy.cs.tera"@, "Auth/Strategies/OAuth2AuthStrategy.cs"@),
        AuthSchemeKind::OAuth1 => ("Auth/Strategies/OAuth1AuthStrategy.cs.tera"@, "Auth/Strategies/OAuth1AuthStrategy.cs"@),
    }
}

pub open spec fn strategy_template_table() -> spec_fn(AuthSchemeKind) -> (Seq<char>, Seq<char>) {
    |kind: AuthSchemeKind| spec_strategy_template(kind)
}

pub fn strategy_template(kind: AuthSchemeKind) -> (r: (&'static str, &'static str))
    ensures
        (r.0@, r.1@) == spec_strategy_template(kind),
{
    match kind {
        AuthSchemeKind::Basic => ("Auth/Strategies/BasicAuthStrategy.cs.tera", "Auth/Strategies/BasicAuthStrategy.cs"),
        AuthSchemeKind::ApiKey => ("Auth/Strategies/ApiKeyAuthStrategy.cs.tera", "Auth/Strategies/ApiKeyAuthStrategy.cs"),
        AuthSchemeKind::BearerPat => ("Auth/Strategies/PatAuthStrategy.cs.tera", "Auth/Strategies/PatAuthStrategy.cs"),
        AuthSchemeKind::OAuth2 => ("Auth/Strategies/OAuth2AuthStrategy.cs.tera", "Auth/Strategies/OAuth2AuthStrategy.cs"),
        AuthSchemeKind::OAuth1 => ("Auth/Strategies/OAuth1AuthStrategy.cs.tera", "Auth/Strategies/OAuth1AuthStrategy.cs"),
    }
}

/// Each kind's template is its output path with `.tera` appended, and no kind's file is one of the
/// `shared_files`.
pub proof fn lemma_strategy_template_table_shape()
    ensures
        forall|k: AuthSchemeKind| #[trigger] spec_strategy_template(k).0 == spec_strategy_template(k).1 + ".tera"@,
        forall|k: AuthSchemeKind, i: int|
            0 <= i < shared_files().len() ==> #[trigger] shared_files()[i].1 != #[trigger] spec_strategy_template(k).1,
{
    reveal_strlit(".tera");
    reveal_strlit("Auth/AuthErrors.cs");
    reveal_strlit("Auth/AuthManager.cs");
    reveal_strlit("Auth/IAuthStrategy.cs");
    reveal_strlit("Auth/Strategies/ApiKeyAuthStrategy.cs");
    reveal_strlit("Auth/Strategies/ApiKeyAuthStrategy.cs.tera");
    reveal_strlit("Auth/Strategies/BasicAuthStrategy.cs");
    reveal_strlit("Auth/Strategies/BasicAuthStrategy.cs.tera");
    reveal_strlit("Auth/Strategies/OAuth1AuthStrategy.cs");
    reveal_strlit("Auth/Strategies/OAuth1AuthStrategy.cs.tera");
    reveal_strlit("Auth/Strategies/OAuth2AuthStrategy.cs");
    reveal_strlit("Auth/Strategies/OAuth2AuthStrategy.cs.tera");
    reveal_strlit("Auth/Strategies/PatAuthStrategy.cs");
    reveal_strlit("Auth/Strategies/PatAuthStrategy.cs.tera");
    reveal_strlit("Auth/Strategies/StubAuthStrategy.cs");
    reveal_strlit("Core/AuthStrategies.cs");
    assert(spec_strategy_template(AuthSchemeKind::Basic).0 =~= spec_strategy_template(AuthSchemeKind::Basic).1 + ".tera"@);
    assert(spec_strategy_template(AuthSchemeKind::ApiKey).0 =~= spec_strategy_template(AuthSchemeKind::ApiKey).1 + ".tera"@);
    assert(spec_strategy_template(AuthSchemeKind::BearerPat).0 =~= spec_strategy_template(AuthSchemeKind::BearerPat).1 + ".tera"@);
    assert(spec_strategy_template(AuthSchemeKind::OAuth2).0 =~= spec_strategy_template(AuthSchemeKind::OAuth2).1 + ".tera"@);
    assert(spec_strategy_template(AuthSchemeKind::OAuth1).0 =~= spec_strategy_template(AuthSchemeKind::OAuth1).1 + ".tera"@);
    assert(shared_files()[0].1.len() != spec_strategy_template(AuthSchemeKind::Basic).1.len());
    assert(shared_files()[1].1.len() != spec_strategy_template(AuthSchemeKind::Basic).1.len());
    assert(shared_files()[2].1.len() != spec_strategy_template(AuthSchemeKind::Basic).1.len());
    assert(shared_files()[3].1.len() != spec_strategy_template(AuthSchemeKind::Basic).1.len());
    assert(shared_files()[4].1.len() != spec_strategy_template(AuthSchemeKind::Basic).1.len());
    assert(shared_files()[0].1.len() != spec_strategy_template(AuthSchemeKind::ApiKey).1.len());
    assert(shared_files()[1].1.len() != spec_strategy_template(AuthSchemeKind::ApiKey).1.len());
    assert(shared_files()[2].1.len() != spec_strategy_template(AuthSchemeKind::ApiKey).1.len());
    assert(shared_files()[3].1.len() != spec_strategy_template(AuthSchemeKind::ApiKey).1.len());
    assert(shared_files()[4].1.len() != spec_strategy_template(AuthSchemeKind::ApiKey).1.len());
    assert(shared_files()[0].1.len() != spec_strategy_template(AuthSchemeKind::BearerPat).1.len());
    assert(shared_files()[1].1.len() != spec_strategy_template(AuthSchemeKind::BearerPat).1.len());
    assert(shared_files()[2].1.len() != spec_strategy_template(AuthSchemeKind::BearerPat).1.len());
    assert(shared_files()[3].1.len() != spec_strategy_template(AuthSchemeKind::BearerPat).1.len());
    assert(shared_files()[4].1.len() != spec_strategy_template(AuthSchemeKind::BearerPat).1.len());
    assert(shared_files()[0].1.len() != spec_strategy_template(AuthSchemeKind::OAuth2).1.len());
    assert(shared_files()[1].1.len() != spec_strategy_template(AuthSchemeKind::OAuth2).1.len());
    assert(shared_files()[2].1.len() != spec_strategy_template(AuthSchemeKind::OAuth2).1.len());
    assert(shared_files()[3].1.len() != spec_strategy_template(AuthSchemeKind::OAuth2).1.len());
    assert(shared_files()[4].1.len() != spec_strategy_template(AuthSchemeKind::OAuth2).1.len());
    assert(shared_files()[0].1.len() != spec_strategy_template(AuthSchemeKind::OAuth1).1.len());
    assert(shared_files()[1].1.len() != spec_strategy_template(AuthSchemeKind::OAuth1).1.len());
    assert(shared_files()[2].1.len() != spec_strategy_template(AuthSchemeKind::OAuth1).1.len());
    assert(shared_files()[3].1.len() != spec_strategy_template(AuthSchemeKind::OAuth1).1.len());
    assert(shared_files()[4].1.len() != spec_strategy_template(AuthSchemeKind::OAuth1).1.len());
    assert forall|k: AuthSchemeKind, i: int| 0 <= i < shared_files().len() implies #[trigger] shared_files()[i].1
        != #[trigger] spec_strategy_template(k).1 by {
        assert(shared_files().len() == 5);
    }
}

/// Different kinds have different files.
pub proof fn lemma_strategy_template_outputs_distinct()
    ensures
        outputs_distinct(strategy_template_table()),
{
    reveal_strlit("Auth/Strategies/BasicAuthStrategy.cs");
    reveal_strlit("Auth/Strategies/ApiKeyAuthStrategy.cs");
    reveal_strlit("Auth/Strategies/PatAuthStrategy.cs");
    reveal_strlit("Auth/Strategies/OAuth2AuthStrategy.cs");
    reveal_strlit("Auth/Strategies/OAuth1AuthStrategy.cs");
    assert(spec_strategy_template(AuthSchemeKind::Basic).1.len() != spec_strategy_template(AuthSchemeKind::ApiKey).1.len());
    assert(spec_strategy_template(AuthSchemeKind::Basic).1.len() != spec_strategy_template(AuthSchemeKind::BearerPat).1.len());
    assert(spec_strategy_template(AuthSchemeKind::Basic).1.len() != spec_strategy_template(AuthSchemeKind::OAuth2).1.len());
    assert(spec_strategy_template(AuthSchemeKind::Basic).1.len() != spec_strategy_template(AuthSchemeKind::OAuth1).1.len());
    assert(spec_strategy_template(AuthSchemeKind::ApiKey).1.len() != spec_strategy_template(AuthSchemeKind::BearerPat).1.len());
    assert(spec_strategy_template(AuthSchemeKind::ApiKey).1[16] != spec_strategy_template(AuthSchemeKind::OAuth2).1[16]);
    assert(spec_strategy_template(AuthSchemeKind::ApiKey).1[16] != spec_strategy_template(AuthSchemeKind::OAuth1).1[16]);
    assert(spec_strategy_template(AuthSchemeKind::BearerPat).1.len() != spec_strategy_template(AuthSchemeKind::OAuth2).1.len());
    assert(spec_strategy_template(AuthSchemeKind::BearerPat).1.len() != spec_strategy_template(AuthSchemeKind::OAuth1).1.len());
    assert(spec_strategy_template(AuthSchemeKind::OAuth2).1[21] != spec_strategy_template(AuthSchemeKind::OAuth1).1[21]);
    assert forall|a: AuthSchemeKind, b: AuthSchemeKind| #![trigger strategy_template_table()(a), strategy_template_table()(b)] a != b implies strategy_template_table()(a).1 != strategy_template_table()(b).1 by {
        assert(strategy_template_table()(a) == spec_strategy_template(a));
        assert(strategy_template_table()(b) == spec_strategy_template(b));
    }
}

/// The auth step renders the strategy of kind `k` exactly when some discovered scheme has kind `k`, and no strategy twice.
pub proof fn law_one_strategy_per_discovered_kind(schemes: Seq<AuthSchemeDescriptor>, k: AuthSchemeKind)
    ensures
        root_kind_renders(first_occurrences(scheme_kinds(schemes)), strategy_template_table()).contains(ActionView::Render { template: spec_strategy_template(k).0, out_path: spec_strategy_template(k).1 }) <==> scheme_kinds(schemes).contains(k),
        forall|i: int, j: int|
            0 <= i < j < first_occurrences(scheme_kinds(schemes)).len() ==> root_kind_renders(first_occurrences(scheme_kinds(schemes)), strategy_template_table())[i] != root_kind_renders(first_occurrences(scheme_kinds(schemes)), strategy_template_table())[j],
{
    lemma_strategy_template_outputs_distinct();
    law_one_root_render_per_discovered_kind(schemes, strategy_template_table(), k);
}

/// Emitted whatever schemes were discovered.
pub open spec fn shared_files() -> Seq<(Seq<char>, Seq<char>)> {
    seq![
        ("Auth/IAuthStrategy.cs.tera"@, "Auth/IAuthStrategy.cs"@),
        ("Auth/AuthErrors.cs.tera"@, "Auth/AuthErrors.cs"@),
        ("Auth/AuthManager.cs.tera"@, "Auth/AuthManager.cs"@),
        ("Auth/Strategies/StubAuthStrategy.cs.tera"@, "Auth/Strategies/StubAuthStrategy.cs"@),
        ("Core/AuthStrategies.cs.tera"@, "Core/AuthStrategies.cs"@),
    ]
}

/// The shared auth files, then one strategy per distinct kind, in discovery order.
pub open spec fn auth_plan(schemes: Seq<AuthSchemeDescriptor>) -> Seq<ActionView> {
    root_renders(shared_files())
        + root_kind_renders(first_occurrences(scheme_kinds(schemes)), strategy_template_table())
}

/// The auth step: the shared auth files, then one strategy per distinct discovered kind.
pub fn generate_auth_strategies(ctx: &GeneratorContext) -> (r: Vec<Action>)
    ensures
        action_views(r@) == auth_plan(ctx.auth_schemes@),
{
    let mut acts: Vec<Action> = Vec::new();
    let ghost start = action_views(acts@);
    push_root_render(&mut acts, "Auth/IAuthStrategy.cs.tera", "Auth/IAuthStrategy.cs");
    push_root_render(&mut acts, "Auth/AuthErrors.cs.tera", "Auth/AuthErrors.cs");
    push_root_render(&mut acts, "Auth/AuthManager.cs.tera", "Auth/AuthManager.cs");
    push_root_render(&mut acts, "Auth/Strategies/StubAuthStrategy.cs.tera", "Auth/Strategies/StubAuthStrategy.cs");
    push_root_render(&mut acts, "Core/AuthStrategies.cs.tera", "Core/AuthStrategies.cs");
    assert(action_views(acts@) =~= start + root_renders(shared_files()));
    let ghost after0 = action_views(acts@);
    let kinds = distinct_kinds(&ctx.auth_schemes);
    let ghost before_kinds = action_views(acts@);
    let mut i: usize = 0;
    while i < kinds.len()
        invariant
            i <= kinds.len(),
            action_views(acts@) == before_kinds + root_kind_renders(kinds@.take(i as int), strategy_template_table()),
        decreases kinds.len() - i,
    {
        let (template, out) = strategy_template(kinds[i]);
        push_root_render(&mut acts, template, out);
        assert(root_kind_renders(kinds@.take(i + 1), strategy_template_table()) =~= root_kind_renders(kinds@.take(i as int), strategy_template_table()).push(action_views(acts@).last()));
        i = i + 1;
    }
    assert(kinds@.take(kinds.len() as int) =~= kinds@);
    assert(action_views(acts@) =~= auth_plan(ctx.auth_schemes@));
    acts
}


/// Each kind's strategy class file is named after the kind's identifier, so each scheme gets its own kind's strategy.
pub proof fn law_strategy_file_per_kind()
    ensures
        forall|k: AuthSchemeKind| #[trigger] spec_strategy_template(k).1 == "Auth/Strategies/"@ + spec_method_ident(k) + "AuthStrategy.cs"@,
{
    law_method_keys_and_idents();
    reveal_strlit("ApiKey");
    reveal_strlit("Auth/Strategies/");
    reveal_strlit("Auth/Strategies/ApiKeyAuthStrategy.cs");
    reveal_strlit("Auth/Strategies/BasicAuthStrategy.cs");
    reveal_strlit("Auth/Strategies/OAuth1AuthStrategy.cs");
    reveal_strlit("Auth/Strategies/OAuth2AuthStrategy.cs");
    reveal_strlit("Auth/Strategies/PatAuthStrategy.cs");
    reveal_strlit("AuthStrategy.cs");
    reveal_strlit("Basic");
    reveal_strlit("OAuth1");
    reveal_strlit("OAuth2");
    reveal_strlit("Pat");
    assert(spec_strategy_template(AuthSchemeKind::Basic).1 =~= "Auth/Strategies/"@ + "Basic"@ + "AuthStrategy.cs"@);
    assert(spec_strategy_template(AuthSchemeKind::ApiKey).1 =~= "Auth/Strategies/"@ + "ApiKey"@ + "AuthStrategy.cs"@);
    assert(spec_strategy_template(AuthSchemeKind::BearerPat).1 =~= "Auth/Strategies/"@ + "Pat"@ + "AuthStrategy.cs"@);
    assert(spec_strategy_template(AuthSchemeKind::OAuth2).1 =~= "Auth/Strategies/"@ + "OAuth2"@ + "AuthStrategy.cs"@);
    assert(spec_strategy_template(AuthSchemeKind::OAuth1).1 =~= "Auth/Strategies/"@ + "OAuth1"@ + "AuthStrategy.cs"@);
}


/// Each row of `shared_files` renders the template of the same name: its output
/// is the template's path without `.tera`, under `src/` for sources.
pub proof fn law_shared_files_outputs_match_templates()
    ensures
        forall|i: int|
            0 <= i < shared_files().len() ==> {
                let t = #[trigger] shared_files()[i].0;
                let o = shared_files()[i].1;
                &&& t.len() >= 5
                &&& t.skip(t.len() - 5) == ".tera"@
                &&& (o == t.take(t.len() - 5) || o == "src/"@ + t.take(t.len() - 5))
            },
{
    reveal_strlit(".tera");
    reveal_strlit("Auth/AuthErrors.cs");
    reveal_strlit("Auth/AuthErrors.cs.tera");
    reveal_strlit("Auth/AuthManager.cs");
    reveal_strlit("Auth/AuthManager.cs.tera");
    reveal_strlit("Auth/IAuthStrategy.cs");
    reveal_strlit("Auth/IAuthStrategy.cs.tera");
    reveal_strlit("Auth/Strategies/StubAuthStrategy.cs");
    reveal_strlit("Auth/Strategies/StubAuthStrategy.cs.tera");
    reveal_strlit("Core/AuthStrategies.cs");
    reveal_strlit("Core/AuthStrategies.cs.tera");
    reveal_strlit("src/");
    assert(shared_files()[0].0.skip(26 - 5) =~= ".tera"@);
    assert(shared_files()[0].1 =~= shared_files()[0].0.take(26 - 5));
    assert(shared_files()[1].0.skip(23 - 5) =~= ".tera"@);
    assert(shared_files()[1].1 =~= shared_files()[1].0.take(23 - 5));
    assert(shared_files()[2].0.skip(24 - 5) =~= ".tera"@);
    assert(shared_files()[2].1 =~= shared_files()[2].0.take(24 - 5));
    assert(shared_files()[3].0.skip(40 - 5) =~= ".tera"@);
    assert(shared_files()[3].1 =~= shared_files()[3].0.take(40 - 5));
    assert(shared_files()[4].0.skip(27 - 5) =~= ".tera"@);
    assert(shared_files()[4].1 =~= shared_files()[4].0.take(27 - 5));
    assert(shared_files().len() == 5);
}

} // verus!
