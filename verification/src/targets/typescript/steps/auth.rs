//! Step three: the auth strategies of the discovered scheme kinds.

use crate::context::GeneratorContext;
use crate::plan::{Action, ActionView, action_views, law_one_root_render_per_discovered_kind, outputs_distinct, push_root_render, renders, root_kind_renders, root_renders};
use crate::auth_profile::AuthSchemeKind;
use crate::context::{distinct_kinds, first_occurrences, scheme_kinds};
use crate::auth_profile::AuthSchemeDescriptor;
use crate::auth_profile::{law_method_keys_and_idents, spec_method_ident, spec_method_key};
use vstd::prelude::*;
use vstd::string::*;

verus! {

/// The strategy module of a kind; its content depends on the kind alone.
pub open spec fn spec_strategy_template(kind: AuthSchemeKind) -> (Seq<char>, Seq<char>) {
    match kind {
        AuthSchemeKind::Basic => ("auth/strategies/basic.ts.tera"@, "src/auth/strategies/basic.ts"@),
        AuthSchemeKind::ApiKey => ("auth/strategies/api-key.ts.tera"@, "src/auth/strategies/api-key.ts"@),
        AuthSchemeKind::BearerPat => ("auth/strategies/pat.ts.tera"@, "src/auth/strategies/pat.ts"@),
        AuthSchemeKind::OAuth2 => ("auth/strategies/oauth2.ts.tera"@, "src/auth/strategies/oauth2.ts"@),
        AuthSchemeKind::OAuth1 => ("auth/strategies/oauth1.ts.tera"@, "src/auth/strategies/oauth1.ts"@),
    }
}

pub open spec fn strategy_template_table() -> spec_fn(AuthSchemeKind) -> (Seq<char>, Seq<char>) {
    |kind: AuthSchemeKind| spec_strategy_template(kind)
}

pub fn strategy_template(kind: AuthSchemeKind) -> (r: (&'static str, &'static str))
    ensures
        (r.0@, r.1@) == spec_strategy_template(kind),
{
    match kind {
        AuthSchemeKind::Basic => ("auth/strategies/basic.ts.tera", "src/auth/strategies/basic.ts"),
        AuthSchemeKind::ApiKey => ("auth/strategies/api-key.ts.tera", "src/auth/strategies/api-key.ts"),
        AuthSchemeKind::BearerPat => ("auth/strategies/pat.ts.tera", "src/auth/strategies/pat.ts"),
        AuthSchemeKind::OAuth2 => ("auth/strategies/oauth2.ts.tera", "src/auth/strategies/oauth2.ts"),
        AuthSchemeKind::OAuth1 => ("auth/strategies/oauth1.ts.tera", "src/auth/strategies/oauth1.ts"),
    }
}

/// Each kind's template is its output path with the leading `src/` dropped and `.tera` appended, and no kind's file is one of the
/// `shared_files`.
pub proof fn lemma_strategy_template_table_shape()
    ensures
        forall|k: AuthSchemeKind| #[trigger] spec_strategy_template(k).0 == spec_strategy_template(k).1.skip(4) + ".tera"@,
        forall|k: AuthSchemeKind, i: int|
            0 <= i < shared_files().len() ==> #[trigger] shared_files()[i].1 != #[trigger] spec_strategy_template(k).1,
{
    reveal_strlit(".tera");
    reveal_strlit("auth/strategies/api-key.ts.tera");
    reveal_strlit("auth/strategies/basic.ts.tera");
    reveal_strlit("auth/strategies/oauth1.ts.tera");
    reveal_strlit("auth/strategies/oauth2.ts.tera");
    reveal_strlit("auth/strategies/pat.ts.tera");
    reveal_strlit("src/auth/auth-manager.ts");
    reveal_strlit("src/auth/auth-strategy.ts");
    reveal_strlit("src/auth/errors.ts");
    reveal_strlit("src/auth/strategies/api-key.ts");
    reveal_strlit("src/auth/strategies/basic.ts");
    reveal_strlit("src/auth/strategies/oauth1.ts");
    reveal_strlit("src/auth/strategies/oauth2.ts");
    reveal_strlit("src/auth/strategies/pat.ts");
    reveal_strlit("src/auth/strategies/stub.ts");
    assert(spec_strategy_template(AuthSchemeKind::Basic).0 =~= spec_strategy_template(AuthSchemeKind::Basic).1.skip(4) + ".tera"@);
    assert(spec_strategy_template(AuthSchemeKind::ApiKey).0 =~= spec_strategy_template(AuthSchemeKind::ApiKey).1.skip(4) + ".tera"@);
    assert(spec_strategy_template(AuthSchemeKind::BearerPat).0 =~= spec_strategy_template(AuthSchemeKind::BearerPat).1.skip(4) + ".tera"@);
    assert(spec_strategy_template(AuthSchemeKind::OAuth2).0 =~= spec_strategy_template(AuthSchemeKind::OAuth2).1.skip(4) + ".tera"@);
    assert(spec_strategy_template(AuthSchemeKind::OAuth1).0 =~= spec_strategy_template(AuthSchemeKind::OAuth1).1.skip(4) + ".tera"@);
    assert(shared_files()[0].1.len() != spec_strategy_template(AuthSchemeKind::Basic).1.len());
    assert(shared_files()[1].1.len() != spec_strategy_template(AuthSchemeKind::Basic).1.len());
    assert(shared_files()[2].1.len() != spec_strategy_template(AuthSchemeKind::Basic).1.len());
    assert(shared_files()[3].1.len() != spec_strategy_template(AuthSchemeKind::Basic).1.len());
    assert(shared_files()[0].1.len() != spec_strategy_template(AuthSchemeKind::ApiKey).1.len());
    assert(shared_files()[1].1.len() != spec_strategy_template(AuthSchemeKind::ApiKey).1.len());
    assert(shared_files()[2].1.len() != spec_strategy_template(AuthSchemeKind::ApiKey).1.len());
    assert(shared_files()[3].1.len() != spec_strategy_template(AuthSchemeKind::ApiKey).1.len());
    assert(shared_files()[0].1.len() != spec_strategy_template(AuthSchemeKind::BearerPat).1.len());
    assert(shared_files()[1].1.len() != spec_strategy_template(AuthSchemeKind::BearerPat).1.len());
    assert(shared_files()[2].1.len() != spec_strategy_template(AuthSchemeKind::BearerPat).1.len());
    assert(shared_files()[3].1.len() != spec_strategy_template(AuthSchemeKind::BearerPat).1.len());
    assert(shared_files()[0].1.len() != spec_strategy_template(AuthSchemeKind::OAuth2).1.len());
    assert(shared_files()[1].1.len() != spec_strategy_template(AuthSchemeKind::OAuth2).1.len());
    assert(shared_files()[2].1.len() != spec_strategy_template(AuthSchemeKind::OAuth2).1.len());
    assert(shared_files()[3].1.len() != spec_strategy_template(AuthSchemeKind::OAuth2).1.len());
    assert(shared_files()[0].1.len() != spec_strategy_template(AuthSchemeKind::OAuth1).1.len());
    assert(shared_files()[1].1.len() != spec_strategy_template(AuthSchemeKind::OAuth1).1.len());
    assert(shared_files()[2].1.len() != spec_strategy_template(AuthSchemeKind::OAuth1).1.len());
    assert(shared_files()[3].1.len() != spec_strategy_template(AuthSchemeKind::OAuth1).1.len());
    assert forall|k: AuthSchemeKind, i: int| 0 <= i < shared_files().len() implies #[trigger] shared_files()[i].1
        != #[trigger] spec_strategy_template(k).1 by {
        assert(shared_files().len() == 4);
    }
}

/// Different kinds have different files.
pub proof fn lemma_strategy_template_outputs_distinct()
    ensures
        outputs_distinct(strategy_template_table()),
{
    reveal_strlit("src/auth/strategies/basic.ts");
    reveal_strlit("src/auth/strategies/api-key.ts");
    reveal_strlit("src/auth/strategies/pat.ts");
    reveal_strlit("src/auth/strategies/oauth2.ts");
    reveal_strlit("src/auth/strategies/oauth1.ts");
    assert(spec_strategy_template(AuthSchemeKind::Basic).1.len() != spec_strategy_template(AuthSchemeKind::ApiKey).1.len());
    assert(spec_strategy_template(AuthSchemeKind::Basic).1.len() != spec_strategy_template(AuthSchemeKind::BearerPat).1.len());
    assert(spec_strategy_template(AuthSchemeKind::Basic).1.len() != spec_strategy_template(AuthSchemeKind::OAuth2).1.len());
    assert(spec_strategy_template(AuthSchemeKind::Basic).1.len() != spec_strategy_template(AuthSchemeKind::OAuth1).1.len());
    assert(spec_strategy_template(AuthSchemeKind::ApiKey).1.len() != spec_strategy_template(AuthSchemeKind::BearerPat).1.len());
    assert(spec_strategy_template(AuthSchemeKind::ApiKey).1.len() != spec_strategy_template(AuthSchemeKind::OAuth2).1.len());
    assert(spec_strategy_template(AuthSchemeKind::ApiKey).1.len() != spec_strategy_template(AuthSchemeKind::OAuth1).1.len());
    assert(spec_strategy_template(AuthSchemeKind::BearerPat).1.len() != spec_strategy_template(AuthSchemeKind::OAuth2).1.len());
    assert(spec_strategy_template(AuthSchemeKind::BearerPat).1.len() != spec_strategy_template(AuthSchemeKind::OAuth1).1.len());
    assert(spec_strategy_template(AuthSchemeKind::OAuth2).1[25] != spec_strategy_template(AuthSchemeKind::OAuth1).1[25]);
    assert forall|a: AuthSchemeKind, b: AuthSchemeKind| #![trigger strategy_template_table()(a), strategy_template_table()(b)] a != b implies strategy_template_table()(a).1 != strategy_template_table()(b).1 by {
        assert(strategy_template_table()(a) == spec_strategy_template(a));
        assert(strategy_template_table()(b) == spec_strategy_template(b));
    }
}

/// The auth step renders the strategy of kind `k` exactly when some discovered scheme has kind `k`, and no strategy twice.
pub proof fn law_one_strategy_per_discovered_kind(schemes: Seq<AuthSchemeDescriptor>, k: AuthSchemeKind)
    ensures
        root_kind_renders(first_occurrences(scheme_kinds(schemes)), strategy_template_table()).contains(ActionView::Render { template: spec_strategy_template(k).0, out_path: spec_strategy_template(k).1 }) <==> scheme_kinds(schemes).contains(k),
        forall|i: int, j: int|
            0 <= i < j < first_occurrences(scheme_kinds(schemes)).len() ==> root_kind_renders(first_occurrences(scheme_kinds(schemes)), strategy_template_table())[i] != root_kind_renders(first_occurrences(scheme_kinds(schemes)), strategy_template_table())[j],
{
    lemma_strategy_template_outputs_distinct();
    law_one_root_render_per_discovered_kind(schemes, strategy_template_table(), k);
}

/// Emitted whatever schemes were discovered.
pub open spec fn shared_files() -> Seq<(Seq<char>, Seq<char>)> {
    seq![
        ("auth/auth-strategy.ts.tera"@, "src/auth/auth-strategy.ts"@),
        ("auth/errors.ts.tera"@, "src/auth/errors.ts"@),
        ("auth/strategies/stub.ts.tera"@, "src/auth/strategies/stub.ts"@),
        ("auth/auth-manager.ts.tera"@, "src/auth/auth-manager.ts"@),
    ]
}

/// The shared auth modules, then one strategy per distinct kind, in discovery order.
pub open spec fn auth_plan(schemes: Seq<AuthSchemeDescriptor>) -> Seq<ActionView> {
    root_renders(shared_files())
        + root_kind_renders(first_occurrences(scheme_kinds(schemes)), strategy_template_table())
}

/// The auth step: the shared auth modules, then one strategy per distinct discovered kind.
pub fn generate_auth_strategies(ctx: &GeneratorContext) -> (r: Vec<Action>)
    ensures
        action_views(r@) == auth_plan(ctx.auth_schemes@),
{
    let mut acts: Vec<Action> = Vec::new();
    let ghost start = action_views(acts@);
    push_root_render(&mut acts, "auth/auth-strategy.ts.tera", "src/auth/auth-strategy.ts");
    push_root_render(&mut acts, "auth/errors.ts.tera", "src/auth/errors.ts");
    push_root_render(&mut acts, "auth/strategies/stub.ts.tera", "src/auth/strategies/stub.ts");
    push_root_render(&mut acts, "auth/auth-manager.ts.tera", "src/auth/auth-manager.ts");
    assert(action_views(acts@) =~= start + root_renders(shared_files()));
    let ghost after0 = action_views(acts@);
    let kinds = distinct_kinds(&ctx.auth_schemes);
    let ghost before_kinds = action_views(acts@);
    let mut i: usize = 0;
    while i < kinds.len()
        invariant
            i <= kinds.len(),
            action_views(acts@) == before_kinds + root_kind_renders(kinds@.take(i as int), strategy_template_table()),
        decreases kinds.len() - i,
    {
        let (template, out) = strategy_template(kinds[i]);
        push_root_render(&mut acts, template, out);
        assert(root_kind_renders(kinds@.take(i + 1), strategy_template_table()) =~= root_kind_renders(kinds@.take(i as int), strategy_template_table()).push(action_views(acts@).last()));
        i = i + 1;
    }
    assert(kinds@.take(kinds.len() as int) =~= kinds@);
    assert(action_views(acts@) =~= auth_plan(ctx.auth_schemes@));
    acts
}


/// Each kind's strategy module is named after its `auth_method` value (`api-key` for API keys), so each scheme gets its own kind's strategy.
pub proof fn law_strategy_file_per_kind()
    ensures
        forall|k: AuthSchemeKind| #[trigger] spec_strategy_template(k).1 == "src/auth/strategies/"@ + (if k == AuthSchemeKind::ApiKey { "api-key"@ } else { spec_method_key(k) }) + ".ts"@,
{
    law_method_keys_and_idents();
    reveal_strlit(".ts");
    reveal_strlit("api-key");
    reveal_strlit("basic");
    reveal_strlit("oauth1");
    reveal_strlit("oauth2");
    reveal_strlit("pat");
    reveal_strlit("src/auth/strategies/");
    reveal_strlit("src/auth/strategies/api-key.ts");
    reveal_strlit("src/auth/strategies/basic.ts");
    reveal_strlit("src/auth/strategies/oauth1.ts");
    reveal_strlit("src/auth/strategies/oauth2.ts");
    reveal_strlit("src/auth/strategies/pat.ts");
    assert(spec_strategy_template(AuthSchemeKind::Basic).1 =~= "src/auth/strategies/"@ + "basic"@ + ".ts"@);
    assert(spec_strategy_template(AuthSchemeKind::ApiKey).1 =~= "src/auth/strategies/"@ + "api-key"@ + ".ts"@);
    assert(spec_strategy_template(AuthSchemeKind::BearerPat).1 =~= "src/auth/strategies/"@ + "pat"@ + ".ts"@);
    assert(spec_strategy_template(AuthSchemeKind::OAuth2).1 =~= "src/auth/strategies/"@ + "oauth2"@ + ".ts"@);
    assert(spec_strategy_template(AuthSchemeKind::OAuth1).1 =~= "src/auth/strategies/"@ + "oauth1"@ + ".ts"@);
}


/// Each row of `shared_files` renders the template of the same name: its output
/// is the template's path without `.tera`, under `src/` for sources.
pub proof fn law_shared_files_outputs_match_templates()
    ensures
        forall|i: int|
            0 <= i < shared_files().len() ==> {
                let t = #[trigger] shared_files()[i].0;
                let o = shared_files()[i].1;
                &&& t.len() >= 5
                &&& t.skip(t.len() - 5) == ".tera"@
                &&& (o == t.take(t.len() - 5) || o == "src/"@ + t.take(t.len() - 5))
            },
{
    reveal_strlit(".tera");
    reveal_strlit("auth/auth-manager.ts.tera");
    reveal_strlit("auth/auth-strategy.ts.tera");
    reveal_strlit("auth/errors.ts.tera");
    reveal_strlit("auth/strategies/stub.ts.tera");
    reveal_strlit("src/");
    reveal_strlit("src/auth/auth-manager.ts");
    reveal_strlit("src/auth/auth-strategy.ts");
    reveal_strlit("src/auth/errors.ts");
    reveal_strlit("src/auth/strategies/stub.ts");
    assert(shared_files()[0].0.skip(26 - 5) =~= ".tera"@);
    assert(shared_files()[0].1 =~= "src/"@ + shared_files()[0].0.take(26 - 5));
    assert(shared_files()[1].0.skip(19 - 5) =~= ".tera"@);
    assert(shared_files()[1].1 =~= "src/"@ + shared_files()[1].0.take(19 - 5));
    assert(shared_files()[2].0.skip(28 - 5) =~= ".tera"@);
    assert(shared_files()[2].1 =~= "src/"@ + shared_files()[2].0.take(28 - 5));
    assert(shared_files()[3].0.skip(25 - 5) =~= ".tera"@);
    assert(shared_files()[3].1 =~= "src/"@ + shared_files()[3].0.take(25 - 5));
    assert(shared_files().len() == 4);
}

} // verus!
