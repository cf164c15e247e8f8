//! Step three: the auth strategies of the discovered scheme kinds.

use crate::context::GeneratorContext;
use crate::plan::{Action, ActionView, action_views, kind_renders, law_one_render_per_discovered_kind, outputs_distinct, push_render, render_view, renders};
use crate::auth_profile::AuthSchemeKind;
use crate::context::{distinct_kinds, first_occurrences, scheme_kinds};
use crate::targets::python::context::{module_name, spec_py_module_name};
use crate::auth_profile::AuthSchemeDescriptor;
use crate::auth_profile::{law_method_keys_and_idents, spec_method_ident, spec_method_key};
use vstd::prelude::*;
use vstd::string::*;

verus! {

/// The strategy module of a kind, relative to the package root; its content depends on the kind alone.
pub open spec fn spec_strategy_template(kind: AuthSchemeKind) -> (Seq<char>, Seq<char>) {
    match kind {
        AuthSchemeKind::Basic => ("auth/strategies/basic.py.tera"@, "auth/strategies/basic.py"@),
        AuthSchemeKind::ApiKey => ("auth/strategies/api_key.py.tera"@, "auth/strategies/api_key.py"@),
        AuthSchemeKind::BearerPat => ("auth/strategies/pat.py.tera"@, "auth/strategies/pat.py"@),
        AuthSchemeKind::OAuth2 => ("auth/strategies/oauth2.py.tera"@, "auth/strategies/oauth2.py"@),
        AuthSchemeKind::OAuth1 => ("auth/strategies/oauth1.py.tera"@, "auth/strategies/oauth1.py"@),
    }
}

pub open spec fn strategy_template_table() -> spec_fn(AuthSchemeKind) -> (Seq<char>, Seq<char>) {
    |kind: AuthSchemeKind| spec_strategy_template(kind)
}

pub fn strategy_template(kind: AuthSchemeKind) -> (r: (&'static str, &'static str))
    ensures
        (r.0@, r.1@) == spec_strategy_template(kind),
{
    match kind {
        AuthSchemeKind::Basic => ("auth/strategies/basic.py.tera", "auth/strategies/basic.py"),
        AuthSchemeKind::ApiKey => ("auth/strategies/api_key.py.tera", "auth/strategies/api_key.py"),
        AuthSchemeKind::BearerPat => ("auth/strategies/pat.py.tera", "auth/strategies/pat.py"),
        AuthSchemeKind::OAuth2 => ("auth/strategies/oauth2.py.tera", "auth/strategies/oauth2.py"),
        AuthSchemeKind::OAuth1 => ("auth/strategies/oauth1.py.tera", "auth/strategies/oauth1.py"),
    }
}

/// Each kind's template is its output path with `.tera` appended, and no kind's file is one of the
/// `shared_files`.
pub proof fn lemma_strategy_template_table_shape()
    ensures
        forall|k: AuthSchemeKind| #[trigger] spec_strategy_template(k).0 == spec_strategy_template(k).1 + ".tera"@,
        forall|k: AuthSchemeKind, i: int|
            0 <= i < shared_files().len() ==> #[trigger] shared_files()[i].1 != #[trigger] spec_strategy_template(k).1,
{
    reveal_strlit(".tera");
    reveal_strlit("auth/__init__.py");
    reveal_strlit("auth/auth_manager.py");
    reveal_strlit("auth/auth_strategy.py");
    reveal_strlit("auth/errors.py");
    reveal_strlit("auth/request_credentials.py");
    reveal_strlit("auth/strategies/__init__.py");
    reveal_strlit("auth/strategies/api_key.py");
    reveal_strlit("auth/strategies/api_key.py.tera");
    reveal_strlit("auth/strategies/basic.py");
    reveal_strlit("auth/strategies/basic.py.tera");
    reveal_strlit("auth/strategies/oauth1.py");
    reveal_strlit("auth/strategies/oauth1.py.tera");
    reveal_strlit("auth/strategies/oauth2.py");
    reveal_strlit("auth/strategies/oauth2.py.tera");
    reveal_strlit("auth/strategies/pat.py");
    reveal_strlit("auth/strategies/pat.py.tera");
    reveal_strlit("auth/strategies/stub.py");
    assert(spec_strategy_template(AuthSchemeKind::Basic).0 =~= spec_strategy_template(AuthSchemeKind::Basic).1 + ".tera"@);
    assert(spec_strategy_template(AuthSchemeKind::ApiKey).0 =~= spec_strategy_template(AuthSchemeKind::ApiKey).1 + ".tera"@);
    assert(spec_strategy_template(AuthSchemeKind::BearerPat).0 =~= spec_strategy_template(AuthSchemeKind::BearerPat).1 + ".tera"@);
    assert(spec_strategy_template(AuthSchemeKind::OAuth2).0 =~= spec_strategy_template(AuthSchemeKind::OAuth2).1 + ".tera"@);
    assert(spec_strategy_template(AuthSchemeKind::OAuth1).0 =~= spec_strategy_template(AuthSchemeKind::OAuth1).1 + ".tera"@);
    assert(shared_files()[0].1.len() != spec_strategy_template(AuthSchemeKind::Basic).1.len());
    assert(shared_files()[1].1.len() != spec_strategy_template(AuthSchemeKind::Basic).1.len());
    assert(shared_files()[2].1.len() != spec_strategy_template(AuthSchemeKind::Basic).1.len());
    assert(shared_files()[3].1.len() != spec_strategy_template(AuthSchemeKind::Basic).1.len());
    assert(shared_files()[4].1.len() != spec_strategy_template(AuthSchemeKind::Basic).1.len());
    assert(shared_files()[5].1.len() != spec_strategy_template(AuthSchemeKind::Basic).1.len());
    assert(shared_files()[6].1.len() != spec_strategy_template(AuthSchemeKind::Basic).1.len());
    assert(shared_files()[0].1.len() != spec_strategy_template(AuthSchemeKind::ApiKey).1.len());
    assert(shared_files()[1].1.len() != spec_strategy_template(AuthSchemeKind::ApiKey).1.len());
    assert(shared_files()[2].1.len() != spec_strategy_template(AuthSchemeKind::ApiKey).1.len());
    assert(shared_files()[3].1.len() != spec_strategy_template(AuthSchemeKind::ApiKey).1.len());
    assert(shared_files()[4].1.len() != spec_strategy_template(AuthSchemeKind::ApiKey).1.len());
    assert(shared_files()[5].1.len() != spec_strategy_template(AuthSchemeKind::ApiKey).1.len());
    assert(shared_files()[6].1.len() != spec_strategy_template(AuthSchemeKind::ApiKey).1.len());
    assert(shared_files()[0].1.len() != spec_strategy_template(AuthSchemeKind::BearerPat).1.len());
    assert(shared_files()[1].1.len() != spec_strategy_template(AuthSchemeKind::BearerPat).1.len());
    assert(shared_files()[2].1.len() != spec_strategy_template(AuthSchemeKind::BearerPat).1.len());
    assert(shared_files()[3].1.len() != spec_strategy_template(AuthSchemeKind::BearerPat).1.len());
    assert(shared_files()[4].1.len() != spec_strategy_template(AuthSchemeKind::BearerPat).1.len());
    assert(shared_files()[5].1.len() != spec_strategy_template(AuthSchemeKind::BearerPat).1.len());
    assert(shared_files()[6].1.len() != spec_strategy_template(AuthSchemeKind::BearerPat).1.len());
    assert(shared_files()[0].1.len() != spec_strategy_template(AuthSchemeKind::OAuth2).1.len());
    assert(shared_files()[1].1.len() != spec_strategy_template(AuthSchemeKind::OAuth2).1.len());
    assert(shared_files()[2].1.len() != spec_strategy_template(AuthSchemeKind::OAuth2).1.len());
    assert(shared_files()[3].1.len() != spec_strategy_template(AuthSchemeKind::OAuth2).1.len());
    assert(shared_files()[4].1.len() != spec_strategy_template(AuthSchemeKind::OAuth2).1.len());
    assert(shared_files()[5].1.len() != spec_strategy_template(AuthSchemeKind::OAuth2).1.len());
    assert(shared_files()[6].1.len() != spec_strategy_template(AuthSchemeKind::OAuth2).1.len());
    assert(shared_files()[0].1.len() != spec_strategy_template(AuthSchemeKind::OAuth1).1.len());
    assert(shared_files()[1].1.len() != spec_strategy_template(AuthSchemeKind::OAuth1).1.len());
    assert(shared_files()[2].1.len() != spec_strategy_template(AuthSchemeKind::OAuth1).1.len());
    assert(shared_files()[3].1.len() != spec_strategy_template(AuthSchemeKind::OAuth1).1.len());
    assert(shared_files()[4].1.len() != spec_strategy_template(AuthSchemeKind::OAuth1).1.len());
    assert(shared_files()[5].1.len() != spec_strategy_template(AuthSchemeKind::OAuth1).1.len());
    assert(shared_files()[6].1.len() != spec_strategy_template(AuthSchemeKind::OAuth1).1.len());
    assert forall|k: AuthSchemeKind, i: int| 0 <= i < shared_files().len() implies #[trigger] shared_files()[i].1
        != #[trigger] spec_strategy_template(k).1 by {
        assert(shared_files().len() == 7);
    }
}

/// Different kinds have different files.
pub proof fn lemma_strategy_template_outputs_distinct()
    ensures
        outputs_distinct(strategy_template_table()),
{
    reveal_strlit("auth/strategies/basic.py");
    reveal_strlit("auth/strategies/api_key.py");
    reveal_strlit("auth/strategies/pat.py");
    reveal_strlit("auth/strategies/oauth2.py");
    reveal_strlit("auth/strategies/oauth1.py");
    assert(spec_strategy_template(AuthSchemeKind::Basic).1.len() != spec_strategy_template(AuthSchemeKind::ApiKey).1.len());
    assert(spec_strategy_template(AuthSchemeKind::Basic).1.len() != spec_strategy_template(AuthSchemeKind::BearerPat).1.len());
    assert(spec_strategy_template(AuthSchemeKind::Basic).1.len() != spec_strategy_template(AuthSchemeKind::OAuth2).1.len());
    assert(spec_strategy_template(AuthSchemeKind::Basic).1.len() != spec_strategy_template(AuthSchemeKind::OAuth1).1.len());
    assert(spec_strategy_template(AuthSchemeKind::ApiKey).1.len() != spec_strategy_template(AuthSchemeKind::BearerPat).1.len());
    assert(spec_strategy_template(AuthSchemeKind::ApiKey).1.len() != spec_strategy_template(AuthSchemeKind::OAuth2).1.len());
    assert(spec_strategy_template(AuthSchemeKind::ApiKey).1.len() != spec_strategy_template(AuthSchemeKind::OAuth1).1.len());
    assert(spec_strategy_template(AuthSchemeKind::BearerPat).1.len() != spec_strategy_template(AuthSchemeKind::OAuth2).1.len());
    assert(spec_strategy_template(AuthSchemeKind::BearerPat).1.len() != spec_strategy_template(AuthSchemeKind::OAuth1).1.len());
    assert(spec_strategy_template(AuthSchemeKind::OAuth2).1[21] != spec_strategy_template(AuthSchemeKind::OAuth1).1[21]);
    assert forall|a: AuthSchemeKind, b: AuthSchemeKind| #![trigger strategy_template_table()(a), strategy_template_table()(b)] a != b implies strategy_template_table()(a).1 != strategy_template_table()(b).1 by {
        assert(strategy_template_table()(a) == spec_strategy_template(a));
        assert(strategy_template_table()(b) == spec_strategy_template(b));
    }
}

/// The auth step renders the strategy of kind `k` exactly when some discovered scheme has kind `k`, and no strategy twice.
pub proof fn law_one_strategy_per_discovered_kind(module: Seq<char>, schemes: Seq<AuthSchemeDescriptor>, k: AuthSchemeKind)
    ensures
        kind_renders("src/"@ + module + "/"@, first_occurrences(scheme_kinds(schemes)), strategy_template_table()).contains(render_view("src/"@ + module + "/"@, spec_strategy_template(k).0, spec_strategy_template(k).1)) <==> scheme_kinds(schemes).contains(k),
        forall|i: int, j: int|
            0 <= i < j < first_occurrences(scheme_kinds(schemes)).len() ==> kind_renders("src/"@ + module + "/"@, first_occurrences(scheme_kinds(schemes)), strategy_template_table())[i] != kind_renders("src/"@ + module + "/"@, first_occurrences(scheme_kinds(schemes)), strategy_template_table())[j],
{
    lemma_strategy_template_outputs_distinct();
    law_one_render_per_discovered_kind("src/"@ + module + "/"@, schemes, strategy_template_table(), k);
}

/// Emitted whatever schemes were discovered, relative to the package root.
pub open spec fn shared_files() -> Seq<(Seq<char>, Seq<char>)> {
    seq![
        ("auth/__init__.py.tera"@, "auth/__init__.py"@),
        ("auth/auth_strategy.py.tera"@, "auth/auth_strategy.py"@),
        ("auth/errors.py.tera"@, "auth/errors.py"@),
        ("auth/request_credentials.py.tera"@, "auth/request_credentials.py"@),
        ("auth/strategies/__init__.py.tera"@, "auth/strategies/__init__.py"@),
        ("auth/strategies/stub.py.tera"@, "auth/strategies/stub.py"@),
        ("auth/auth_manager.py.tera"@, "auth/auth_manager.py"@),
    ]
}

/// The shared auth modules, then one strategy per distinct kind, in discovery order, all inside the package.
pub open spec fn auth_plan(module: Seq<char>, schemes: Seq<AuthSchemeDescriptor>) -> Seq<ActionView> {
    renders("src/"@ + module + "/"@, shared_files())
        + kind_renders("src/"@ + module + "/"@, first_occurrences(scheme_kinds(schemes)), strategy_template_table())
}

/// The auth step: the shared auth modules, then one strategy per distinct discovered kind.
pub fn generate_auth_strategies(ctx: &GeneratorContext) -> (r: Vec<Action>)
    ensures
        action_views(r@) == auth_plan(spec_py_module_name(ctx.output_dir@, ctx.api_title@), ctx.auth_schemes@),
{
    let module = module_name(ctx);
    let mut package_root = String::from_str("src/");
    package_root.append(module.as_str());
    package_root.append("/");
    let mut acts: Vec<Action> = Vec::new();
    let ghost start = action_views(acts@);
    push_render(&mut acts, package_root.as_str(), "auth/__init__.py.tera", "auth/__init__.py");
    push_render(&mut acts, package_root.as_str(), "auth/auth_strategy.py.tera", "auth/auth_strategy.py");
    push_render(&mut acts, package_root.as_str(), "auth/errors.py.tera", "auth/errors.py");
    push_render(&mut acts, package_root.as_str(), "auth/request_credentials.py.tera", "auth/request_credentials.py");
    push_render(&mut acts, package_root.as_str(), "auth/strategies/__init__.py.tera", "auth/strategies/__init__.py");
    push_render(&mut acts, package_root.as_str(), "auth/strategies/stub.py.tera", "auth/strategies/stub.py");
    push_render(&mut acts, package_root.as_str(), "auth/auth_manager.py.tera", "auth/auth_manager.py");
    assert(action_views(acts@) =~= start + renders("src/"@ + module@ + "/"@, shared_files()));
    let ghost after0 = action_views(acts@);
    let kinds = distinct_kinds(&ctx.auth_schemes);
    let ghost before_kinds = action_views(acts@);
    let mut i: usize = 0;
    while i < kinds.len()
        invariant
            i <= kinds.len(),
            package_root@ == "src/"@ + module@ + "/"@,
            action_views(acts@) == before_kinds + kind_renders("src/"@ + module@ + "/"@, kinds@.take(i as int), strategy_template_table()),
        decreases kinds.len() - i,
    {
        let (template, out) = strategy_template(kinds[i]);
        push_render(&mut acts, package_root.as_str(), template, out);
        assert(kind_renders("src/"@ + module@ + "/"@, kinds@.take(i + 1), strategy_template_table()) =~= kind_renders("src/"@ + module@ + "/"@, kinds@.take(i as int), strategy_template_table()).push(action_views(acts@).last()));
        i = i + 1;
    }
    assert(kinds@.take(kinds.len() as int) =~= kinds@);
    assert(action_views(acts@) =~= auth_plan(spec_py_module_name(ctx.output_dir@, ctx.api_title@), ctx.auth_schemes@));
    acts
}


/// Each kind's strategy module is named after its `auth_method` value (`api_key` for API keys), so each scheme gets its own kind's strategy.
pub proof fn law_strategy_file_per_kind()
    ensures
        forall|k: AuthSchemeKind| #[trigger] spec_strategy_template(k).1 == "auth/strategies/"@ + (if k == AuthSchemeKind::ApiKey { "api_key"@ } else { spec_method_key(k) }) + ".py"@,
{
    law_method_keys_and_idents();
    reveal_strlit(".py");
    reveal_strlit("api_key");
    reveal_strlit("auth/strategies/");
    reveal_strlit("auth/strategies/api_key.py");
    reveal_strlit("auth/strategies/basic.py");
    reveal_strlit("auth/strategies/oauth1.py");
    reveal_strlit("auth/strategies/oauth2.py");
    reveal_strlit("auth/strategies/pat.py");
    reveal_strlit("basic");
    reveal_strlit("oauth1");
    reveal_strlit("oauth2");
    reveal_strlit("pat");
    assert(spec_strategy_template(AuthSchemeKind::Basic).1 =~= "auth/strategies/"@ + "basic"@ + ".py"@);
    assert(spec_strategy_template(AuthSchemeKind::ApiKey).1 =~= "auth/strategies/"@ + "api_key"@ + ".py"@);
    assert(spec_strategy_template(AuthSchemeKind::BearerPat).1 =~= "auth/strategies/"@ + "pat"@ + ".py"@);
    assert(spec_strategy_template(AuthSchemeKind::OAuth2).1 =~= "auth/strategies/"@ + "oauth2"@ + ".py"@);
    assert(spec_strategy_template(AuthSchemeKind::OAuth1).1 =~= "auth/strategies/"@ + "oauth1"@ + ".py"@);
}


/// Each row of `shared_files` renders the template of the same name: its output
/// is the template's path without `.tera`, under `src/` for sources.
pub proof fn law_shared_files_outputs_match_templates()
    ensures
        forall|i: int|
            0 <= i < shared_files().len() ==> {
                let t = #[trigger] shared_files()[i].0;
                let o = shared_files()[i].1;
                &&& t.len() >= 5
                &&& t.skip(t.len() - 5) == ".tera"@
                &&& (o == t.take(t.len() - 5) || o == "src/"@ + t.take(t.len() - 5))
            },
{
    reveal_strlit(".tera");
    reveal_strlit("auth/__init__.py");
    reveal_strlit("auth/__init__.py.tera");
    reveal_strlit("auth/auth_manager.py");
    reveal_strlit("auth/auth_manager.py.tera");
    reveal_strlit("auth/auth_strategy.py");
    reveal_strlit("auth/auth_strategy.py.tera");
    reveal_strlit("auth/errors.py");
    reveal_strlit("auth/errors.py.tera");
    reveal_strlit("auth/request_credentials.py");
    reveal_strlit("auth/request_credentials.py.tera");
    reveal_strlit("auth/strategies/__init__.py");
    reveal_strlit("auth/strategies/__init__.py.tera");
    reveal_strlit("auth/strategies/stub.py");
    reveal_strlit("auth/strategies/stub.py.tera");
    reveal_strlit("src/");
    assert(shared_files()[0].0.skip(21 - 5) =~= ".tera"@);
    assert(shared_files()[0].1 =~= shared_files()[0].0.take(21 - 5));
    assert(shared_files()[1].0.skip(26 - 5) =~= ".tera"@);
    assert(shared_files()[1].1 =~= shared_files()[1].0.take(26 - 5));
    assert(shared_files()[2].0.skip(19 - 5) =~= ".tera"@);
    assert(shared_files()[2].1 =~= shared_files()[2].0.take(19 - 5));
    assert(shared_files()[3].0.skip(32 - 5) =~= ".tera"@);
    assert(shared_files()[3].1 =~= shared_files()[3].0.take(32 - 5));
    assert(shared_files()[4].0.skip(32 - 5) =~= ".tera"@);
    assert(shared_files()[4].1 =~= shared_files()[4].0.take(32 - 5));
    assert(shared_files()[5].0.skip(28 - 5) =~= ".tera"@);
    assert(shared_files()[5].1 =~= shared_files()[5].0.take(28 - 5));
    assert(shared_files()[6].0.skip(25 - 5) =~= ".tera"@);
    assert(shared_files()[6].1 =~= shared_files()[6].0.take(25 - 5));
    assert(shared_files().len() == 7);
}

} // verus!
