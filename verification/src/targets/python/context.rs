//! The render context every Python template is fed.

use crate::auth_profile::{
    auth_method_ident, auth_method_key, location_view, spec_location_view, spec_method_ident,
    spec_method_key, AuthSchemeDescriptor, AuthSchemeKind,
};
use crate::case::{heck_pascal, heck_shouty_snake, heck_snake};
use crate::context::{slug_or_title, spec_slug_or_title, 
    clone_opt_string, distinct_kinds, first_index_of_kind, first_occurrences, first_scheme_of_kind,
    lemma_first_occurrences, output_dir_file_name, path_file_name, scheme_kinds,
    spec_version_entry, GeneratorContext, NormalizedOperation, VersionEntryView, STORE_FILE_NAME,
};
use crate::project_config::{HeaderSetting, ProjectSettings, PublicationMetadata};
use crate::targets::python::naming::{pascal_case, screaming_snake_case, snake_case};
use crate::text::{join, replace_char, replace_char_spec, seq_join, string_views};
use crate::words::{insert_sorted, lemma_sorted_elements, sorted_elements, split_white_space, split_whitespace, strictly_sorted};
use vstd::prelude::*;
use vstd::string::*;

verus! {

/// Where the generated schemas asset lands inside the Python package.
pub const GENERATED_SCHEMAS_RELATIVE_PATH: &'static str = "validation/generated_schemas.json";

/// One discovered auth scheme as the templates need it.
#[derive(Debug)]
pub struct PyAuthSchemeView {
    pub name: String,
    pub method_key: &'static str,
    pub header_location: &'static str,
    pub header_name: String,
    /// The scheme's declared OAuth2 scopes, space-joined.
    pub scopes: String,
    pub authorization_url: Option<String>,
    pub token_url: Option<String>,
}

/// One entry of the deduplicated auth-method list.
#[derive(Debug)]
pub struct PyAuthMethodView {
    pub key: &'static str,
    /// PascalCase class name of the strategy.
    pub class_name: &'static str,
    pub header_location: &'static str,
    pub header_name: String,
    /// Every word of every same-kind scheme's scopes, sorted, each once,
    /// space-joined.
    pub scopes: String,
    /// The first same-kind scheme's declared flow URLs.
    pub authorization_url: Option<String>,
    pub token_url: Option<String>,
}

/// One operation as the tool/schema templates need it.
#[derive(Debug)]
pub struct PyOperationView {
    pub operation_id: String,
    pub path: String,
    pub method: String,
    pub summary: Option<String>,
    pub description: Option<String>,
}

/// The single render context every Python template is fed.
#[derive(Debug)]
pub struct PyTemplateContext {
    /// kebab-case slug: the project directory and distribution name.
    pub project_name: String,
    pub package_name: String,
    /// `project_name` in `snake_case`: the importable package directory.
    pub module_name: String,
    /// The OpenAPI `info.title`.
    pub display_name: String,
    /// Class name of the generated target-API HTTP client.
    pub client_class_name: String,
    pub tool_prefix: String,
    /// `tool_prefix` as `SCREAMING_SNAKE_CASE`, for env var names.
    pub tool_prefix_env: String,
    pub auth_schemes: Vec<PyAuthSchemeView>,
    /// Distinct `method_key`s in discovery order.
    pub auth_method_keys: Vec<&'static str>,
    /// One entry per `auth_method_keys` entry, in the same order.
    pub auth_methods: Vec<PyAuthMethodView>,
    pub operations: Vec<PyOperationView>,
    /// Whether the release workflow publishes to the package registry.
    pub publish_registry: bool,
    pub default_headers: Vec<HeaderSetting>,
    pub publication: PublicationMetadata,
    pub version_entries: Vec<VersionEntryView>,
    pub default_version_label: String,
}

/// kebab-case via `snake_case` and hyphen substitution, matching PyPI's
/// hyphenated distribution-name convention.
pub open spec fn spec_py_slug(input: Seq<char>) -> Seq<char> {
    replace_char_spec(heck_snake(input), '_', '-')
}

pub open spec fn spec_py_project_name(output_dir: Seq<char>, api_title: Seq<char>) -> Seq<char> {
    spec_slug_or_title(
        match path_file_name(output_dir) {
            Some(n) => Some(spec_py_slug(n)),
            None => None,
        },
        spec_py_slug(api_title),
    )
}

fn kebab_slug(input: &str) -> (r: String)
    ensures
        r@ == spec_py_slug(input@),
{
    let snake = snake_case(input);
    replace_char(snake.as_str(), '_', '-')
}

fn py_project_name(ctx: &GeneratorContext) -> (r: String)
    ensures
        r@ == spec_py_project_name(ctx.output_dir@, ctx.api_title@),
{
    let dir_slug = match output_dir_file_name(ctx.output_dir.as_str()) {
        Some(name) => Some(kebab_slug(name.as_str())),
        None => None,
    };
    slug_or_title(dir_slug, kebab_slug(ctx.api_title.as_str()))
}

/// The importable package name: the project slug in `snake_case`.
pub open spec fn spec_py_module_name(output_dir: Seq<char>, api_title: Seq<char>) -> Seq<char> {
    heck_snake(spec_py_project_name(output_dir, api_title))
}

pub fn module_name(ctx: &GeneratorContext) -> (r: String)
    ensures
        r@ == spec_py_module_name(ctx.output_dir@, ctx.api_title@),
{
    let project_name = py_project_name(ctx);
    snake_case(project_name.as_str())
}

/// The words of one scheme's space-joined scopes.
pub open spec fn scheme_scope_words(d: AuthSchemeDescriptor) -> Seq<Seq<char>> {
    split_white_space(seq_join(string_views(d.scopes@), " "@))
}

/// Every scope word of every scheme of `kind` among `s`.
pub open spec fn kind_scope_words(s: Seq<AuthSchemeDescriptor>, kind: AuthSchemeKind) -> Set<Seq<char>> {
    Set::new(
        |w: Seq<char>|
            exists|j: int|
                0 <= j < s.len() && #[trigger] s[j].kind == kind && scheme_scope_words(s[j]).contains(w),
    )
}

/// The scopes text of the auth method of `kind`: its scope words sorted,
/// each once, space-joined.
pub open spec fn spec_kind_scopes(s: Seq<AuthSchemeDescriptor>, kind: AuthSchemeKind) -> Seq<char> {
    seq_join(sorted_elements(kind_scope_words(s, kind)), " "@)
}

/// A kind none of whose schemes declares a scope has empty scopes text; so
/// only a kind whose schemes declare scopes (OAuth2 in practice) gets any.
pub proof fn law_kind_scopes_empty_without_declared_scopes(s: Seq<AuthSchemeDescriptor>, kind: AuthSchemeKind)
    requires
        forall|j: int| 0 <= j < s.len() && #[trigger] s[j].kind == kind ==> s[j].scopes@.len() == 0,
    ensures
        spec_kind_scopes(s, kind) == Seq::<char>::empty(),
{
    assert forall|j: int| 0 <= j < s.len() && #[trigger] s[j].kind == kind implies scheme_scope_words(s[j]).len()
        == 0 by {
        assert(string_views(s[j].scopes@) =~= Seq::<Seq<char>>::empty());
        assert(seq_join(string_views(s[j].scopes@), " "@) =~= Seq::<char>::empty());
    }
    assert(kind_scope_words(s, kind) =~= Set::<Seq<char>>::empty());
    let e = Seq::<Seq<char>>::empty();
    assert(strictly_sorted(e));
    lemma_sorted_elements(e);
    assert(e.to_set() =~= Set::<Seq<char>>::empty());
}

fn kind_scopes(schemes: &Vec<AuthSchemeDescriptor>, kind: AuthSchemeKind) -> (r: String)
    ensures
        r@ == spec_kind_scopes(schemes@, kind),
{
    let mut sorted: Vec<String> = Vec::new();
    let mut j: usize = 0;
    assert(string_views(sorted@).to_set() =~= kind_scope_words(schemes@.take(0), kind));
    while j < schemes.len()
        invariant
            j <= schemes.len(),
            strictly_sorted(string_views(sorted@)),
            string_views(sorted@).to_set() == kind_scope_words(schemes@.take(j as int), kind),
        decreases schemes.len() - j,
    {
        let ghost before = kind_scope_words(schemes@.take(j as int), kind);
        if schemes[j].kind == kind {
            let joined = join(&schemes[j].scopes, " ");
            let words = split_whitespace(joined.as_str());
            let ghost ws = scheme_scope_words(schemes@[j as int]);
            assert(string_views(words@) == ws);
            let mut t: usize = 0;
            assert(string_views(sorted@).to_set() =~= before.union(ws.take(0).to_set()));
            while t < words.len()
                invariant
                    t <= words.len(),
                    string_views(words@) == ws,
                    strictly_sorted(string_views(sorted@)),
                    string_views(sorted@).to_set() == before.union(ws.take(t as int).to_set()),
                decreases words.len() - t,
            {
                insert_sorted(&mut sorted, words[t].clone());
                assert(ws.take(t + 1) =~= ws.take(t as int).push(ws[t as int]));
                proof {
                    ws.take(t as int).lemma_push_to_set_commute(ws[t as int]);
                }
                assert(before.union(ws.take(t + 1).to_set()) =~= before.union(ws.take(t as int).to_set()).insert(ws[t as int]));
                t = t + 1;
            }
            assert(ws.take(words.len() as int) =~= ws);
            assert forall|w: Seq<char>| kind_scope_words(schemes@.take(j + 1), kind).contains(w) <==> before.union(ws.to_set()).contains(w) by {
                let s1 = schemes@.take(j + 1);
                if kind_scope_words(s1, kind).contains(w) {
                    let m = choose|m: int| 0 <= m < s1.len() && #[trigger] s1[m].kind == kind && scheme_scope_words(s1[m]).contains(w);
                    if m < j {
                        assert(schemes@.take(j as int)[m] == s1[m]);
                    }
                }
                if before.contains(w) {
                    let m = choose|m: int| 0 <= m < j && #[trigger] schemes@.take(j as int)[m].kind == kind && scheme_scope_words(schemes@.take(j as int)[m]).contains(w);
                    assert(s1[m] == schemes@.take(j as int)[m]);
                }
                if ws.to_set().contains(w) {
                    assert(s1[j as int] == schemes@[j as int]);
                }
            }
            assert(kind_scope_words(schemes@.take(j + 1), kind) =~= before.union(ws.to_set()));
        } else {
            assert forall|w: Seq<char>| kind_scope_words(schemes@.take(j + 1), kind).contains(w) <==> before.contains(w) by {
                let s1 = schemes@.take(j + 1);
                if kind_scope_words(s1, kind).contains(w) {
                    let m = choose|m: int| 0 <= m < s1.len() && #[trigger] s1[m].kind == kind && scheme_scope_words(s1[m]).contains(w);
                    assert(m != j);
                    assert(schemes@.take(j as int)[m] == s1[m]);
                }
                if before.contains(w) {
                    let m = choose|m: int| 0 <= m < j && #[trigger] schemes@.take(j as int)[m].kind == kind && scheme_scope_words(schemes@.take(j as int)[m]).contains(w);
                    assert(s1[m] == schemes@.take(j as int)[m]);
                }
            }
            assert(kind_scope_words(schemes@.take(j + 1), kind) =~= before);
        }
        j = j + 1;
    }
    assert(schemes@.take(schemes.len() as int) =~= schemes@);
    proof {
        lemma_sorted_elements(string_views(sorted@));
    }
    join(&sorted, " ")
}

pub open spec fn py_scheme_view_matches(v: PyAuthSchemeView, d: AuthSchemeDescriptor) -> bool {
    &&& v.name == d.name
    &&& v.method_key@ == spec_method_key(d.kind)
    &&& (v.header_location@, v.header_name@) == spec_location_view(d.location)
    &&& v.scopes@ == seq_join(string_views(d.scopes@), " "@)
    &&& v.authorization_url == d.authorization_url
    &&& v.token_url == d.token_url
}

pub open spec fn py_method_view_matches(
    v: PyAuthMethodView,
    s: Seq<AuthSchemeDescriptor>,
    kind: AuthSchemeKind,
) -> bool {
    let first = s[first_index_of_kind(s, kind)];
    &&& v.key@ == spec_method_key(kind)
    &&& v.class_name@ == spec_method_ident(kind)
    &&& (v.header_location@, v.header_name@) == spec_location_view(first.location)
    &&& v.scopes@ == spec_kind_scopes(s, kind)
    &&& v.authorization_url == first.authorization_url
    &&& v.token_url == first.token_url
}

pub open spec fn py_operation_view_matches(v: PyOperationView, op: NormalizedOperation) -> bool {
    &&& v.operation_id == op.operation_id
    &&& v.path == op.path
    &&& v.method == op.method
    &&& v.summary == op.summary
    &&& v.description == op.description
}

impl PyTemplateContext {
    /// Derives the render context from the generation request and the
    /// project's settings.
    pub fn from_context(ctx: &GeneratorContext, settings: ProjectSettings) -> (r: Self)
        ensures
            r.project_name@ == spec_py_project_name(ctx.output_dir@, ctx.api_title@),
            r.package_name == r.project_name,
            r.tool_prefix == r.project_name,
            r.module_name@ == heck_snake(r.project_name@),
            r.tool_prefix_env@ == heck_shouty_snake(r.project_name@),
            r.display_name == ctx.api_title,
            r.client_class_name@ == heck_pascal(ctx.api_title@) + "Client"@,
            r.auth_schemes.len() == ctx.auth_schemes.len(),
            forall|i: int|
                0 <= i < ctx.auth_schemes.len() ==> py_scheme_view_matches(
                    #[trigger] r.auth_schemes@[i],
                    ctx.auth_schemes@[i],
                ),
            r.auth_method_keys.len() == first_occurrences(scheme_kinds(ctx.auth_schemes@)).len(),
            r.auth_methods.len() == r.auth_method_keys.len(),
            forall|i: int|
                0 <= i < r.auth_method_keys.len() ==> {
                    let kind = first_occurrences(scheme_kinds(ctx.auth_schemes@))[i];
                    &&& (#[trigger] r.auth_method_keys@[i])@ == spec_method_key(kind)
                    &&& r.auth_methods@[i].key == r.auth_method_keys@[i]
                    &&& py_method_view_matches(r.auth_methods@[i], ctx.auth_schemes@, kind)
                },
            r.operations.len() == ctx.normalized_operations.len(),
            forall|i: int|
                0 <= i < ctx.normalized_operations.len() ==> py_operation_view_matches(
                    #[trigger] r.operations@[i],
                    ctx.normalized_operations@[i],
                ),
            r.publish_registry == ctx.publish_registry,
            r.default_headers == settings.default_headers,
            r.publication == settings.publication,
            r.version_entries.len() == 1,
            r.version_entries@[0]@ == spec_version_entry(
                ctx.version_label@,
                STORE_FILE_NAME@,
                "src/"@ + r.module_name@ + "/"@ + GENERATED_SCHEMAS_RELATIVE_PATH@,
            ),
            r.default_version_label == ctx.version_label,
    {
        let project_name = py_project_name(ctx);
        let module_name = snake_case(project_name.as_str());
        let mut client_class_name = pascal_case(ctx.api_title.as_str());
        client_class_name.append("Client");

        let mut auth_schemes: Vec<PyAuthSchemeView> = Vec::new();
        let mut i: usize = 0;
        while i < ctx.auth_schemes.len()
            invariant
                i <= ctx.auth_schemes.len(),
                auth_schemes.len() == i,
                forall|j: int|
                    0 <= j < i ==> py_scheme_view_matches(
                        #[trigger] auth_schemes@[j],
                        ctx.auth_schemes@[j],
                    ),
            decreases ctx.auth_schemes.len() - i,
        {
            let scheme = &ctx.auth_schemes[i];
            let (header_location, header_name) = location_view(&scheme.location);
            auth_schemes.push(
                PyAuthSchemeView {
                    name: scheme.name.clone(),
                    method_key: auth_method_key(scheme.kind),
                    header_location,
                    header_name,
                    scopes: join(&scheme.scopes, " "),
                    authorization_url: clone_opt_string(&scheme.authorization_url),
                    token_url: clone_opt_string(&scheme.token_url),
                },
            );
            i = i + 1;
        }

        let mut operations: Vec<PyOperationView> = Vec::new();
        let mut i: usize = 0;
        while i < ctx.normalized_operations.len()
            invariant
                i <= ctx.normalized_operations.len(),
                operations.len() == i,
                forall|j: int|
                    0 <= j < i ==> py_operation_view_matches(
                        #[trigger] operations@[j],
                        ctx.normalized_operations@[j],
                    ),
            decreases ctx.normalized_operations.len() - i,
        {
            let op = &ctx.normalized_operations[i];
            operations.push(
                PyOperationView {
                    operation_id: op.operation_id.clone(),
                    path: op.path.clone(),
                    method: op.method.clone(),
                    summary: clone_opt_string(&op.summary),
                    description: clone_opt_string(&op.description),
                },
            );
            i = i + 1;
        }

        let tool_prefix_env = screaming_snake_case(project_name.as_str());

        let kinds = distinct_kinds(&ctx.auth_schemes);
        let ghost dk = first_occurrences(scheme_kinds(ctx.auth_schemes@));
        proof {
            lemma_first_occurrences(scheme_kinds(ctx.auth_schemes@));
        }
        let mut auth_method_keys: Vec<&'static str> = Vec::new();
        let mut auth_methods: Vec<PyAuthMethodView> = Vec::new();
        let mut i: usize = 0;
        while i < kinds.len()
            invariant
                kinds@ == dk,
                forall|x| dk.contains(x) <==> scheme_kinds(ctx.auth_schemes@).contains(x),
                i <= kinds.len(),
                auth_method_keys.len() == i,
                auth_methods.len() == i,
                forall|j: int|
                    0 <= j < i ==> {
                        &&& (#[trigger] auth_method_keys@[j])@ == spec_method_key(dk[j])
                        &&& auth_methods@[j].key == auth_method_keys@[j]
                        &&& py_method_view_matches(auth_methods@[j], ctx.auth_schemes@, dk[j])
                    },
            decreases kinds.len() - i,
        {
            let kind = kinds[i];
            assert(dk.contains(dk[i as int]));
            let key = auth_method_key(kind);
            let first = first_scheme_of_kind(&ctx.auth_schemes, kind);
            let (header_location, header_name) = location_view(&ctx.auth_schemes[first].location);
            auth_method_keys.push(key);
            auth_methods.push(
                PyAuthMethodView {
                    key,
                    class_name: auth_method_ident(kind),
                    header_location,
                    header_name,
                    scopes: kind_scopes(&ctx.auth_schemes, kind),
                    authorization_url: clone_opt_string(&ctx.auth_schemes[first].authorization_url),
                    token_url: clone_opt_string(&ctx.auth_schemes[first].token_url),
                },
            );
            i = i + 1;
        }

        let mut schemas_relative = String::from_str("src/");
        schemas_relative.append(module_name.as_str());
        schemas_relative.append("/");
        schemas_relative.append(GENERATED_SCHEMAS_RELATIVE_PATH);
        let entry = VersionEntryView::from_project_relative_paths(
            ctx.version_label.as_str(),
            STORE_FILE_NAME,
            schemas_relative.as_str(),
        );
        let mut version_entries: Vec<VersionEntryView> = Vec::new();
        version_entries.push(entry);

        PyTemplateContext {
            package_name: project_name.clone(),
            module_name,
            tool_prefix: project_name.clone(),
            project_name,
            tool_prefix_env,
            display_name: ctx.api_title.clone(),
            client_class_name,
            auth_schemes,
            auth_method_keys,
            auth_methods,
            operations,
            publish_registry: ctx.publish_registry,
            default_headers: settings.default_headers,
            publication: settings.publication,
            version_entries,
            default_version_label: ctx.version_label.clone(),
        }
    }
}

} // verus!
