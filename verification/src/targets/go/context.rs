//! The render context every Go template is fed.

use crate::auth_profile::{
    auth_method_ident, auth_method_key, spec_method_ident, spec_method_key, AuthSchemeDescriptor,
};
use crate::case::{heck_pascal, heck_shouty_snake};
use crate::context::{slug_or_title, spec_slug_or_title, 
    clone_opt_string, distinct_kinds, first_occurrences, output_dir_file_name, path_file_name,
    scheme_kinds, spec_version_entry, GeneratorContext, NormalizedOperation, VersionEntryView,
    STORE_FILE_NAME,
};
use crate::targets::go::naming::{pascal_case, screaming_snake_case};
use crate::text::{
    ascii_lower, ascii_lower_char, is_ascii_alnum, is_ascii_alnum_char, trim_end_char,
    trim_end_matches_char,
};
use vstd::prelude::*;
use vstd::string::*;

verus! {

/// Where the generated schemas asset lands in a Go project.
pub const GENERATED_SCHEMAS_RELATIVE_PATH: &'static str = "internal/validation/generated_schemas.json";

/// One discovered auth scheme as the templates need it.
#[derive(Debug)]
pub struct GoAuthSchemeView {
    pub name: String,
    pub method_key: &'static str,
}

/// One entry of the deduplicated auth-method list: the literal wire value
/// and the PascalCase Go type name of its strategy.
#[derive(Debug)]
pub struct GoAuthMethodView {
    pub key: &'static str,
    pub go_type_name: &'static str,
}

/// One operation as the tool/schema templates need it.
#[derive(Debug)]
pub struct GoOperationView {
    pub operation_id: String,
    pub path: String,
    pub method: String,
    pub summary: Option<String>,
    pub description: Option<String>,
}

/// The single render context every Go template is fed. A Go module path may
/// hold hyphens, so `go_module_path` is the same slug as `project_name`.
#[derive(Debug)]
pub struct GoTemplateContext {
    pub project_name: String,
    /// `go.mod`'s `module` directive and the root of every internal import.
    pub go_module_path: String,
    /// The OpenAPI `info.title`.
    pub display_name: String,
    /// Struct name of the generated target-API HTTP client.
    pub client_type_name: String,
    pub tool_prefix: String,
    /// `tool_prefix` as `SCREAMING_SNAKE_CASE`, for env var names.
    pub tool_prefix_env: String,
    pub auth_schemes: Vec<GoAuthSchemeView>,
    /// Distinct `method_key`s in discovery order.
    pub auth_method_keys: Vec<&'static str>,
    /// One entry per `auth_method_keys` entry, in the same order.
    pub auth_methods: Vec<GoAuthMethodView>,
    pub operations: Vec<GoOperationView>,
    pub version_entries: Vec<VersionEntryView>,
    pub default_version_label: String,
}

/// Left-to-right scan of the slug: ASCII letters and digits are kept (lower
/// case), and each run of other characters becomes one `-`, none before the
/// first kept character. The flag says whether the last thing seen was a
/// separator.
pub open spec fn ascii_slug_scan(s: Seq<char>) -> (Seq<char>, bool)
    decreases s.len(),
{
    if s.len() == 0 {
        (Seq::empty(), true)
    } else {
        let (slug, prev_is_sep) = ascii_slug_scan(s.drop_last());
        let c = s.last();
        if is_ascii_alnum(c) {
            (slug.push(ascii_lower(c)), false)
        } else if !prev_is_sep {
            (slug.push('-'), true)
        } else {
            (slug, true)
        }
    }
}

/// The lower-case, hyphen-separated ASCII slug of `s`, with no leading or
/// trailing hyphen.
pub open spec fn spec_ascii_slug(s: Seq<char>) -> Seq<char> {
    trim_end_char(ascii_slug_scan(s).0, '-')
}

/// A lower-case ASCII letter, a digit, or a hyphen.
pub open spec fn is_slug_char(c: char) -> bool {
    ('a' <= c && c <= 'z') || ('0' <= c && c <= '9') || c == '-'
}

/// Lower-case ASCII letters, digits and single hyphens between them.
pub open spec fn is_ascii_slug(t: Seq<char>) -> bool {
    &&& forall|i: int| 0 <= i < t.len() ==> is_slug_char(#[trigger] t[i])
    &&& t.len() > 0 ==> t[0] != '-' && t.last() != '-'
    &&& forall|i: int| 0 <= i < t.len() - 1 ==> !(#[trigger] t[i] == '-' && t[i + 1] == '-')
}

pub open spec fn has_ascii_alnum(s: Seq<char>) -> bool {
    exists|i: int| 0 <= i < s.len() && is_ascii_alnum(#[trigger] s[i])
}

proof fn lemma_ascii_slug_scan(s: Seq<char>)
    ensures
        ({
            let (t, sep) = ascii_slug_scan(s);
            &&& forall|i: int| 0 <= i < t.len() ==> is_slug_char(#[trigger] t[i])
            &&& t.len() > 0 ==> t[0] != '-'
            &&& forall|i: int| 0 <= i < t.len() - 1 ==> !(#[trigger] t[i] == '-' && t[i + 1] == '-')
            &&& sep <==> (t.len() == 0 || t.last() == '-')
            &&& t.len() > 0 <==> has_ascii_alnum(s)
        }),
    decreases s.len(),
{
    if s.len() > 0 {
        let p = s.drop_last();
        lemma_ascii_slug_scan(p);
        let c = s.last();
        let (t0, sep0) = ascii_slug_scan(p);
        let (t, sep) = ascii_slug_scan(s);
        assert(has_ascii_alnum(p) ==> has_ascii_alnum(s)) by {
            if has_ascii_alnum(p) {
                let i = choose|i: int| 0 <= i < p.len() && is_ascii_alnum(#[trigger] p[i]);
                assert(s[i] == p[i]);
            }
        }
        if is_ascii_alnum(c) {
            assert(s[s.len() - 1] == c);
            let l = ascii_lower(c);
            assert(is_slug_char(l)) by {
                if 'A' <= c && c <= 'Z' {
                    let u = c as u8;
                    assert(65 <= u <= 90);
                    assert(97 <= u + 32 <= 122);
                }
            }
            assert(t == t0.push(l));
        } else {
            assert(has_ascii_alnum(s) ==> has_ascii_alnum(p)) by {
                if has_ascii_alnum(s) {
                    let i = choose|i: int| 0 <= i < s.len() && is_ascii_alnum(#[trigger] s[i]);
                    assert(i < p.len());
                    assert(p[i] == s[i]);
                }
            }
        }
    }
}

proof fn lemma_trim_end_hyphens(t: Seq<char>)
    ensures
        trim_end_char(t, '-') == t.take(trim_end_char(t, '-').len() as int),
        trim_end_char(t, '-').len() <= t.len(),
        trim_end_char(t, '-').len() > 0 ==> trim_end_char(t, '-').last() != '-',
        t.len() > 0 && t[0] != '-' ==> trim_end_char(t, '-').len() > 0,
    decreases t.len(),
{
    if t.len() > 0 && t.last() == '-' {
        lemma_trim_end_hyphens(t.drop_last());
        let r = trim_end_char(t.drop_last(), '-');
        assert(t.drop_last().take(r.len() as int) =~= t.take(r.len() as int));
        if t.len() > 1 && t[0] != '-' {
            assert(t.drop_last()[0] == t[0]);
        }
    } else {
        assert(t.take(t.len() as int) =~= t);
    }
}

/// The Go slug is made of lower-case ASCII letters, digits and single
/// hyphens, never at either end, and it is empty exactly when the input has
/// no ASCII letter or digit.
pub proof fn law_ascii_slug_shape(s: Seq<char>)
    ensures
        is_ascii_slug(spec_ascii_slug(s)),
        spec_ascii_slug(s).len() > 0 <==> has_ascii_alnum(s),
{
    lemma_ascii_slug_scan(s);
    let t = ascii_slug_scan(s).0;
    lemma_trim_end_hyphens(t);
    let r = spec_ascii_slug(s);
    assert forall|i: int| 0 <= i < r.len() implies is_slug_char(#[trigger] r[i]) by {
        assert(r[i] == t[i]);
    }
    assert forall|i: int| 0 <= i < r.len() - 1 implies !(#[trigger] r[i] == '-' && r[i + 1] == '-') by {
        assert(r[i] == t[i] && r[i + 1] == t[i + 1]);
    }
    if r.len() > 0 {
        assert(r[0] == t[0]);
    }
}

/// The Go project name is a slug in that shape, non-empty whenever the API
/// title has an ASCII letter or digit.
pub proof fn law_go_project_name_shape(output_dir: Seq<char>, api_title: Seq<char>)
    ensures
        is_ascii_slug(spec_go_project_name(output_dir, api_title)),
        has_ascii_alnum(api_title) ==> spec_go_project_name(output_dir, api_title).len() > 0,
{
    law_ascii_slug_shape(api_title);
    if path_file_name(output_dir) is Some {
        law_ascii_slug_shape(path_file_name(output_dir)->0);
    }
}

/// kebab-case slug used for the project directory name and module path.
pub fn kebab_slug(input: &str) -> (r: String)
    ensures
        r@ == spec_ascii_slug(input@),
{
    let n = input.unicode_len();
    let mut slug = String::new();
    let mut prev_is_sep = true;
    let mut i: usize = 0;
    while i < n
        invariant
            n == input@.len(),
            i <= n,
            (slug@, prev_is_sep) == ascii_slug_scan(input@.take(i as int)),
        decreases n - i,
    {
        let ch = input.get_char(i);
        assert(input@.take(i + 1).drop_last() =~= input@.take(i as int));
        if is_ascii_alnum_char(ch) {
            slug.push(ascii_lower_char(ch));
            prev_is_sep = false;
        } else if !prev_is_sep {
            slug.push('-');
            prev_is_sep = true;
        }
        i = i + 1;
    }
    assert(input@.take(n as int) =~= input@);
    trim_end_matches_char(slug.as_str(), '-')
}

/// The final component of the output directory as a slug, or the API
/// title's slug when that component is missing or gives an empty slug.
pub open spec fn spec_go_project_name(output_dir: Seq<char>, api_title: Seq<char>) -> Seq<char> {
    spec_slug_or_title(
        match path_file_name(output_dir) {
            Some(n) => Some(spec_ascii_slug(n)),
            None => None,
        },
        spec_ascii_slug(api_title),
    )
}

pub fn go_project_name(ctx: &GeneratorContext) -> (r: String)
    ensures
        r@ == spec_go_project_name(ctx.output_dir@, ctx.api_title@),
{
    let dir_slug = match output_dir_file_name(ctx.output_dir.as_str()) {
        Some(name) => Some(kebab_slug(name.as_str())),
        None => None,
    };
    slug_or_title(dir_slug, kebab_slug(ctx.api_title.as_str()))
}

pub open spec fn go_scheme_view_matches(v: GoAuthSchemeView, d: AuthSchemeDescriptor) -> bool {
    &&& v.name == d.name
    &&& v.method_key@ == spec_method_key(d.kind)
}

pub open spec fn go_operation_view_matches(v: GoOperationView, op: NormalizedOperation) -> bool {
    &&& v.operation_id == op.operation_id
    &&& v.path == op.path
    &&& v.method == op.method
    &&& v.summary == op.summary
    &&& v.description == op.description
}

impl GoTemplateContext {
    /// Derives the render context from the generation request.
    pub fn from_context(ctx: &GeneratorContext) -> (r: Self)
        ensures
            r.project_name@ == spec_go_project_name(ctx.output_dir@, ctx.api_title@),
            r.go_module_path == r.project_name,
            r.tool_prefix == r.project_name,
            r.tool_prefix_env@ == heck_shouty_snake(r.project_name@),
            r.display_name == ctx.api_title,
            r.client_type_name@ == heck_pascal(ctx.api_title@) + "Client"@,
            r.auth_schemes.len() == ctx.auth_schemes.len(),
            forall|i: int|
                0 <= i < ctx.auth_schemes.len() ==> go_scheme_view_matches(
                    #[trigger] r.auth_schemes@[i],
                    ctx.auth_schemes@[i],
                ),
            r.auth_method_keys.len() == first_occurrences(scheme_kinds(ctx.auth_schemes@)).len(),
            r.auth_methods.len() == r.auth_method_keys.len(),
            forall|i: int|
                0 <= i < r.auth_method_keys.len() ==> {
                    let kind = first_occurrences(scheme_kinds(ctx.auth_schemes@))[i];
                    &&& (#[trigger] r.auth_method_keys@[i])@ == spec_method_key(kind)
                    &&& r.auth_methods@[i].key == r.auth_method_keys@[i]
                    &&& r.auth_methods@[i].go_type_name@ == spec_method_ident(kind)
                },
            r.operations.len() == ctx.normalized_operations.len(),
            forall|i: int|
                0 <= i < ctx.normalized_operations.len() ==> go_operation_view_matches(
                    #[trigger] r.operations@[i],
                    ctx.normalized_operations@[i],
                ),
            r.version_entries.len() == 1,
            r.version_entries@[0]@ == spec_version_entry(
                ctx.version_label@,
                STORE_FILE_NAME@,
                GENERATED_SCHEMAS_RELATIVE_PATH@,
            ),
            r.default_version_label == ctx.version_label,
    {
        let project_name = go_project_name(ctx);
        let mut client_type_name = pascal_case(ctx.api_title.as_str());
        client_type_name.append("Client");

        let mut auth_schemes: Vec<GoAuthSchemeView> = Vec::new();
        let mut i: usize = 0;
        while i < ctx.auth_schemes.len()
            invariant
                i <= ctx.auth_schemes.len(),
                auth_schemes.len() == i,
                forall|j: int|
                    0 <= j < i ==> go_scheme_view_matches(
                        #[trigger] auth_schemes@[j],
                        ctx.auth_schemes@[j],
                    ),
            decreases ctx.auth_schemes.len() - i,
        {
            let scheme = &ctx.auth_schemes[i];
            auth_schemes.push(
                GoAuthSchemeView { name: scheme.name.clone(), method_key: auth_method_key(scheme.kind) },
            );
            i = i + 1;
        }

        let mut operations: Vec<GoOperationView> = Vec::new();
        let mut i: usize = 0;
        while i < ctx.normalized_operations.len()
            invariant
                i <= ctx.normalized_operations.len(),
                operations.len() == i,
                forall|j: int|
                    0 <= j < i ==> go_operation_view_matches(
                        #[trigger] operations@[j],
                        ctx.normalized_operations@[j],
                    ),
            decreases ctx.normalized_operations.len() - i,
        {
            let op = &ctx.normalized_operations[i];
            operations.push(
                GoOperationView {
                    operation_id: op.operation_id.clone(),
                    path: op.path.clone(),
                    method: op.method.clone(),
                    summary: clone_opt_string(&op.summary),
                    description: clone_opt_string(&op.description),
                },
            );
            i = i + 1;
        }

        let tool_prefix_env = screaming_snake_case(project_name.as_str());

        let kinds = distinct_kinds(&ctx.auth_schemes);
        let ghost dk = first_occurrences(scheme_kinds(ctx.auth_schemes@));
        let mut auth_method_keys: Vec<&'static str> = Vec::new();
        let mut auth_methods: Vec<GoAuthMethodView> = Vec::new();
        let mut i: usize = 0;
        while i < kinds.len()
            invariant
                kinds@ == dk,
                i <= kinds.len(),
                auth_method_keys.len() == i,
                auth_methods.len() == i,
                forall|j: int|
                    0 <= j < i ==> {
                        &&& (#[trigger] auth_method_keys@[j])@ == spec_method_key(dk[j])
                        &&& auth_methods@[j].key == auth_method_keys@[j]
                        &&& auth_methods@[j].go_type_name@ == spec_method_ident(dk[j])
                    },
            decreases kinds.len() - i,
        {
            let key = auth_method_key(kinds[i]);
            auth_method_keys.push(key);
            auth_methods.push(GoAuthMethodView { key, go_type_name: auth_method_ident(kinds[i]) });
            i = i + 1;
        }

        let entry = VersionEntryView::from_project_relative_paths(
            ctx.version_label.as_str(),
            STORE_FILE_NAME,
            GENERATED_SCHEMAS_RELATIVE_PATH,
        );
        let mut version_entries: Vec<VersionEntryView> = Vec::new();
        version_entries.push(entry);

        GoTemplateContext {
            go_module_path: project_name.clone(),
            tool_prefix: project_name.clone(),
            project_name,
            tool_prefix_env,
            display_name: ctx.api_title.clone(),
            client_type_name,
            auth_schemes,
            auth_method_keys,
            auth_methods,
            operations,
            version_entries,
            default_version_label: ctx.version_label.clone(),
        }
    }
}

} // verus!
