//! The render context every Rust template is fed.

use crate::auth_profile::{
    auth_method_ident, auth_method_key, spec_method_ident, spec_method_key, AuthSchemeDescriptor,
};
use crate::case::{heck_pascal, heck_shouty_snake, heck_snake};
use crate::context::{slug_or_title, spec_slug_or_title, 
    clone_opt_string, distinct_kinds, first_occurrences, output_dir_file_name, path_file_name,
    scheme_kinds, GeneratorContext, NormalizedOperation,
};
use crate::targets::rust::naming::{pascal_case, screaming_snake_case, snake_case};
use crate::text::{replace_char, replace_char_spec};
use vstd::prelude::*;
use vstd::string::*;

verus! {

/// One discovered auth scheme as the templates need it.
#[derive(Debug)]
pub struct RsAuthSchemeView {
    pub name: String,
    pub method_key: &'static str,
}

/// One variant of the generated `AuthMethod` enum: the literal wire value
/// and its PascalCase Rust identifier.
#[derive(Debug)]
pub struct RsAuthMethodView {
    pub key: &'static str,
    pub variant_name: &'static str,
}

/// One operation as the tool/schema templates need it.
#[derive(Debug)]
pub struct RsOperationView {
    pub operation_id: String,
    pub path: String,
    pub method: String,
    pub summary: Option<String>,
    pub description: Option<String>,
}

/// The single render context every Rust template is fed.
#[derive(Debug)]
pub struct RsTemplateContext {
    /// kebab-case slug: the project directory name and Cargo package name.
    pub project_name: String,
    pub package_name: String,
    /// `project_name` in `snake_case`, for Rust paths.
    pub crate_name: String,
    /// The OpenAPI `info.title`.
    pub display_name: String,
    /// Struct name of the generated target-API HTTP client.
    pub client_struct_name: String,
    pub tool_prefix: String,
    /// `tool_prefix` as `SCREAMING_SNAKE_CASE`, for env var names.
    pub tool_prefix_env: String,
    pub auth_schemes: Vec<RsAuthSchemeView>,
    /// Distinct `method_key`s in discovery order.
    pub auth_method_keys: Vec<&'static str>,
    /// One enum variant per `auth_method_keys` entry, in the same order.
    pub auth_methods: Vec<RsAuthMethodView>,
    pub operations: Vec<RsOperationView>,
}

/// kebab-case via `snake_case` and hyphen substitution, matching Cargo's
/// hyphenated package-name convention.
pub open spec fn spec_snake_slug(input: Seq<char>) -> Seq<char> {
    replace_char_spec(heck_snake(input), '_', '-')
}

/// The final component of the output directory as a slug, or the API
/// title's slug when that component is missing or gives an empty slug.
pub open spec fn spec_rs_project_name(output_dir: Seq<char>, api_title: Seq<char>) -> Seq<char> {
    spec_slug_or_title(
        match path_file_name(output_dir) {
            Some(n) => Some(spec_snake_slug(n)),
            None => None,
        },
        spec_snake_slug(api_title),
    )
}

fn kebab_slug(input: &str) -> (r: String)
    ensures
        r@ == spec_snake_slug(input@),
{
    let snake = snake_case(input);
    replace_char(snake.as_str(), '_', '-')
}

pub fn rs_project_name(ctx: &GeneratorContext) -> (r: String)
    ensures
        r@ == spec_rs_project_name(ctx.output_dir@, ctx.api_title@),
{
    let dir_slug = match output_dir_file_name(ctx.output_dir.as_str()) {
        Some(name) => Some(kebab_slug(name.as_str())),
        None => None,
    };
    slug_or_title(dir_slug, kebab_slug(ctx.api_title.as_str()))
}

pub open spec fn rs_scheme_view_matches(v: RsAuthSchemeView, d: AuthSchemeDescriptor) -> bool {
    &&& v.name == d.name
    &&& v.method_key@ == spec_method_key(d.kind)
}

pub open spec fn rs_operation_view_matches(v: RsOperationView, op: NormalizedOperation) -> bool {
    &&& v.operation_id == op.operation_id
    &&& v.path == op.path
    &&& v.method == op.method
    &&& v.summary == op.summary
    &&& v.description == op.description
}

impl RsTemplateContext {
    /// Derives the render context from the generation request.
    pub fn from_context(ctx: &GeneratorContext) -> (r: Self)
        ensures
            r.project_name@ == spec_rs_project_name(ctx.output_dir@, ctx.api_title@),
            r.package_name == r.project_name,
            r.tool_prefix == r.project_name,
            r.crate_name@ == heck_snake(r.project_name@),
            r.tool_prefix_env@ == heck_shouty_snake(r.project_name@),
            r.display_name == ctx.api_title,
            r.client_struct_name@ == heck_pascal(ctx.api_title@) + "Client"@,
            r.auth_schemes.len() == ctx.auth_schemes.len(),
            forall|i: int|
                0 <= i < ctx.auth_schemes.len() ==> rs_scheme_view_matches(
                    #[trigger] r.auth_schemes@[i],
                    ctx.auth_schemes@[i],
                ),
            r.auth_method_keys.len() == first_occurrences(scheme_kinds(ctx.auth_schemes@)).len(),
            r.auth_methods.len() == r.auth_method_keys.len(),
            forall|i: int|
                0 <= i < r.auth_method_keys.len() ==> {
                    let kind = first_occurrences(scheme_kinds(ctx.auth_schemes@))[i];
                    &&& (#[trigger] r.auth_method_keys@[i])@ == spec_method_key(kind)
                    &&& r.auth_methods@[i].key == r.auth_method_keys@[i]
                    &&& r.auth_methods@[i].variant_name@ == spec_method_ident(kind)
                },
            r.operations.len() == ctx.normalized_operations.len(),
            forall|i: int|
                0 <= i < ctx.normalized_operations.len() ==> rs_operation_view_matches(
                    #[trigger] r.operations@[i],
                    ctx.normalized_operations@[i],
                ),
    {
        let project_name = rs_project_name(ctx);
        let crate_name = snake_case(project_name.as_str());
        let mut client_struct_name = pascal_case(ctx.api_title.as_str());
        client_struct_name.append("Client");

        let mut auth_schemes: Vec<RsAuthSchemeView> = Vec::new();
        let mut i: usize = 0;
        while i < ctx.auth_schemes.len()
            invariant
                i <= ctx.auth_schemes.len(),
                auth_schemes.len() == i,
                forall|j: int|
                    0 <= j < i ==> rs_scheme_view_matches(
                        #[trigger] auth_schemes@[j],
                        ctx.auth_schemes@[j],
                    ),
            decreases ctx.auth_schemes.len() - i,
        {
            let scheme = &ctx.auth_schemes[i];
            auth_schemes.push(
                RsAuthSchemeView { name: scheme.name.clone(), method_key: auth_method_key(scheme.kind) },
            );
            i = i + 1;
        }

        let mut operations: Vec<RsOperationView> = Vec::new();
        let mut i: usize = 0;
        while i < ctx.normalized_operations.len()
            invariant
                i <= ctx.normalized_operations.len(),
                operations.len() == i,
                forall|j: int|
                    0 <= j < i ==> rs_operation_view_matches(
                        #[trigger] operations@[j],
                        ctx.normalized_operations@[j],
                    ),
            decreases ctx.normalized_operations.len() - i,
        {
            let op = &ctx.normalized_operations[i];
            operations.push(
                RsOperationView {
                    operation_id: op.operation_id.clone(),
                    path: op.path.clone(),
                    method: op.method.clone(),
                    summary: clone_opt_string(&op.summary),
                    description: clone_opt_string(&op.description),
                },
            );
            i = i + 1;
        }

        let tool_prefix_env = screaming_snake_case(project_name.as_str());

        let kinds = distinct_kinds(&ctx.auth_schemes);
        let ghost dk = first_occurrences(scheme_kinds(ctx.auth_schemes@));
        let mut auth_method_keys: Vec<&'static str> = Vec::new();
        let mut auth_methods: Vec<RsAuthMethodView> = Vec::new();
        let mut i: usize = 0;
        while i < kinds.len()
            invariant
                kinds@ == dk,
                i <= kinds.len(),
                auth_method_keys.len() == i,
                auth_methods.len() == i,
                forall|j: int|
                    0 <= j < i ==> {
                        &&& (#[trigger] auth_method_keys@[j])@ == spec_method_key(dk[j])
                        &&& auth_methods@[j].key == auth_method_keys@[j]
                        &&& auth_methods@[j].variant_name@ == spec_method_ident(dk[j])
                    },
            decreases kinds.len() - i,
        {
            let key = auth_method_key(kinds[i]);
            auth_method_keys.push(key);
            auth_methods.push(RsAuthMethodView { key, variant_name: auth_method_ident(kinds[i]) });
            i = i + 1;
        }

        RsTemplateContext {
            package_name: project_name.clone(),
            crate_name,
            tool_prefix: project_name.clone(),
            project_name,
            tool_prefix_env,
            display_name: ctx.api_title.clone(),
            client_struct_name,
            auth_schemes,
            auth_method_keys,
            auth_methods,
            operations,
        }
    }
}

} // verus!
