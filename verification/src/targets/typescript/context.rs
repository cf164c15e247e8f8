//! The render context every TypeScript template is fed.

use crate::auth_profile::{
    auth_method_key, location_view, spec_location_view, spec_method_key, AuthSchemeDescriptor,
};
use crate::case::{heck_kebab, heck_pascal, heck_shouty_snake};
use crate::context::{slug_or_title, spec_slug_or_title, 
    clone_opt_string, distinct_kinds, first_index_of_kind, first_occurrences, first_scheme_of_kind,
    lemma_first_occurrences, output_dir_file_name, path_file_name, scheme_kinds,
    spec_version_entry, GeneratorContext, NormalizedOperation, VersionEntryView, STORE_FILE_NAME,
};
use crate::targets::typescript::naming::{kebab_case, pascal_case, screaming_snake_case};
use vstd::prelude::*;
use vstd::string::*;

verus! {

/// Where the zstd-compressed schemas asset lands in a TypeScript project.
pub const GENERATED_SCHEMAS_PATH: &'static str = "src/validation/generated-schemas.json.zst";

/// One discovered auth scheme as the templates need it: `method_key` is the
/// literal value the generated `auth_method` config field takes.
#[derive(Debug)]
pub struct TsAuthSchemeView {
    pub name: String,
    pub method_key: &'static str,
    pub header_location: &'static str,
    pub header_name: String,
}

/// One entry of the deduplicated auth-method list, with the location of the
/// first scheme of that kind: which incoming header the HTTP transport
/// expects for the active `auth_method`.
#[derive(Debug)]
pub struct TsAuthMethodLocationView {
    pub key: &'static str,
    pub header_location: &'static str,
    pub header_name: String,
}

/// One operation as the tool/schema templates need it.
#[derive(Debug)]
pub struct TsOperationView {
    pub operation_id: String,
    pub path: String,
    pub method: String,
    pub summary: Option<String>,
    pub description: Option<String>,
}

/// The single render context every TypeScript template is fed.
#[derive(Debug)]
pub struct TsTemplateContext {
    /// kebab-case slug used as the npm package name and CLI binary name.
    pub project_name: String,
    pub package_name: String,
    /// The OpenAPI `info.title`.
    pub display_name: String,
    /// Class name of the generated target-API HTTP client.
    pub client_class_name: String,
    pub tool_prefix: String,
    /// `tool_prefix` as `SCREAMING_SNAKE_CASE`, for env var names.
    pub tool_prefix_env: String,
    pub auth_schemes: Vec<TsAuthSchemeView>,
    /// Distinct `method_key`s in discovery order: the members of the
    /// generated `AuthMethod` string-literal union.
    pub auth_method_keys: Vec<&'static str>,
    /// One entry per `auth_method_keys` entry, in the same order.
    pub auth_method_locations: Vec<TsAuthMethodLocationView>,
    pub operations: Vec<TsOperationView>,
    /// Every version the project has a store for; one entry at generate time.
    pub version_entries: Vec<VersionEntryView>,
    pub default_version_label: String,
}

/// The project slug: the kebab-case final component of the output
/// directory, or of the API title when that component is missing or empty.
pub open spec fn spec_ts_project_name(output_dir: Seq<char>, api_title: Seq<char>) -> Seq<char> {
    spec_slug_or_title(
        match path_file_name(output_dir) {
            Some(n) => Some(heck_kebab(n)),
            None => None,
        },
        heck_kebab(api_title),
    )
}

pub open spec fn ts_scheme_view_matches(v: TsAuthSchemeView, d: AuthSchemeDescriptor) -> bool {
    &&& v.name == d.name
    &&& v.method_key@ == spec_method_key(d.kind)
    &&& (v.header_location@, v.header_name@) == spec_location_view(d.location)
}

pub open spec fn ts_operation_view_matches(v: TsOperationView, op: NormalizedOperation) -> bool {
    &&& v.operation_id == op.operation_id
    &&& v.path == op.path
    &&& v.method == op.method
    &&& v.summary == op.summary
    &&& v.description == op.description
}

fn ts_project_name(ctx: &GeneratorContext) -> (r: String)
    ensures
        r@ == spec_ts_project_name(ctx.output_dir@, ctx.api_title@),
{
    let dir_slug = match output_dir_file_name(ctx.output_dir.as_str()) {
        Some(name) => Some(kebab_case(name.as_str())),
        None => None,
    };
    slug_or_title(dir_slug, kebab_case(ctx.api_title.as_str()))
}

impl TsTemplateContext {
    /// Derives the render context from the generation request.
    pub fn from_context(ctx: &GeneratorContext) -> (r: Self)
        ensures
            r.project_name@ == spec_ts_project_name(ctx.output_dir@, ctx.api_title@),
            r.package_name == r.project_name,
            r.tool_prefix == r.project_name,
            r.tool_prefix_env@ == heck_shouty_snake(r.project_name@),
            r.display_name == ctx.api_title,
            r.client_class_name@ == heck_pascal(ctx.api_title@) + "ClientService"@,
            r.auth_schemes.len() == ctx.auth_schemes.len(),
            forall|i: int|
                0 <= i < ctx.auth_schemes.len() ==> ts_scheme_view_matches(
                    #[trigger] r.auth_schemes@[i],
                    ctx.auth_schemes@[i],
                ),
            r.auth_method_keys.len() == first_occurrences(scheme_kinds(ctx.auth_schemes@)).len(),
            forall|i: int|
                0 <= i < r.auth_method_keys.len() ==> (#[trigger] r.auth_method_keys@[i])@
                    == spec_method_key(first_occurrences(scheme_kinds(ctx.auth_schemes@))[i]),
            r.auth_method_locations.len() == r.auth_method_keys.len(),
            forall|i: int|
                0 <= i < r.auth_method_locations.len() ==> {
                    let kind = first_occurrences(scheme_kinds(ctx.auth_schemes@))[i];
                    let first = ctx.auth_schemes@[first_index_of_kind(ctx.auth_schemes@, kind)];
                    &&& (#[trigger] r.auth_method_locations@[i]).key == r.auth_method_keys@[i]
                    &&& (r.auth_method_locations@[i].header_location@,
                        r.auth_method_locations@[i].header_name@) == spec_location_view(first.location)
                },
            r.operations.len() == ctx.normalized_operations.len(),
            forall|i: int|
                0 <= i < ctx.normalized_operations.len() ==> ts_operation_view_matches(
                    #[trigger] r.operations@[i],
                    ctx.normalized_operations@[i],
                ),
            r.version_entries.len() == 1,
            r.version_entries@[0]@ == spec_version_entry(
                ctx.version_label@,
                STORE_FILE_NAME@,
                GENERATED_SCHEMAS_PATH@,
            ),
            r.default_version_label == ctx.version_label,
    {
        let project_name = ts_project_name(ctx);
        let mut client_class_name = pascal_case(ctx.api_title.as_str());
        client_class_name.append("ClientService");

        let mut auth_schemes: Vec<TsAuthSchemeView> = Vec::new();
        let mut i: usize = 0;
        while i < ctx.auth_schemes.len()
            invariant
                i <= ctx.auth_schemes.len(),
                auth_schemes.len() == i,
                forall|j: int|
                    0 <= j < i ==> ts_scheme_view_matches(
                        #[trigger] auth_schemes@[j],
                        ctx.auth_schemes@[j],
                    ),
            decreases ctx.auth_schemes.len() - i,
        {
            let scheme = &ctx.auth_schemes[i];
            let (header_location, header_name) = location_view(&scheme.location);
            auth_schemes.push(
                TsAuthSchemeView {
                    name: scheme.name.clone(),
                    method_key: auth_method_key(scheme.kind),
                    header_location,
                    header_name,
                },
            );
            i = i + 1;
        }

        let mut operations: Vec<TsOperationView> = Vec::new();
        let mut i: usize = 0;
        while i < ctx.normalized_operations.len()
            invariant
                i <= ctx.normalized_operations.len(),
                operations.len() == i,
                forall|j: int|
                    0 <= j < i ==> ts_operation_view_matches(
                        #[trigger] operations@[j],
                        ctx.normalized_operations@[j],
                    ),
            decreases ctx.normalized_operations.len() - i,
        {
            let op = &ctx.normalized_operations[i];
            operations.push(
                TsOperationView {
                    operation_id: op.operation_id.clone(),
                    path: op.path.clone(),
                    method: op.method.clone(),
                    summary: clone_opt_string(&op.summary),
                    description: clone_opt_string(&op.description),
                },
            );
            i = i + 1;
        }

        let tool_prefix_env = screaming_snake_case(project_name.as_str());

        let kinds = distinct_kinds(&ctx.auth_schemes);
        let ghost dk = first_occurrences(scheme_kinds(ctx.auth_schemes@));
        proof {
            lemma_first_occurrences(scheme_kinds(ctx.auth_schemes@));
        }
        let mut auth_method_keys: Vec<&'static str> = Vec::new();
        let mut auth_method_locations: Vec<TsAuthMethodLocationView> = Vec::new();
        let mut i: usize = 0;
        while i < kinds.len()
            invariant
                kinds@ == dk,
                forall|x| dk.contains(x) <==> scheme_kinds(ctx.auth_schemes@).contains(x),
                i <= kinds.len(),
                auth_method_keys.len() == i,
                auth_method_locations.len() == i,
                forall|j: int|
                    0 <= j < i ==> (#[trigger] auth_method_keys@[j])@ == spec_method_key(dk[j]),
                forall|j: int|
                    0 <= j < i ==> {
                        let first = ctx.auth_schemes@[first_index_of_kind(ctx.auth_schemes@, dk[j])];
                        &&& (#[trigger] auth_method_locations@[j]).key == auth_method_keys@[j]
                        &&& (auth_method_locations@[j].header_location@,
                            auth_method_locations@[j].header_name@) == spec_location_view(first.location)
                    },
            decreases kinds.len() - i,
        {
            let kind = kinds[i];
            assert(dk.contains(dk[i as int]));
            let key = auth_method_key(kind);
            let first = first_scheme_of_kind(&ctx.auth_schemes, kind);
            let (header_location, header_name) = location_view(&ctx.auth_schemes[first].location);
            auth_method_keys.push(key);
            auth_method_locations.push(TsAuthMethodLocationView { key, header_location, header_name });
            i = i + 1;
        }

        let entry = VersionEntryView::from_project_relative_paths(
            ctx.version_label.as_str(),
            STORE_FILE_NAME,
            GENERATED_SCHEMAS_PATH,
        );
        let mut version_entries: Vec<VersionEntryView> = Vec::new();
        version_entries.push(entry);

        TsTemplateContext {
            package_name: project_name.clone(),
            tool_prefix: project_name.clone(),
            project_name,
            tool_prefix_env,
            display_name: ctx.api_title.clone(),
            client_class_name,
            auth_schemes,
            auth_method_keys,
            auth_method_locations,
            operations,
            version_entries,
            default_version_label: ctx.version_label.clone(),
        }
    }
}

} // verus!
