//! The version-aware regions of a TypeScript project, re-rendered whenever
//! its ledger changes.

use crate::context::{entry_models, VersionEntryModel, VersionEntryView};
use crate::ledger::{ledger_entry_models, version_entries_from_ledger, Ledger};
use crate::marker_region::RegionPatch;
use crate::text::str_eq;
use crate::text::{lemma_occurs_in_concat, occurs_in};
use vstd::prelude::*;
use vstd::string::*;

verus! {

pub const CONFIG_SCHEMA_PATH: &'static str = "src/core/config-schema.ts";
pub const STORE_REPOSITORY_PATH: &'static str = "src/data/store-repository.ts";
pub const VALIDATOR_PATH: &'static str = "src/validation/validator.ts";
pub const SETUP_WIZARD_PATH: &'static str = "src/cli/setup-wizard.ts";
pub const VERSIONS_COMMAND_PATH: &'static str = "src/cli/versions-command.ts";

pub open spec fn schema_lines(es: Seq<VersionEntryModel>) -> Seq<char>
    decreases es.len(),
{
    if es.len() == 0 {
        Seq::empty()
    } else {
        schema_lines(es.drop_last()) + "  '"@ + es.last().label + "',\n"@
    }
}

/// The `ApiVersionSchema` enum of every label and the default label.
pub open spec fn spec_config_schema_body(es: Seq<VersionEntryModel>, default_label: Seq<char>) -> Seq<char> {
    "export const ApiVersionSchema = z.enum([\n"@ + schema_lines(es) + "]);\n"@
        + "export const DEFAULT_API_VERSION = '"@ + default_label + "';\n"@
}

pub fn config_schema_body(entries: &Vec<VersionEntryView>, default_label: &str) -> (r: String)
    ensures
        r@ == spec_config_schema_body(entry_models(entries@), default_label@),
{
    let mut body = String::from_str("export const ApiVersionSchema = z.enum([\n");
    let mut i: usize = 0;
    while i < entries.len()
        invariant
            i <= entries.len(),
            body@ == "export const ApiVersionSchema = z.enum([\n"@ + schema_lines(entry_models(entries@).take(i as int)),
        decreases entries.len() - i,
    {
        assert(entry_models(entries@).take(i + 1).drop_last() =~= entry_models(entries@).take(i as int));
        body.append("  '");
        body.append(entries[i].label.as_str());
        body.append("',\n");
        i = i + 1;
    }
    assert(entry_models(entries@).take(entries.len() as int) =~= entry_models(entries@));
    body.append("]);\n");
    body.append("export const DEFAULT_API_VERSION = '");
    body.append(default_label);
    body.append("';\n");
    body
}

pub open spec fn store_lines(es: Seq<VersionEntryModel>) -> Seq<char>
    decreases es.len(),
{
    if es.len() == 0 {
        Seq::empty()
    } else {
        store_lines(es.drop_last()) + "  '"@ + es.last().label + "': '"@ + es.last().db_file + "',\n"@
    }
}

/// The `VERSION_STORE_FILES` record: each label to its store file.
pub open spec fn spec_store_repository_body(es: Seq<VersionEntryModel>) -> Seq<char> {
    "export const VERSION_STORE_FILES: Record<string, string> = {\n"@ + store_lines(es) + "};\n"@
}

pub fn store_repository_body(entries: &Vec<VersionEntryView>) -> (r: String)
    ensures
        r@ == spec_store_repository_body(entry_models(entries@)),
{
    let mut body = String::from_str("export const VERSION_STORE_FILES: Record<string, string> = {\n");
    let mut i: usize = 0;
    while i < entries.len()
        invariant
            i <= entries.len(),
            body@ == "export const VERSION_STORE_FILES: Record<string, string> = {\n"@ + store_lines(
                entry_models(entries@).take(i as int),
            ),
        decreases entries.len() - i,
    {
        assert(entry_models(entries@).take(i + 1).drop_last() =~= entry_models(entries@).take(i as int));
        body.append("  '");
        body.append(entries[i].label.as_str());
        body.append("': '");
        body.append(entries[i].db_file.as_str());
        body.append("',\n");
        i = i + 1;
    }
    assert(entry_models(entries@).take(entries.len() as int) =~= entry_models(entries@));
    body.append("};\n");
    body
}

pub open spec fn validator_lines(es: Seq<VersionEntryModel>) -> Seq<char>
    decreases es.len(),
{
    if es.len() == 0 {
        Seq::empty()
    } else {
        validator_lines(es.drop_last()) + "  '"@ + es.last().label + "': '"@ + es.last().schemas_file
            + "',\n"@
    }
}

/// The `VERSION_SCHEMAS_FILES` record: each label to its schemas asset.
pub open spec fn spec_validator_body(es: Seq<VersionEntryModel>) -> Seq<char> {
    "const VERSION_SCHEMAS_FILES: Record<string, string> = {\n"@ + validator_lines(es) + "};\n"@
}

pub fn validator_body(entries: &Vec<VersionEntryView>) -> (r: String)
    ensures
        r@ == spec_validator_body(entry_models(entries@)),
{
    let mut body = String::from_str("const VERSION_SCHEMAS_FILES: Record<string, string> = {\n");
    let mut i: usize = 0;
    while i < entries.len()
        invariant
            i <= entries.len(),
            body@ == "const VERSION_SCHEMAS_FILES: Record<string, string> = {\n"@ + validator_lines(
                entry_models(entries@).take(i as int),
            ),
        decreases entries.len() - i,
    {
        assert(entry_models(entries@).take(i + 1).drop_last() =~= entry_models(entries@).take(i as int));
        body.append("  '");
        body.append(entries[i].label.as_str());
        body.append("': '");
        body.append(entries[i].schemas_file.as_str());
        body.append("',\n");
        i = i + 1;
    }
    assert(entry_models(entries@).take(entries.len() as int) =~= entry_models(entries@));
    body.append("};\n");
    body
}

pub open spec fn choice_lines(es: Seq<VersionEntryModel>, default_label: Seq<char>) -> Seq<char>
    decreases es.len(),
{
    if es.len() == 0 {
        Seq::empty()
    } else {
        let e = es.last();
        let suffix = if e.label == default_label { " (default/latest)"@ } else { Seq::empty() };
        choice_lines(es.drop_last(), default_label) + "        { name: '"@ + e.label + suffix
            + "', value: '"@ + e.label + "' },\n"@
    }
}

/// `promptApiVersion`: one version returns its label without asking; more
/// than one renders an `inquirer` list with the default pre-selected and
/// annotated.
pub open spec fn spec_setup_wizard_body(es: Seq<VersionEntryModel>, default_label: Seq<char>) -> Seq<char> {
    "async function promptApiVersion(): Promise<ApiVersion> {\n"@ + (if es.len() == 1 {
        "  return '"@ + es[0].label + "';\n"@
    } else {
        "  const { apiVersion } = await inquirer.prompt<{ apiVersion: ApiVersion }>([\n"@
            + "    {\n"@ + "      type: 'list',\n"@ + "      name: 'apiVersion',\n"@
            + "      message: 'API version to use:',\n"@ + "      default: '"@ + default_label
            + "',\n"@ + "      choices: [\n"@ + choice_lines(es, default_label) + "      ],\n"@
            + "    },\n"@ + "  ]);\n"@ + "  return apiVersion;\n"@
    }) + "}\n"@
}

pub fn setup_wizard_body(entries: &Vec<VersionEntryView>, default_label: &str) -> (r: String)
    ensures
        r@ == spec_setup_wizard_body(entry_models(entries@), default_label@),
{
    let mut body = String::from_str("async function promptApiVersion(): Promise<ApiVersion> {\n");
    if entries.len() == 1 {
        body.append("  return '");
        body.append(entries[0].label.as_str());
        body.append("';\n");
    } else {
        body.append("  const { apiVersion } = await inquirer.prompt<{ apiVersion: ApiVersion }>([\n");
        body.append("    {\n");
        body.append("      type: 'list',\n");
        body.append("      name: 'apiVersion',\n");
        body.append("      message: 'API version to use:',\n");
        body.append("      default: '");
        body.append(default_label);
        body.append("',\n");
        body.append("      choices: [\n");
        let ghost head = body@;
        let mut i: usize = 0;
        while i < entries.len()
            invariant
                i <= entries.len(),
                body@ == head + choice_lines(entry_models(entries@).take(i as int), default_label@),
            decreases entries.len() - i,
        {
            assert(entry_models(entries@).take(i + 1).drop_last() =~= entry_models(entries@).take(i as int));
            body.append("        { name: '");
            body.append(entries[i].label.as_str());
            if str_eq(entries[i].label.as_str(), default_label) {
                body.append(" (default/latest)");
            }
            body.append("', value: '");
            body.append(entries[i].label.as_str());
            body.append("' },\n");
            i = i + 1;
        }
        assert(entry_models(entries@).take(entries.len() as int) =~= entry_models(entries@));
        body.append("      ],\n");
        body.append("    },\n");
        body.append("  ]);\n");
        body.append("  return apiVersion;\n");
    }
    body.append("}\n");
    body
}

pub open spec fn version_row_lines(es: Seq<VersionEntryModel>, default_label: Seq<char>) -> Seq<char>
    decreases es.len(),
{
    if es.len() == 0 {
        Seq::empty()
    } else {
        let e = es.last();
        let flag = if e.label == default_label { "true"@ } else { "false"@ };
        version_row_lines(es.drop_last(), default_label) + "  { label: '"@ + e.label + "', isDefault: "@
            + flag + " },\n"@
    }
}

/// `KNOWN_VERSIONS`: one row per version, the default one flagged.
pub open spec fn spec_versions_command_body(es: Seq<VersionEntryModel>, default_label: Seq<char>) -> Seq<char> {
    "const KNOWN_VERSIONS: VersionRow[] = [\n"@ + version_row_lines(es, default_label) + "];\n"@
}

pub fn versions_command_body(entries: &Vec<VersionEntryView>, default_label: &str) -> (r: String)
    ensures
        r@ == spec_versions_command_body(entry_models(entries@), default_label@),
{
    let mut body = String::from_str("const KNOWN_VERSIONS: VersionRow[] = [\n");
    let mut i: usize = 0;
    while i < entries.len()
        invariant
            i <= entries.len(),
            body@ == "const KNOWN_VERSIONS: VersionRow[] = [\n"@ + version_row_lines(
                entry_models(entries@).take(i as int),
                default_label@,
            ),
        decreases entries.len() - i,
    {
        assert(entry_models(entries@).take(i + 1).drop_last() =~= entry_models(entries@).take(i as int));
        body.append("  { label: '");
        body.append(entries[i].label.as_str());
        body.append("', isDefault: ");
        if str_eq(entries[i].label.as_str(), default_label) {
            body.append("true");
        } else {
            body.append("false");
        }
        body.append(" },\n");
        i = i + 1;
    }
    assert(entry_models(entries@).take(entries.len() as int) =~= entry_models(entries@));
    body.append("];\n");
    body
}

/// The five version-aware regions of a TypeScript project, rendered from
/// the ledger; version-independent files are never touched.
pub fn version_patches(ledger: &Ledger) -> (r: Vec<RegionPatch>)
    ensures
        r.len() == 5,
        r@[0].path@ == CONFIG_SCHEMA_PATH@,
        r@[0].body@ == spec_config_schema_body(ledger_entry_models(*ledger), ledger.default_version@),
        r@[1].path@ == STORE_REPOSITORY_PATH@,
        r@[1].body@ == spec_store_repository_body(ledger_entry_models(*ledger)),
        r@[2].path@ == VALIDATOR_PATH@,
        r@[2].body@ == spec_validator_body(ledger_entry_models(*ledger)),
        r@[3].path@ == SETUP_WIZARD_PATH@,
        r@[3].body@ == spec_setup_wizard_body(ledger_entry_models(*ledger), ledger.default_version@),
        r@[4].path@ == VERSIONS_COMMAND_PATH@,
        r@[4].body@ == spec_versions_command_body(ledger_entry_models(*ledger), ledger.default_version@),
{
    let entries = version_entries_from_ledger(ledger);
    let default_label = ledger.default_version.as_str();
    let mut r: Vec<RegionPatch> = Vec::new();
    r.push(RegionPatch {
        path: String::from_str(CONFIG_SCHEMA_PATH),
        body: config_schema_body(&entries, default_label),
    });
    r.push(RegionPatch {
        path: String::from_str(STORE_REPOSITORY_PATH),
        body: store_repository_body(&entries),
    });
    r.push(RegionPatch { path: String::from_str(VALIDATOR_PATH), body: validator_body(&entries) });
    r.push(RegionPatch {
        path: String::from_str(SETUP_WIZARD_PATH),
        body: setup_wizard_body(&entries, default_label),
    });
    r.push(RegionPatch {
        path: String::from_str(VERSIONS_COMMAND_PATH),
        body: versions_command_body(&entries, default_label),
    });
    r
}

/// Every region body this target renders is non-empty and ends with a line
/// break, so after a sync the next one finds each region again
/// (`marker_region::law_region_replace_again`).
pub proof fn law_region_bodies_end_with_line_break(es: Seq<VersionEntryModel>, default_label: Seq<char>)
    ensures
        spec_config_schema_body(es, default_label).len() > 0,
        spec_config_schema_body(es, default_label).last() == '\n',
        spec_store_repository_body(es).len() > 0,
        spec_store_repository_body(es).last() == '\n',
        spec_validator_body(es).len() > 0,
        spec_validator_body(es).last() == '\n',
        spec_setup_wizard_body(es, default_label).len() > 0,
        spec_setup_wizard_body(es, default_label).last() == '\n',
        spec_versions_command_body(es, default_label).len() > 0,
        spec_versions_command_body(es, default_label).last() == '\n',
{
    reveal_strlit("  ]);\n");
    reveal_strlit("  return apiVersion;\n");
    reveal_strlit("';\n");
    reveal_strlit("]);\n");
    reveal_strlit("];\n");
    reveal_strlit("const KNOWN_VERSIONS: VersionRow[] = [\n");
    reveal_strlit("const VERSION_SCHEMAS_FILES: Record<string, string> = {\n");
    reveal_strlit("export const VERSION_STORE_FILES: Record<string, string> = {\n");
    reveal_strlit("};\n");
    reveal_strlit("}\n");
}


/// The config-schema region names the ledger's default label, whatever the
/// entries and their order: it always ends with the default-version line.
pub proof fn law_config_schema_names_the_default(es: Seq<VersionEntryModel>, default_label: Seq<char>)
    ensures
        ({
            let body = spec_config_schema_body(es, default_label);
            let line = "export const DEFAULT_API_VERSION = '"@ + default_label + "';\n"@;
            &&& body.len() >= line.len()
            &&& body.skip(body.len() - line.len()) == line
        }),
{
    let body = spec_config_schema_body(es, default_label);
    let line = "export const DEFAULT_API_VERSION = '"@ + default_label + "';\n"@;
    assert(body.skip(body.len() - line.len()) =~= line);
}


proof fn lemma_schema_lines_hold_each_entry(es: Seq<VersionEntryModel>)
    ensures
        forall|i: int| 0 <= i < es.len() ==> occurs_in(schema_lines(es), "  '"@ + es[i].label + "',\n"@),
    decreases es.len(),
{
    if es.len() > 0 {
        let p = es.drop_last();
        lemma_schema_lines_hold_each_entry(p);
        assert(schema_lines(es) =~= schema_lines(p) + ("  '"@ + es[es.len() - 1].label + "',\n"@));
        assert forall|i: int| 0 <= i < es.len() implies occurs_in(schema_lines(es), "  '"@ + es[i].label + "',\n"@) by {
            if i < p.len() {
                assert(p[i] == es[i]);
            }
            lemma_occurs_in_concat(schema_lines(p), "  '"@ + es[es.len() - 1].label + "',\n"@, "  '"@ + es[i].label + "',\n"@);
        }
    }
}

proof fn lemma_store_lines_hold_each_entry(es: Seq<VersionEntryModel>)
    ensures
        forall|i: int| 0 <= i < es.len() ==> occurs_in(store_lines(es), "  '"@ + es[i].label + "': '"@ + es[i].db_file + "',\n"@),
    decreases es.len(),
{
    if es.len() > 0 {
        let p = es.drop_last();
        lemma_store_lines_hold_each_entry(p);
        assert(store_lines(es) =~= store_lines(p) + ("  '"@ + es[es.len() - 1].label + "': '"@ + es[es.len() - 1].db_file + "',\n"@));
        assert forall|i: int| 0 <= i < es.len() implies occurs_in(store_lines(es), "  '"@ + es[i].label + "': '"@ + es[i].db_file + "',\n"@) by {
            if i < p.len() {
                assert(p[i] == es[i]);
            }
            lemma_occurs_in_concat(store_lines(p), "  '"@ + es[es.len() - 1].label + "': '"@ + es[es.len() - 1].db_file + "',\n"@, "  '"@ + es[i].label + "': '"@ + es[i].db_file + "',\n"@);
        }
    }
}

proof fn lemma_validator_lines_hold_each_entry(es: Seq<VersionEntryModel>)
    ensures
        forall|i: int| 0 <= i < es.len() ==> occurs_in(validator_lines(es), "  '"@ + es[i].label + "': '"@ + es[i].schemas_file
            + "',\n"@),
    decreases es.len(),
{
    if es.len() > 0 {
        let p = es.drop_last();
        lemma_validator_lines_hold_each_entry(p);
        assert(validator_lines(es) =~= validator_lines(p) + ("  '"@ + es[es.len() - 1].label + "': '"@ + es[es.len() - 1].schemas_file
            + "',\n"@));
        assert forall|i: int| 0 <= i < es.len() implies occurs_in(validator_lines(es), "  '"@ + es[i].label + "': '"@ + es[i].schemas_file
            + "',\n"@) by {
            if i < p.len() {
                assert(p[i] == es[i]);
            }
            lemma_occurs_in_concat(validator_lines(p), "  '"@ + es[es.len() - 1].label + "': '"@ + es[es.len() - 1].schemas_file
            + "',\n"@, "  '"@ + es[i].label + "': '"@ + es[i].schemas_file
            + "',\n"@);
        }
    }
}

proof fn lemma_choice_lines_hold_each_entry(es: Seq<VersionEntryModel>, default_label: Seq<char>)
    ensures
        forall|i: int| 0 <= i < es.len() ==> occurs_in(choice_lines(es, default_label), "        { name: '"@ + es[i].label + (if es[i].label == default_label { " (default/latest)"@ } else { Seq::empty() })
            + "', value: '"@ + es[i].label + "' },\n"@),
    decreases es.len(),
{
    if es.len() > 0 {
        let p = es.drop_last();
        lemma_choice_lines_hold_each_entry(p, default_label);
        assert(choice_lines(es, default_label) =~= choice_lines(p, default_label) + ("        { name: '"@ + es[es.len() - 1].label + (if es[es.len() - 1].label == default_label { " (default/latest)"@ } else { Seq::empty() })
            + "', value: '"@ + es[es.len() - 1].label + "' },\n"@));
        assert forall|i: int| 0 <= i < es.len() implies occurs_in(choice_lines(es, default_label), "        { name: '"@ + es[i].label + (if es[i].label == default_label { " (default/latest)"@ } else { Seq::empty() })
            + "', value: '"@ + es[i].label + "' },\n"@) by {
            if i < p.len() {
                assert(p[i] == es[i]);
            }
            lemma_occurs_in_concat(choice_lines(p, default_label), "        { name: '"@ + es[es.len() - 1].label + (if es[es.len() - 1].label == default_label { " (default/latest)"@ } else { Seq::empty() })
            + "', value: '"@ + es[es.len() - 1].label + "' },\n"@, "        { name: '"@ + es[i].label + (if es[i].label == default_label { " (default/latest)"@ } else { Seq::empty() })
            + "', value: '"@ + es[i].label + "' },\n"@);
        }
    }
}

proof fn lemma_version_row_lines_hold_each_entry(es: Seq<VersionEntryModel>, default_label: Seq<char>)
    ensures
        forall|i: int| 0 <= i < es.len() ==> occurs_in(version_row_lines(es, default_label), "  { label: '"@ + es[i].label + "', isDefault: "@
            + (if es[i].label == default_label { "true"@ } else { "false"@ }) + " },\n"@),
    decreases es.len(),
{
    if es.len() > 0 {
        let p = es.drop_last();
        lemma_version_row_lines_hold_each_entry(p, default_label);
        assert(version_row_lines(es, default_label) =~= version_row_lines(p, default_label) + ("  { label: '"@ + es[es.len() - 1].label + "', isDefault: "@
            + (if es[es.len() - 1].label == default_label { "true"@ } else { "false"@ }) + " },\n"@));
        assert forall|i: int| 0 <= i < es.len() implies occurs_in(version_row_lines(es, default_label), "  { label: '"@ + es[i].label + "', isDefault: "@
            + (if es[i].label == default_label { "true"@ } else { "false"@ }) + " },\n"@) by {
            if i < p.len() {
                assert(p[i] == es[i]);
            }
            lemma_occurs_in_concat(version_row_lines(p, default_label), "  { label: '"@ + es[es.len() - 1].label + "', isDefault: "@
            + (if es[es.len() - 1].label == default_label { "true"@ } else { "false"@ }) + " },\n"@, "  { label: '"@ + es[i].label + "', isDefault: "@
            + (if es[i].label == default_label { "true"@ } else { "false"@ }) + " },\n"@);
        }
    }
}

/// The region lists each version: every version of the ledger has its line, built from that entry's own
/// label and files (and flagged by comparing its label with the default).
pub proof fn law_config_schema_body_lists_every_version(es: Seq<VersionEntryModel>, default_label: Seq<char>)
    ensures
        forall|i: int| 0 <= i < es.len() ==> occurs_in(spec_config_schema_body(es, default_label), "  '"@ + es[i].label + "',\n"@),
{
    lemma_schema_lines_hold_each_entry(es);
    assert forall|i: int| 0 <= i < es.len() implies occurs_in(spec_config_schema_body(es, default_label), "  '"@ + es[i].label + "',\n"@) by {
        let t = "  '"@ + es[i].label + "',\n"@;
        assert forall|a: Seq<char>, b: Seq<char>| #![trigger a + b] occurs_in(a, t) || occurs_in(b, t) implies occurs_in(a + b, t) by {
            lemma_occurs_in_concat(a, b, t);
        }
    }
}

/// The region lists each version: every version of the ledger has its line, built from that entry's own
/// label and files (and flagged by comparing its label with the default).
pub proof fn law_store_repository_body_lists_every_version(es: Seq<VersionEntryModel>)
    ensures
        forall|i: int| 0 <= i < es.len() ==> occurs_in(spec_store_repository_body(es), "  '"@ + es[i].label + "': '"@ + es[i].db_file + "',\n"@),
{
    lemma_store_lines_hold_each_entry(es);
    assert forall|i: int| 0 <= i < es.len() implies occurs_in(spec_store_repository_body(es), "  '"@ + es[i].label + "': '"@ + es[i].db_file + "',\n"@) by {
        let t = "  '"@ + es[i].label + "': '"@ + es[i].db_file + "',\n"@;
        assert forall|a: Seq<char>, b: Seq<char>| #![trigger a + b] occurs_in(a, t) || occurs_in(b, t) implies occurs_in(a + b, t) by {
            lemma_occurs_in_concat(a, b, t);
        }
    }
}

/// The region lists each version: every version of the ledger has its line, built from that entry's own
/// label and files (and flagged by comparing its label with the default).
pub proof fn law_validator_body_lists_every_version(es: Seq<VersionEntryModel>)
    ensures
        forall|i: int| 0 <= i < es.len() ==> occurs_in(spec_validator_body(es), "  '"@ + es[i].label + "': '"@ + es[i].schemas_file
            + "',\n"@),
{
    lemma_validator_lines_hold_each_entry(es);
    assert forall|i: int| 0 <= i < es.len() implies occurs_in(spec_validator_body(es), "  '"@ + es[i].label + "': '"@ + es[i].schemas_file
            + "',\n"@) by {
        let t = "  '"@ + es[i].label + "': '"@ + es[i].schemas_file
            + "',\n"@;
        assert forall|a: Seq<char>, b: Seq<char>| #![trigger a + b] occurs_in(a, t) || occurs_in(b, t) implies occurs_in(a + b, t) by {
            lemma_occurs_in_concat(a, b, t);
        }
    }
}

/// The region lists each version: with more than one version, the prompt offers every version, built from that entry's own
/// label and files (and flagged by comparing its label with the default).
pub proof fn law_setup_wizard_body_lists_every_version(es: Seq<VersionEntryModel>, default_label: Seq<char>)
    requires
        es.len() >= 2,
    ensures
        forall|i: int| 0 <= i < es.len() ==> occurs_in(spec_setup_wizard_body(es, default_label), "        { name: '"@ + es[i].label + (if es[i].label == default_label { " (default/latest)"@ } else { Seq::empty() })
            + "', value: '"@ + es[i].label + "' },\n"@),
{
    lemma_choice_lines_hold_each_entry(es, default_label);
    assert forall|i: int| 0 <= i < es.len() implies occurs_in(spec_setup_wizard_body(es, default_label), "        { name: '"@ + es[i].label + (if es[i].label == default_label { " (default/latest)"@ } else { Seq::empty() })
            + "', value: '"@ + es[i].label + "' },\n"@) by {
        let t = "        { name: '"@ + es[i].label + (if es[i].label == default_label { " (default/latest)"@ } else { Seq::empty() })
            + "', value: '"@ + es[i].label + "' },\n"@;
        assert forall|a: Seq<char>, b: Seq<char>| #![trigger a + b] occurs_in(a, t) || occurs_in(b, t) implies occurs_in(a + b, t) by {
            lemma_occurs_in_concat(a, b, t);
        }
    }
}

/// The region lists each version: every version of the ledger has its line, built from that entry's own
/// label and files (and flagged by comparing its label with the default).
pub proof fn law_versions_command_body_lists_every_version(es: Seq<VersionEntryModel>, default_label: Seq<char>)
    ensures
        forall|i: int| 0 <= i < es.len() ==> occurs_in(spec_versions_command_body(es, default_label), "  { label: '"@ + es[i].label + "', isDefault: "@
            + (if es[i].label == default_label { "true"@ } else { "false"@ }) + " },\n"@),
{
    lemma_version_row_lines_hold_each_entry(es, default_label);
    assert forall|i: int| 0 <= i < es.len() implies occurs_in(spec_versions_command_body(es, default_label), "  { label: '"@ + es[i].label + "', isDefault: "@
            + (if es[i].label == default_label { "true"@ } else { "false"@ }) + " },\n"@) by {
        let t = "  { label: '"@ + es[i].label + "', isDefault: "@
            + (if es[i].label == default_label { "true"@ } else { "false"@ }) + " },\n"@;
        assert forall|a: Seq<char>, b: Seq<char>| #![trigger a + b] occurs_in(a, t) || occurs_in(b, t) implies occurs_in(a + b, t) by {
            lemma_occurs_in_concat(a, b, t);
        }
    }
}


/// With no choice to make the prompt is skipped: the function returns the only version's label.
pub proof fn law_single_version_skips_the_prompt(es: Seq<VersionEntryModel>, default_label: Seq<char>)
    requires
        es.len() == 1,
    ensures
        occurs_in(spec_setup_wizard_body(es, default_label), "  return '"@ + es[0].label + "';\n"@),
{
    let t = "  return '"@ + es[0].label + "';\n"@;
    lemma_occurs_in_concat(t, Seq::empty(), t);
    assert forall|a: Seq<char>, b: Seq<char>| #![trigger a + b] occurs_in(a, t) || occurs_in(b, t) implies occurs_in(a + b, t) by {
        lemma_occurs_in_concat(a, b, t);
    }
}

} // verus!
