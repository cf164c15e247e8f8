//! The version-aware regions of a Rust project, re-rendered whenever its ledger changes.

use crate::context::{entry_models, VersionEntryModel, VersionEntryView};
use crate::ledger::{ledger_entry_models, version_entries_from_ledger, Ledger};
use crate::marker_region::RegionPatch;
use crate::text::str_eq;
use crate::text::{lemma_occurs_in_concat, occurs_in};
use vstd::prelude::*;
use vstd::string::*;

verus! {

pub const CONFIG_SCHEMA_PATH: &'static str = "src/core/config_schema.rs";
pub const STORE_PATH: &'static str = "src/data/store.rs";
pub const VALIDATOR_PATH: &'static str = "src/validation/validator.rs";
pub const SETUP_WIZARD_PATH: &'static str = "src/cli/setup_wizard.rs";
pub const VERSIONS_COMMAND_PATH: &'static str = "src/cli/versions.rs";

/// One line per version of the region, in ledger order.
pub open spec fn store_lines(es: Seq<VersionEntryModel>, default_label: Seq<char>) -> Seq<char>
    decreases es.len(),
{
    if es.len() == 0 {
        Seq::empty()
    } else {
        let e = es.last();
        store_lines(es.drop_last(), default_label) + "    (\""@ + e.label + "\", \""@ + e.db_file + "\"),\n"@
    }
}

/// One line per version of the region, in ledger order.
pub open spec fn validator_lines(es: Seq<VersionEntryModel>, default_label: Seq<char>) -> Seq<char>
    decreases es.len(),
{
    if es.len() == 0 {
        Seq::empty()
    } else {
        let e = es.last();
        validator_lines(es.drop_last(), default_label) + "        \""@ + e.label + "\" => Some(include_bytes!(\""@ + e.schemas_file + "\")),\n"@
    }
}

/// One line per version of the region, in ledger order.
pub open spec fn choice_lines(es: Seq<VersionEntryModel>, default_label: Seq<char>) -> Seq<char>
    decreases es.len(),
{
    if es.len() == 0 {
        Seq::empty()
    } else {
        let e = es.last();
        choice_lines(es.drop_last(), default_label) + "        \""@ + e.label + (if e.label == default_label { " (default/latest)"@ } else { Seq::empty() }) + "\",\n"@
    }
}

/// One line per version of the region, in ledger order.
pub open spec fn selection_arm_lines(es: Seq<VersionEntryModel>, default_label: Seq<char>) -> Seq<char>
    decreases es.len(),
{
    if es.len() == 0 {
        Seq::empty()
    } else {
        let e = es.last();
        selection_arm_lines(es.drop_last(), default_label) + "        \""@ + e.label + (if e.label == default_label { " (default/latest)"@ } else { Seq::empty() }) + "\" => \""@ + e.label + "\".to_string(),\n"@
    }
}

/// One line per version of the region, in ledger order.
pub open spec fn version_row_lines(es: Seq<VersionEntryModel>, default_label: Seq<char>) -> Seq<char>
    decreases es.len(),
{
    if es.len() == 0 {
        Seq::empty()
    } else {
        let e = es.last();
        version_row_lines(es.drop_last(), default_label) + "    VersionRow {\n        label: \""@ + e.label + "\",\n        is_default: "@ + (if e.label == default_label { "true"@ } else { "false"@ }) + ",\n    },\n"@
    }
}

/// `default_api_version` returning the default label.
pub open spec fn spec_config_schema_body(es: Seq<VersionEntryModel>, default_label: Seq<char>) -> Seq<char> {
    "fn default_api_version() -> String {\n    \""@ + default_label + "\".to_string()\n}\n"@
}

pub fn config_schema_body(default_label: &str) -> (r: String)
    ensures
        r@ == spec_config_schema_body(Seq::empty(), default_label@),
{
    let mut body = String::new();
    body.append("fn default_api_version() -> String {\n    \"");
    body.append(default_label);
    body.append("\".to_string()\n}\n");
    body
}

/// The `VERSION_STORE_FILES` table: each label with its store file.
pub open spec fn spec_store_body(es: Seq<VersionEntryModel>, default_label: Seq<char>) -> Seq<char> {
    "const VERSION_STORE_FILES: &[(&str, &str)] = &[\n"@ + store_lines(es, default_label) + "];\n"@
}

pub fn store_body(entries: &Vec<VersionEntryView>) -> (r: String)
    ensures
        r@ == spec_store_body(entry_models(entries@), Seq::empty()),
{
    let mut body = String::new();
    body.append("const VERSION_STORE_FILES: &[(&str, &str)] = &[\n");
    {
        let ghost head = body@;
        let mut i: usize = 0;
        while i < entries.len()
            invariant
                i <= entries.len(),
                body@ == head + store_lines(entry_models(entries@).take(i as int), Seq::empty()),
            decreases entries.len() - i,
        {
            assert(entry_models(entries@).take(i + 1).drop_last() =~= entry_models(entries@).take(i as int));
            body.append("    (\"");
            body.append(entries[i].label.as_str());
            body.append("\", \"");
            body.append(entries[i].db_file.as_str());
            body.append("\"),\n");
            i = i + 1;
        }
        assert(entry_models(entries@).take(entries.len() as int) =~= entry_models(entries@));
    }
    body.append("];\n");
    body
}

/// `schemas_zst_for`: each label to its schemas asset, baked in with `include_bytes!`.
pub open spec fn spec_validator_body(es: Seq<VersionEntryModel>, default_label: Seq<char>) -> Seq<char> {
    "fn schemas_zst_for(api_version: &str) -> Option<&'static [u8]> {\n    match api_version {\n"@ + validator_lines(es, default_label) + "        _ => None,\n    }\n}\n"@
}

pub fn validator_body(entries: &Vec<VersionEntryView>) -> (r: String)
    ensures
        r@ == spec_validator_body(entry_models(entries@), Seq::empty()),
{
    let mut body = String::new();
    body.append("fn schemas_zst_for(api_version: &str) -> Option<&'static [u8]> {\n    match api_version {\n");
    {
        let ghost head = body@;
        let mut i: usize = 0;
        while i < entries.len()
            invariant
                i <= entries.len(),
                body@ == head + validator_lines(entry_models(entries@).take(i as int), Seq::empty()),
            decreases entries.len() - i,
        {
            assert(entry_models(entries@).take(i + 1).drop_last() =~= entry_models(entries@).take(i as int));
            body.append("        \"");
            body.append(entries[i].label.as_str());
            body.append("\" => Some(include_bytes!(\"");
            body.append(entries[i].schemas_file.as_str());
            body.append("\")),\n");
            i = i + 1;
        }
        assert(entry_models(entries@).take(entries.len() as int) =~= entry_models(entries@));
    }
    body.append("        _ => None,\n    }\n}\n");
    body
}

/// `prompt_api_version`: one version returns its label without asking; otherwise an `inquire::Select` lists every version, the default annotated, and maps the choice back to its bare label.
pub open spec fn spec_setup_wizard_body(es: Seq<VersionEntryModel>, default_label: Seq<char>) -> Seq<char> {
    "async fn prompt_api_version() -> anyhow::Result<String> {\n"@ + (if es.len() == 1 { "    Ok(\""@ + es[0].label + "\".to_string())\n"@ } else { "    let choices = vec![\n"@ + choice_lines(es, default_label) + "    ];\n"@ + "    let selection = tokio::task::spawn_blocking(move || {\n"@ + "        inquire::Select::new(\"API version to use:\", choices).prompt()\n"@ + "    })\n    .await??;\n\n"@ + "    Ok(match selection {\n"@ + selection_arm_lines(es, default_label) + "        other => other.to_string(),\n    })\n"@ }) + "}\n"@
}

pub fn setup_wizard_body(entries: &Vec<VersionEntryView>, default_label: &str) -> (r: String)
    ensures
        r@ == spec_setup_wizard_body(entry_models(entries@), default_label@),
{
    let mut body = String::new();
    body.append("async fn prompt_api_version() -> anyhow::Result<String> {\n");
    if entries.len() == 1 {
        body.append("    Ok(\"");
        body.append(entries[0].label.as_str());
        body.append("\".to_string())\n");
    } else {
        body.append("    let choices = vec![\n");
        {
            let ghost head = body@;
            let mut i: usize = 0;
            while i < entries.len()
                invariant
                    i <= entries.len(),
                    body@ == head + choice_lines(entry_models(entries@).take(i as int), default_label@),
                decreases entries.len() - i,
            {
                assert(entry_models(entries@).take(i + 1).drop_last() =~= entry_models(entries@).take(i as int));
                body.append("        \"");
                body.append(entries[i].label.as_str());
                if str_eq(entries[i].label.as_str(), default_label) {
                    body.append(" (default/latest)");
                }
                body.append("\",\n");
                i = i + 1;
            }
            assert(entry_models(entries@).take(entries.len() as int) =~= entry_models(entries@));
        }
        body.append("    ];\n");
        body.append("    let selection = tokio::task::spawn_blocking(move || {\n");
        body.append("        inquire::Select::new(\"API version to use:\", choices).prompt()\n");
        body.append("    })\n    .await??;\n\n");
        body.append("    Ok(match selection {\n");
        {
            let ghost head = body@;
            let mut i: usize = 0;
            while i < entries.len()
                invariant
                    i <= entries.len(),
                    body@ == head + selection_arm_lines(entry_models(entries@).take(i as int), default_label@),
                decreases entries.len() - i,
            {
                assert(entry_models(entries@).take(i + 1).drop_last() =~= entry_models(entries@).take(i as int));
                body.append("        \"");
                body.append(entries[i].label.as_str());
                if str_eq(entries[i].label.as_str(), default_label) {
                    body.append(" (default/latest)");
                }
                body.append("\" => \"");
                body.append(entries[i].label.as_str());
                body.append("\".to_string(),\n");
                i = i + 1;
            }
            assert(entry_models(entries@).take(entries.len() as int) =~= entry_models(entries@));
        }
        body.append("        other => other.to_string(),\n    })\n");
    }
    body.append("}\n");
    body
}

/// `KNOWN_VERSIONS`: one row per version, the default one flagged.
pub open spec fn spec_versions_command_body(es: Seq<VersionEntryModel>, default_label: Seq<char>) -> Seq<char> {
    "const KNOWN_VERSIONS: &[VersionRow] = &[\n"@ + version_row_lines(es, default_label) + "];\n"@
}

pub fn versions_command_body(entries: &Vec<VersionEntryView>, default_label: &str) -> (r: String)
    ensures
        r@ == spec_versions_command_body(entry_models(entries@), default_label@),
{
    let mut body = String::new();
    body.append("const KNOWN_VERSIONS: &[VersionRow] = &[\n");
    {
        let ghost head = body@;
        let mut i: usize = 0;
        while i < entries.len()
            invariant
                i <= entries.len(),
                body@ == head + version_row_lines(entry_models(entries@).take(i as int), default_label@),
            decreases entries.len() - i,
        {
            assert(entry_models(entries@).take(i + 1).drop_last() =~= entry_models(entries@).take(i as int));
            body.append("    VersionRow {\n        label: \"");
            body.append(entries[i].label.as_str());
            body.append("\",\n        is_default: ");
            if str_eq(entries[i].label.as_str(), default_label) {
                body.append("true");
            } else {
                body.append("false");
            }
            body.append(",\n    },\n");
            i = i + 1;
        }
        assert(entry_models(entries@).take(entries.len() as int) =~= entry_models(entries@));
    }
    body.append("];\n");
    body
}

/// The five version-aware regions of a Rust project, rendered from
/// the ledger; version-independent files are never touched.
pub fn version_patches(ledger: &Ledger) -> (r: Vec<RegionPatch>)
    ensures
        r.len() == 5,
        r@[0].path@ == CONFIG_SCHEMA_PATH@,
        r@[0].body@ == spec_config_schema_body(Seq::empty(), ledger.default_version@),
        r@[1].path@ == STORE_PATH@,
        r@[1].body@ == spec_store_body(ledger_entry_models(*ledger), Seq::empty()),
        r@[2].path@ == VALIDATOR_PATH@,
        r@[2].body@ == spec_validator_body(ledger_entry_models(*ledger), Seq::empty()),
        r@[3].path@ == SETUP_WIZARD_PATH@,
        r@[3].body@ == spec_setup_wizard_body(ledger_entry_models(*ledger), ledger.default_version@),
        r@[4].path@ == VERSIONS_COMMAND_PATH@,
        r@[4].body@ == spec_versions_command_body(ledger_entry_models(*ledger), ledger.default_version@),
{
    let entries = version_entries_from_ledger(ledger);
    let default_label = ledger.default_version.as_str();
    let mut r: Vec<RegionPatch> = Vec::new();
    r.push(RegionPatch { path: String::from_str(CONFIG_SCHEMA_PATH), body: config_schema_body(default_label) });
    r.push(RegionPatch { path: String::from_str(STORE_PATH), body: store_body(&entries) });
    r.push(RegionPatch { path: String::from_str(VALIDATOR_PATH), body: validator_body(&entries) });
    r.push(RegionPatch { path: String::from_str(SETUP_WIZARD_PATH), body: setup_wizard_body(&entries, default_label) });
    r.push(RegionPatch { path: String::from_str(VERSIONS_COMMAND_PATH), body: versions_command_body(&entries, default_label) });
    r
}

/// Every region body this target renders is non-empty and ends with a line
/// break, so after a sync the next one finds each region again
/// (`marker_region::law_region_replace_again`).
pub proof fn law_region_bodies_end_with_line_break(es: Seq<VersionEntryModel>, default_label: Seq<char>)
    ensures
        spec_config_schema_body(es, default_label).len() > 0,
        spec_config_schema_body(es, default_label).last() == '\n',
        spec_store_body(es, default_label).len() > 0,
        spec_store_body(es, default_label).last() == '\n',
        spec_validator_body(es, default_label).len() > 0,
        spec_validator_body(es, default_label).last() == '\n',
        spec_setup_wizard_body(es, default_label).len() > 0,
        spec_setup_wizard_body(es, default_label).last() == '\n',
        spec_versions_command_body(es, default_label).len() > 0,
        spec_versions_command_body(es, default_label).last() == '\n',
{
    reveal_strlit("        _ => None,\n    }\n}\n");
    reveal_strlit("        other => other.to_string(),\n    })\n");
    reveal_strlit("    Ok(match selection {\n");
    reveal_strlit("\".to_string()\n}\n");
    reveal_strlit("];\n");
    reveal_strlit("const KNOWN_VERSIONS: &[VersionRow] = &[\n");
    reveal_strlit("const VERSION_STORE_FILES: &[(&str, &str)] = &[\n");
    reveal_strlit("fn schemas_zst_for(api_version: &str) -> Option<&'static [u8]> {\n    match api_version {\n");
    reveal_strlit("}\n");
}


/// The config region returns the ledger's default label, and nothing about
/// the entries changes it.
pub proof fn law_config_names_the_default(
    es: Seq<VersionEntryModel>,
    other: Seq<VersionEntryModel>,
    default_label: Seq<char>,
)
    ensures
        spec_config_schema_body(es, default_label) == "fn default_api_version() -> String {\n    \""@ + default_label + "\".to_string()\n}\n"@,
        spec_config_schema_body(es, default_label) == spec_config_schema_body(other, default_label),
{
}


proof fn lemma_store_lines_hold_each_entry(es: Seq<VersionEntryModel>, default_label: Seq<char>)
    ensures
        forall|i: int| 0 <= i < es.len() ==> occurs_in(store_lines(es, default_label), "    (\""@ + es[i].label + "\", \""@ + es[i].db_file + "\"),\n"@),
    decreases es.len(),
{
    if es.len() > 0 {
        let p = es.drop_last();
        lemma_store_lines_hold_each_entry(p, default_label);
        assert(store_lines(es, default_label) =~= store_lines(p, default_label) + ("    (\""@ + es[es.len() - 1].label + "\", \""@ + es[es.len() - 1].db_file + "\"),\n"@));
        assert forall|i: int| 0 <= i < es.len() implies occurs_in(store_lines(es, default_label), "    (\""@ + es[i].label + "\", \""@ + es[i].db_file + "\"),\n"@) by {
            if i < p.len() {
                assert(p[i] == es[i]);
            }
            lemma_occurs_in_concat(store_lines(p, default_label), "    (\""@ + es[es.len() - 1].label + "\", \""@ + es[es.len() - 1].db_file + "\"),\n"@, "    (\""@ + es[i].label + "\", \""@ + es[i].db_file + "\"),\n"@);
        }
    }
}

proof fn lemma_validator_lines_hold_each_entry(es: Seq<VersionEntryModel>, default_label: Seq<char>)
    ensures
        forall|i: int| 0 <= i < es.len() ==> occurs_in(validator_lines(es, default_label), "        \""@ + es[i].label + "\" => Some(include_bytes!(\""@ + es[i].schemas_file + "\")),\n"@),
    decreases es.len(),
{
    if es.len() > 0 {
        let p = es.drop_last();
        lemma_validator_lines_hold_each_entry(p, default_label);
        assert(validator_lines(es, default_label) =~= validator_lines(p, default_label) + ("        \""@ + es[es.len() - 1].label + "\" => Some(include_bytes!(\""@ + es[es.len() - 1].schemas_file + "\")),\n"@));
        assert forall|i: int| 0 <= i < es.len() implies occurs_in(validator_lines(es, default_label), "        \""@ + es[i].label + "\" => Some(include_bytes!(\""@ + es[i].schemas_file + "\")),\n"@) by {
            if i < p.len() {
                assert(p[i] == es[i]);
            }
            lemma_occurs_in_concat(validator_lines(p, default_label), "        \""@ + es[es.len() - 1].label + "\" => Some(include_bytes!(\""@ + es[es.len() - 1].schemas_file + "\")),\n"@, "        \""@ + es[i].label + "\" => Some(include_bytes!(\""@ + es[i].schemas_file + "\")),\n"@);
        }
    }
}

proof fn lemma_choice_lines_hold_each_entry(es: Seq<VersionEntryModel>, default_label: Seq<char>)
    ensures
        forall|i: int| 0 <= i < es.len() ==> occurs_in(choice_lines(es, default_label), "        \""@ + es[i].label + (if es[i].label == default_label { " (default/latest)"@ } else { Seq::empty() }) + "\",\n"@),
    decreases es.len(),
{
    if es.len() > 0 {
        let p = es.drop_last();
        lemma_choice_lines_hold_each_entry(p, default_label);
        assert(choice_lines(es, default_label) =~= choice_lines(p, default_label) + ("        \""@ + es[es.len() - 1].label + (if es[es.len() - 1].label == default_label { " (default/latest)"@ } else { Seq::empty() }) + "\",\n"@));
        assert forall|i: int| 0 <= i < es.len() implies occurs_in(choice_lines(es, default_label), "        \""@ + es[i].label + (if es[i].label == default_label { " (default/latest)"@ } else { Seq::empty() }) + "\",\n"@) by {
            if i < p.len() {
                assert(p[i] == es[i]);
            }
            lemma_occurs_in_concat(choice_lines(p, default_label), "        \""@ + es[es.len() - 1].label + (if es[es.len() - 1].label == default_label { " (default/latest)"@ } else { Seq::empty() }) + "\",\n"@, "        \""@ + es[i].label + (if es[i].label == default_label { " (default/latest)"@ } else { Seq::empty() }) + "\",\n"@);
        }
    }
}

proof fn lemma_selection_arm_lines_hold_each_entry(es: Seq<VersionEntryModel>, default_label: Seq<char>)
    ensures
        forall|i: int| 0 <= i < es.len() ==> occurs_in(selection_arm_lines(es, default_label), "        \""@ + es[i].label + (if es[i].label == default_label { " (default/latest)"@ } else { Seq::empty() }) + "\" => \""@ + es[i].label + "\".to_string(),\n"@),
    decreases es.len(),
{
    if es.len() > 0 {
        let p = es.drop_last();
        lemma_selection_arm_lines_hold_each_entry(p, default_label);
        assert(selection_arm_lines(es, default_label) =~= selection_arm_lines(p, default_label) + ("        \""@ + es[es.len() - 1].label + (if es[es.len() - 1].label == default_label { " (default/latest)"@ } else { Seq::empty() }) + "\" => \""@ + es[es.len() - 1].label + "\".to_string(),\n"@));
        assert forall|i: int| 0 <= i < es.len() implies occurs_in(selection_arm_lines(es, default_label), "        \""@ + es[i].label + (if es[i].label == default_label { " (default/latest)"@ } else { Seq::empty() }) + "\" => \""@ + es[i].label + "\".to_string(),\n"@) by {
            if i < p.len() {
                assert(p[i] == es[i]);
            }
            lemma_occurs_in_concat(selection_arm_lines(p, default_label), "        \""@ + es[es.len() - 1].label + (if es[es.len() - 1].label == default_label { " (default/latest)"@ } else { Seq::empty() }) + "\" => \""@ + es[es.len() - 1].label + "\".to_string(),\n"@, "        \""@ + es[i].label + (if es[i].label == default_label { " (default/latest)"@ } else { Seq::empty() }) + "\" => \""@ + es[i].label + "\".to_string(),\n"@);
        }
    }
}

proof fn lemma_version_row_lines_hold_each_entry(es: Seq<VersionEntryModel>, default_label: Seq<char>)
    ensures
        forall|i: int| 0 <= i < es.len() ==> occurs_in(version_row_lines(es, default_label), "    VersionRow {\n        label: \""@ + es[i].label + "\",\n        is_default: "@ + (if es[i].label == default_label { "true"@ } else { "false"@ }) + ",\n    },\n"@),
    decreases es.len(),
{
    if es.len() > 0 {
        let p = es.drop_last();
        lemma_version_row_lines_hold_each_entry(p, default_label);
        assert(version_row_lines(es, default_label) =~= version_row_lines(p, default_label) + ("    VersionRow {\n        label: \""@ + es[es.len() - 1].label + "\",\n        is_default: "@ + (if es[es.len() - 1].label == default_label { "true"@ } else { "false"@ }) + ",\n    },\n"@));
        assert forall|i: int| 0 <= i < es.len() implies occurs_in(version_row_lines(es, default_label), "    VersionRow {\n        label: \""@ + es[i].label + "\",\n        is_default: "@ + (if es[i].label == default_label { "true"@ } else { "false"@ }) + ",\n    },\n"@) by {
            if i < p.len() {
                assert(p[i] == es[i]);
            }
            lemma_occurs_in_concat(version_row_lines(p, default_label), "    VersionRow {\n        label: \""@ + es[es.len() - 1].label + "\",\n        is_default: "@ + (if es[es.len() - 1].label == default_label { "true"@ } else { "false"@ }) + ",\n    },\n"@, "    VersionRow {\n        label: \""@ + es[i].label + "\",\n        is_default: "@ + (if es[i].label == default_label { "true"@ } else { "false"@ }) + ",\n    },\n"@);
        }
    }
}

/// The region lists each version: every version of the ledger has its line, built from that entry's own
/// label and files (and flagged by comparing its label with the default).
pub proof fn law_store_body_lists_every_version(es: Seq<VersionEntryModel>, default_label: Seq<char>)
    ensures
        forall|i: int| 0 <= i < es.len() ==> occurs_in(spec_store_body(es, default_label), "    (\""@ + es[i].label + "\", \""@ + es[i].db_file + "\"),\n"@),
{
    lemma_store_lines_hold_each_entry(es, default_label);
    assert forall|i: int| 0 <= i < es.len() implies occurs_in(spec_store_body(es, default_label), "    (\""@ + es[i].label + "\", \""@ + es[i].db_file + "\"),\n"@) by {
        let t = "    (\""@ + es[i].label + "\", \""@ + es[i].db_file + "\"),\n"@;
        assert forall|a: Seq<char>, b: Seq<char>| #![trigger a + b] occurs_in(a, t) || occurs_in(b, t) implies occurs_in(a + b, t) by {
            lemma_occurs_in_concat(a, b, t);
        }
    }
}

/// The region lists each version: every version of the ledger has its line, built from that entry's own
/// label and files (and flagged by comparing its label with the default).
pub proof fn law_validator_body_lists_every_version(es: Seq<VersionEntryModel>, default_label: Seq<char>)
    ensures
        forall|i: int| 0 <= i < es.len() ==> occurs_in(spec_validator_body(es, default_label), "        \""@ + es[i].label + "\" => Some(include_bytes!(\""@ + es[i].schemas_file + "\")),\n"@),
{
    lemma_validator_lines_hold_each_entry(es, default_label);
    assert forall|i: int| 0 <= i < es.len() implies occurs_in(spec_validator_body(es, default_label), "        \""@ + es[i].label + "\" => Some(include_bytes!(\""@ + es[i].schemas_file + "\")),\n"@) by {
        let t = "        \""@ + es[i].label + "\" => Some(include_bytes!(\""@ + es[i].schemas_file + "\")),\n"@;
        assert forall|a: Seq<char>, b: Seq<char>| #![trigger a + b] occurs_in(a, t) || occurs_in(b, t) implies occurs_in(a + b, t) by {
            lemma_occurs_in_concat(a, b, t);
        }
    }
}

/// The region lists each version: with more than one version, the prompt offers every version, built from that entry's own
/// label and files (and flagged by comparing its label with the default).
pub proof fn law_setup_wizard_body_lists_every_version(es: Seq<VersionEntryModel>, default_label: Seq<char>)
    requires
        es.len() >= 2,
    ensures
        forall|i: int| 0 <= i < es.len() ==> occurs_in(spec_setup_wizard_body(es, default_label), "        \""@ + es[i].label + (if es[i].label == default_label { " (default/latest)"@ } else { Seq::empty() }) + "\",\n"@),
        forall|i: int| 0 <= i < es.len() ==> occurs_in(spec_setup_wizard_body(es, default_label), "        \""@ + es[i].label + (if es[i].label == default_label { " (default/latest)"@ } else { Seq::empty() }) + "\" => \""@ + es[i].label + "\".to_string(),\n"@),
{
    lemma_choice_lines_hold_each_entry(es, default_label);
    assert forall|i: int| 0 <= i < es.len() implies occurs_in(spec_setup_wizard_body(es, default_label), "        \""@ + es[i].label + (if es[i].label == default_label { " (default/latest)"@ } else { Seq::empty() }) + "\",\n"@) by {
        let t = "        \""@ + es[i].label + (if es[i].label == default_label { " (default/latest)"@ } else { Seq::empty() }) + "\",\n"@;
        assert forall|a: Seq<char>, b: Seq<char>| #![trigger a + b] occurs_in(a, t) || occurs_in(b, t) implies occurs_in(a + b, t) by {
            lemma_occurs_in_concat(a, b, t);
        }
    }
    lemma_selection_arm_lines_hold_each_entry(es, default_label);
    assert forall|i: int| 0 <= i < es.len() implies occurs_in(spec_setup_wizard_body(es, default_label), "        \""@ + es[i].label + (if es[i].label == default_label { " (default/latest)"@ } else { Seq::empty() }) + "\" => \""@ + es[i].label + "\".to_string(),\n"@) by {
        let t = "        \""@ + es[i].label + (if es[i].label == default_label { " (default/latest)"@ } else { Seq::empty() }) + "\" => \""@ + es[i].label + "\".to_string(),\n"@;
        assert forall|a: Seq<char>, b: Seq<char>| #![trigger a + b] occurs_in(a, t) || occurs_in(b, t) implies occurs_in(a + b, t) by {
            lemma_occurs_in_concat(a, b, t);
        }
    }
}

/// The region lists each version: every version of the ledger has its line, built from that entry's own
/// label and files (and flagged by comparing its label with the default).
pub proof fn law_versions_command_body_lists_every_version(es: Seq<VersionEntryModel>, default_label: Seq<char>)
    ensures
        forall|i: int| 0 <= i < es.len() ==> occurs_in(spec_versions_command_body(es, default_label), "    VersionRow {\n        label: \""@ + es[i].label + "\",\n        is_default: "@ + (if es[i].label == default_label { "true"@ } else { "false"@ }) + ",\n    },\n"@),
{
    lemma_version_row_lines_hold_each_entry(es, default_label);
    assert forall|i: int| 0 <= i < es.len() implies occurs_in(spec_versions_command_body(es, default_label), "    VersionRow {\n        label: \""@ + es[i].label + "\",\n        is_default: "@ + (if es[i].label == default_label { "true"@ } else { "false"@ }) + ",\n    },\n"@) by {
        let t = "    VersionRow {\n        label: \""@ + es[i].label + "\",\n        is_default: "@ + (if es[i].label == default_label { "true"@ } else { "false"@ }) + ",\n    },\n"@;
        assert forall|a: Seq<char>, b: Seq<char>| #![trigger a + b] occurs_in(a, t) || occurs_in(b, t) implies occurs_in(a + b, t) by {
            lemma_occurs_in_concat(a, b, t);
        }
    }
}


/// With no choice to make the prompt is skipped: the function returns the only version's label.
pub proof fn law_single_version_skips_the_prompt(es: Seq<VersionEntryModel>, default_label: Seq<char>)
    requires
        es.len() == 1,
    ensures
        occurs_in(spec_setup_wizard_body(es, default_label), "    Ok(\""@ + es[0].label + "\".to_string())\n"@),
{
    let t = "    Ok(\""@ + es[0].label + "\".to_string())\n"@;
    lemma_occurs_in_concat(t, Seq::empty(), t);
    assert forall|a: Seq<char>, b: Seq<char>| #![trigger a + b] occurs_in(a, t) || occurs_in(b, t) implies occurs_in(a + b, t) by {
        lemma_occurs_in_concat(a, b, t);
    }
}

} // verus!
