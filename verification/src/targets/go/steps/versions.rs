//! The version-aware regions of a Go project, re-rendered whenever its ledger changes. Each body ends with a blank line, as gofmt wants before the closing marker comment.

use crate::context::{entry_models, VersionEntryModel, VersionEntryView};
use crate::ledger::{ledger_entry_models, version_entries_from_ledger, Ledger};
use crate::marker_region::RegionPatch;
use crate::text::str_eq;
use crate::text::{lemma_occurs_in_concat, occurs_in};
use vstd::prelude::*;
use vstd::string::*;

verus! {

pub const CONFIG_PATH: &'static str = "internal/core/config.go";
pub const STORE_PATH: &'static str = "internal/data/store.go";
pub const VALIDATOR_PATH: &'static str = "internal/validation/validator.go";
pub const SETUP_PATH: &'static str = "internal/cli/setup.go";
pub const VERSIONS_PATH: &'static str = "internal/cli/versions.go";

/// One line per version of the region, in ledger order.
pub open spec fn store_lines(es: Seq<VersionEntryModel>, default_label: Seq<char>) -> Seq<char>
    decreases es.len(),
{
    if es.len() == 0 {
        Seq::empty()
    } else {
        let e = es.last();
        store_lines(es.drop_last(), default_label) + "\t\""@ + e.label + "\": \""@ + e.db_file + "\",\n"@
    }
}

/// One line per version of the region, in ledger order.
pub open spec fn embed_lines(es: Seq<VersionEntryModel>, default_label: Seq<char>) -> Seq<char>
    decreases es.len(),
{
    if es.len() == 0 {
        Seq::empty()
    } else {
        let e = es.last();
        embed_lines(es.drop_last(), default_label) + "//go:embed "@ + e.schemas_file + "\nvar embeddedSchemas_"@ + e.var_suffix + " []byte\n\n"@
    }
}

/// One line per version of the region, in ledger order.
pub open spec fn schema_map_lines(es: Seq<VersionEntryModel>, default_label: Seq<char>) -> Seq<char>
    decreases es.len(),
{
    if es.len() == 0 {
        Seq::empty()
    } else {
        let e = es.last();
        schema_map_lines(es.drop_last(), default_label) + "\t\""@ + e.label + "\": embeddedSchemas_"@ + e.var_suffix + ",\n"@
    }
}

/// One line per version of the region, in ledger order.
pub open spec fn choice_lines(es: Seq<VersionEntryModel>, default_label: Seq<char>) -> Seq<char>
    decreases es.len(),
{
    if es.len() == 0 {
        Seq::empty()
    } else {
        let e = es.last();
        choice_lines(es.drop_last(), default_label) + "\tchoices[\""@ + e.label + (if e.label == default_label { " (default/latest)"@ } else { Seq::empty() }) + "\"] = \""@ + e.label + "\"\n"@
    }
}

/// One line per version of the region, in ledger order.
pub open spec fn version_row_lines(es: Seq<VersionEntryModel>, default_label: Seq<char>) -> Seq<char>
    decreases es.len(),
{
    if es.len() == 0 {
        Seq::empty()
    } else {
        let e = es.last();
        version_row_lines(es.drop_last(), default_label) + "\t{Label: \""@ + e.label + "\", IsDefault: "@ + (if e.label == default_label { "true"@ } else { "false"@ }) + "},\n"@
    }
}

/// `defaultAPIVersion` returning the default label.
pub open spec fn spec_config_body(es: Seq<VersionEntryModel>, default_label: Seq<char>) -> Seq<char> {
    "func defaultAPIVersion() string { return \""@ + default_label + "\" }\n\n"@
}

pub fn config_body(default_label: &str) -> (r: String)
    ensures
        r@ == spec_config_body(Seq::empty(), default_label@),
{
    let mut body = String::new();
    body.append("func defaultAPIVersion() string { return \"");
    body.append(default_label);
    body.append("\" }\n\n");
    body
}

/// The `versionStoreFiles` map: each label to its store file.
pub open spec fn spec_store_body(es: Seq<VersionEntryModel>, default_label: Seq<char>) -> Seq<char> {
    "var versionStoreFiles = map[string]string{\n"@ + store_lines(es, default_label) + "}\n\n"@
}

pub fn store_body(entries: &Vec<VersionEntryView>) -> (r: String)
    ensures
        r@ == spec_store_body(entry_models(entries@), Seq::empty()),
{
    let mut body = String::new();
    body.append("var versionStoreFiles = map[string]string{\n");
    {
        let ghost head = body@;
        let mut i: usize = 0;
        while i < entries.len()
            invariant
                i <= entries.len(),
                body@ == head + store_lines(entry_models(entries@).take(i as int), Seq::empty()),
            decreases entries.len() - i,
        {
            assert(entry_models(entries@).take(i + 1).drop_last() =~= entry_models(entries@).take(i as int));
            body.append("\t\"");
            body.append(entries[i].label.as_str());
            body.append("\": \"");
            body.append(entries[i].db_file.as_str());
            body.append("\",\n");
            i = i + 1;
        }
        assert(entry_models(entries@).take(entries.len() as int) =~= entry_models(entries@));
    }
    body.append("}\n\n");
    body
}

/// One `//go:embed` directive and variable per version, then the map tying each label to its embedded bytes; it starts with a blank line so the first directive is not read as part of the marker comment.
pub open spec fn spec_validator_body(es: Seq<VersionEntryModel>, default_label: Seq<char>) -> Seq<char> {
    "\n"@ + embed_lines(es, default_label) + "var generatedSchemasByVersion = map[string][]byte{\n"@ + schema_map_lines(es, default_label) + "}\n\n"@
}

pub fn validator_body(entries: &Vec<VersionEntryView>) -> (r: String)
    ensures
        r@ == spec_validator_body(entry_models(entries@), Seq::empty()),
{
    let mut body = String::new();
    body.append("\n");
    {
        let ghost head = body@;
        let mut i: usize = 0;
        while i < entries.len()
            invariant
                i <= entries.len(),
                body@ == head + embed_lines(entry_models(entries@).take(i as int), Seq::empty()),
            decreases entries.len() - i,
        {
            assert(entry_models(entries@).take(i + 1).drop_last() =~= entry_models(entries@).take(i as int));
            body.append("//go:embed ");
            body.append(entries[i].schemas_file.as_str());
            body.append("\nvar embeddedSchemas_");
            body.append(entries[i].var_suffix.as_str());
            body.append(" []byte\n\n");
            i = i + 1;
        }
        assert(entry_models(entries@).take(entries.len() as int) =~= entry_models(entries@));
    }
    body.append("var generatedSchemasByVersion = map[string][]byte{\n");
    {
        let ghost head = body@;
        let mut i: usize = 0;
        while i < entries.len()
            invariant
                i <= entries.len(),
                body@ == head + schema_map_lines(entry_models(entries@).take(i as int), Seq::empty()),
            decreases entries.len() - i,
        {
            assert(entry_models(entries@).take(i + 1).drop_last() =~= entry_models(entries@).take(i as int));
            body.append("\t\"");
            body.append(entries[i].label.as_str());
            body.append("\": embeddedSchemas_");
            body.append(entries[i].var_suffix.as_str());
            body.append(",\n");
            i = i + 1;
        }
        assert(entry_models(entries@).take(entries.len() as int) =~= entry_models(entries@));
    }
    body.append("}\n\n");
    body
}

/// `promptApiVersion`: at most one version returns its label (the default when there is none) without asking; more than one renders a `survey.Select` with the default annotated.
pub open spec fn spec_setup_body(es: Seq<VersionEntryModel>, default_label: Seq<char>) -> Seq<char> {
    "func promptApiVersion() string {\n"@ + (if es.len() <= 1 { "\t// Only one version is available — nothing to choose between.\n\treturn \""@ + (if es.len() == 1 { es[0].label } else { default_label }) + "\"\n"@ } else { "\tchoices := map[string]string{}\n"@ + choice_lines(es, default_label) + "\toptions := make([]string, 0, len(choices))\n"@ + "\tfor key := range choices {\n\t\toptions = append(options, key)\n\t}\n"@ + "\tsort.Strings(options)\n\n"@ + "\tvar selection string\n"@ + "\t_ = survey.AskOne(&survey.Select{Message: \"API version to use:\", Options: options}, &selection)\n"@ + "\treturn choices[selection]\n"@ }) + "}\n\n"@
}

pub fn setup_body(entries: &Vec<VersionEntryView>, default_label: &str) -> (r: String)
    ensures
        r@ == spec_setup_body(entry_models(entries@), default_label@),
{
    let mut body = String::new();
    body.append("func promptApiVersion() string {\n");
    if entries.len() <= 1 {
        body.append("\t// Only one version is available — nothing to choose between.\n\treturn \"");
        if entries.len() == 1 {
            body.append(entries[0].label.as_str());
        } else {
            body.append(default_label);
        }
        body.append("\"\n");
    } else {
        body.append("\tchoices := map[string]string{}\n");
        {
            let ghost head = body@;
            let mut i: usize = 0;
            while i < entries.len()
                invariant
                    i <= entries.len(),
                    body@ == head + choice_lines(entry_models(entries@).take(i as int), default_label@),
                decreases entries.len() - i,
            {
                assert(entry_models(entries@).take(i + 1).drop_last() =~= entry_models(entries@).take(i as int));
                body.append("\tchoices[\"");
                body.append(entries[i].label.as_str());
                if str_eq(entries[i].label.as_str(), default_label) {
                    body.append(" (default/latest)");
                }
                body.append("\"] = \"");
                body.append(entries[i].label.as_str());
                body.append("\"\n");
                i = i + 1;
            }
            assert(entry_models(entries@).take(entries.len() as int) =~= entry_models(entries@));
        }
        body.append("\toptions := make([]string, 0, len(choices))\n");
        body.append("\tfor key := range choices {\n\t\toptions = append(options, key)\n\t}\n");
        body.append("\tsort.Strings(options)\n\n");
        body.append("\tvar selection string\n");
        body.append("\t_ = survey.AskOne(&survey.Select{Message: \"API version to use:\", Options: options}, &selection)\n");
        body.append("\treturn choices[selection]\n");
    }
    body.append("}\n\n");
    body
}

/// `KnownVersions`: one row per version, the default one flagged.
pub open spec fn spec_versions_body(es: Seq<VersionEntryModel>, default_label: Seq<char>) -> Seq<char> {
    "var KnownVersions = []VersionRow{\n"@ + version_row_lines(es, default_label) + "}\n\n"@
}

pub fn versions_body(entries: &Vec<VersionEntryView>, default_label: &str) -> (r: String)
    ensures
        r@ == spec_versions_body(entry_models(entries@), default_label@),
{
    let mut body = String::new();
    body.append("var KnownVersions = []VersionRow{\n");
    {
        let ghost head = body@;
        let mut i: usize = 0;
        while i < entries.len()
            invariant
                i <= entries.len(),
                body@ == head + version_row_lines(entry_models(entries@).take(i as int), default_label@),
            decreases entries.len() - i,
        {
            assert(entry_models(entries@).take(i + 1).drop_last() =~= entry_models(entries@).take(i as int));
            body.append("\t{Label: \"");
            body.append(entries[i].label.as_str());
            body.append("\", IsDefault: ");
            if str_eq(entries[i].label.as_str(), default_label) {
                body.append("true");
            } else {
                body.append("false");
            }
            body.append("},\n");
            i = i + 1;
        }
        assert(entry_models(entries@).take(entries.len() as int) =~= entry_models(entries@));
    }
    body.append("}\n\n");
    body
}

/// The five version-aware regions of a Go project, rendered from
/// the ledger; version-independent files are never touched.
pub fn version_patches(ledger: &Ledger) -> (r: Vec<RegionPatch>)
    ensures
        r.len() == 5,
        r@[0].path@ == CONFIG_PATH@,
        r@[0].body@ == spec_config_body(Seq::empty(), ledger.default_version@),
        r@[1].path@ == STORE_PATH@,
        r@[1].body@ == spec_store_body(ledger_entry_models(*ledger), Seq::empty()),
        r@[2].path@ == VALIDATOR_PATH@,
        r@[2].body@ == spec_validator_body(ledger_entry_models(*ledger), Seq::empty()),
        r@[3].path@ == SETUP_PATH@,
        r@[3].body@ == spec_setup_body(ledger_entry_models(*ledger), ledger.default_version@),
        r@[4].path@ == VERSIONS_PATH@,
        r@[4].body@ == spec_versions_body(ledger_entry_models(*ledger), ledger.default_version@),
{
    let entries = version_entries_from_ledger(ledger);
    let default_label = ledger.default_version.as_str();
    let mut r: Vec<RegionPatch> = Vec::new();
    r.push(RegionPatch { path: String::from_str(CONFIG_PATH), body: config_body(default_label) });
    r.push(RegionPatch { path: String::from_str(STORE_PATH), body: store_body(&entries) });
    r.push(RegionPatch { path: String::from_str(VALIDATOR_PATH), body: validator_body(&entries) });
    r.push(RegionPatch { path: String::from_str(SETUP_PATH), body: setup_body(&entries, default_label) });
    r.push(RegionPatch { path: String::from_str(VERSIONS_PATH), body: versions_body(&entries, default_label) });
    r
}

/// Every region body this target renders is non-empty and ends with a line
/// break, so after a sync the next one finds each region again
/// (`marker_region::law_region_replace_again`).
pub proof fn law_region_bodies_end_with_line_break(es: Seq<VersionEntryModel>, default_label: Seq<char>)
    ensures
        spec_config_body(es, default_label).len() > 0,
        spec_config_body(es, default_label).last() == '\n',
        spec_store_body(es, default_label).len() > 0,
        spec_store_body(es, default_label).last() == '\n',
        spec_validator_body(es, default_label).len() > 0,
        spec_validator_body(es, default_label).last() == '\n',
        spec_setup_body(es, default_label).len() > 0,
        spec_setup_body(es, default_label).last() == '\n',
        spec_versions_body(es, default_label).len() > 0,
        spec_versions_body(es, default_label).last() == '\n',
{
    reveal_strlit("\" }\n\n");
    reveal_strlit("\n");
    reveal_strlit("\t_ = survey.AskOne(&survey.Select{Message: \"API version to use:\", Options: options}, &selection)\n");
    reveal_strlit("\treturn choices[selection]\n");
    reveal_strlit("var KnownVersions = []VersionRow{\n");
    reveal_strlit("var generatedSchemasByVersion = map[string][]byte{\n");
    reveal_strlit("var versionStoreFiles = map[string]string{\n");
    reveal_strlit("}\n\n");
}


/// The config region returns the ledger's default label, and nothing about
/// the entries changes it.
pub proof fn law_config_names_the_default(
    es: Seq<VersionEntryModel>,
    other: Seq<VersionEntryModel>,
    default_label: Seq<char>,
)
    ensures
        spec_config_body(es, default_label) == "func defaultAPIVersion() string { return \""@ + default_label + "\" }\n\n"@,
        spec_config_body(es, default_label) == spec_config_body(other, default_label),
{
}


proof fn lemma_store_lines_hold_each_entry(es: Seq<VersionEntryModel>, default_label: Seq<char>)
    ensures
        forall|i: int| 0 <= i < es.len() ==> occurs_in(store_lines(es, default_label), "\t\""@ + es[i].label + "\": \""@ + es[i].db_file + "\",\n"@),
    decreases es.len(),
{
    if es.len() > 0 {
        let p = es.drop_last();
        lemma_store_lines_hold_each_entry(p, default_label);
        assert(store_lines(es, default_label) =~= store_lines(p, default_label) + ("\t\""@ + es[es.len() - 1].label + "\": \""@ + es[es.len() - 1].db_file + "\",\n"@));
        assert forall|i: int| 0 <= i < es.len() implies occurs_in(store_lines(es, default_label), "\t\""@ + es[i].label + "\": \""@ + es[i].db_file + "\",\n"@) by {
            if i < p.len() {
                assert(p[i] == es[i]);
            }
            lemma_occurs_in_concat(store_lines(p, default_label), "\t\""@ + es[es.len() - 1].label + "\": \""@ + es[es.len() - 1].db_file + "\",\n"@, "\t\""@ + es[i].label + "\": \""@ + es[i].db_file + "\",\n"@);
        }
    }
}

proof fn lemma_embed_lines_hold_each_entry(es: Seq<VersionEntryModel>, default_label: Seq<char>)
    ensures
        forall|i: int| 0 <= i < es.len() ==> occurs_in(embed_lines(es, default_label), "//go:embed "@ + es[i].schemas_file + "\nvar embeddedSchemas_"@ + es[i].var_suffix + " []byte\n\n"@),
    decreases es.len(),
{
    if es.len() > 0 {
        let p = es.drop_last();
        lemma_embed_lines_hold_each_entry(p, default_label);
        assert(embed_lines(es, default_label) =~= embed_lines(p, default_label) + ("//go:embed "@ + es[es.len() - 1].schemas_file + "\nvar embeddedSchemas_"@ + es[es.len() - 1].var_suffix + " []byte\n\n"@));
        assert forall|i: int| 0 <= i < es.len() implies occurs_in(embed_lines(es, default_label), "//go:embed "@ + es[i].schemas_file + "\nvar embeddedSchemas_"@ + es[i].var_suffix + " []byte\n\n"@) by {
            if i < p.len() {
                assert(p[i] == es[i]);
            }
            lemma_occurs_in_concat(embed_lines(p, default_label), "//go:embed "@ + es[es.len() - 1].schemas_file + "\nvar embeddedSchemas_"@ + es[es.len() - 1].var_suffix + " []byte\n\n"@, "//go:embed "@ + es[i].schemas_file + "\nvar embeddedSchemas_"@ + es[i].var_suffix + " []byte\n\n"@);
        }
    }
}

proof fn lemma_schema_map_lines_hold_each_entry(es: Seq<VersionEntryModel>, default_label: Seq<char>)
    ensures
        forall|i: int| 0 <= i < es.len() ==> occurs_in(schema_map_lines(es, default_label), "\t\""@ + es[i].label + "\": embeddedSchemas_"@ + es[i].var_suffix + ",\n"@),
    decreases es.len(),
{
    if es.len() > 0 {
        let p = es.drop_last();
        lemma_schema_map_lines_hold_each_entry(p, default_label);
        assert(schema_map_lines(es, default_label) =~= schema_map_lines(p, default_label) + ("\t\""@ + es[es.len() - 1].label + "\": embeddedSchemas_"@ + es[es.len() - 1].var_suffix + ",\n"@));
        assert forall|i: int| 0 <= i < es.len() implies occurs_in(schema_map_lines(es, default_label), "\t\""@ + es[i].label + "\": embeddedSchemas_"@ + es[i].var_suffix + ",\n"@) by {
            if i < p.len() {
                assert(p[i] == es[i]);
            }
            lemma_occurs_in_concat(schema_map_lines(p, default_label), "\t\""@ + es[es.len() - 1].label + "\": embeddedSchemas_"@ + es[es.len() - 1].var_suffix + ",\n"@, "\t\""@ + es[i].label + "\": embeddedSchemas_"@ + es[i].var_suffix + ",\n"@);
        }
    }
}

proof fn lemma_choice_lines_hold_each_entry(es: Seq<VersionEntryModel>, default_label: Seq<char>)
    ensures
        forall|i: int| 0 <= i < es.len() ==> occurs_in(choice_lines(es, default_label), "\tchoices[\""@ + es[i].label + (if es[i].label == default_label { " (default/latest)"@ } else { Seq::empty() }) + "\"] = \""@ + es[i].label + "\"\n"@),
    decreases es.len(),
{
    if es.len() > 0 {
        let p = es.drop_last();
        lemma_choice_lines_hold_each_entry(p, default_label);
        assert(choice_lines(es, default_label) =~= choice_lines(p, default_label) + ("\tchoices[\""@ + es[es.len() - 1].label + (if es[es.len() - 1].label == default_label { " (default/latest)"@ } else { Seq::empty() }) + "\"] = \""@ + es[es.len() - 1].label + "\"\n"@));
        assert forall|i: int| 0 <= i < es.len() implies occurs_in(choice_lines(es, default_label), "\tchoices[\""@ + es[i].label + (if es[i].label == default_label { " (default/latest)"@ } else { Seq::empty() }) + "\"] = \""@ + es[i].label + "\"\n"@) by {
            if i < p.len() {
                assert(p[i] == es[i]);
            }
            lemma_occurs_in_concat(choice_lines(p, default_label), "\tchoices[\""@ + es[es.len() - 1].label + (if es[es.len() - 1].label == default_label { " (default/latest)"@ } else { Seq::empty() }) + "\"] = \""@ + es[es.len() - 1].label + "\"\n"@, "\tchoices[\""@ + es[i].label + (if es[i].label == default_label { " (default/latest)"@ } else { Seq::empty() }) + "\"] = \""@ + es[i].label + "\"\n"@);
        }
    }
}

proof fn lemma_version_row_lines_hold_each_entry(es: Seq<VersionEntryModel>, default_label: Seq<char>)
    ensures
        forall|i: int| 0 <= i < es.len() ==> occurs_in(version_row_lines(es, default_label), "\t{Label: \""@ + es[i].label + "\", IsDefault: "@ + (if es[i].label == default_label { "true"@ } else { "false"@ }) + "},\n"@),
    decreases es.len(),
{
    if es.len() > 0 {
        let p = es.drop_last();
        lemma_version_row_lines_hold_each_entry(p, default_label);
        assert(version_row_lines(es, default_label) =~= version_row_lines(p, default_label) + ("\t{Label: \""@ + es[es.len() - 1].label + "\", IsDefault: "@ + (if es[es.len() - 1].label == default_label { "true"@ } else { "false"@ }) + "},\n"@));
        assert forall|i: int| 0 <= i < es.len() implies occurs_in(version_row_lines(es, default_label), "\t{Label: \""@ + es[i].label + "\", IsDefault: "@ + (if es[i].label == default_label { "true"@ } else { "false"@ }) + "},\n"@) by {
            if i < p.len() {
                assert(p[i] == es[i]);
            }
            lemma_occurs_in_concat(version_row_lines(p, default_label), "\t{Label: \""@ + es[es.len() - 1].label + "\", IsDefault: "@ + (if es[es.len() - 1].label == default_label { "true"@ } else { "false"@ }) + "},\n"@, "\t{Label: \""@ + es[i].label + "\", IsDefault: "@ + (if es[i].label == default_label { "true"@ } else { "false"@ }) + "},\n"@);
        }
    }
}

/// The region lists each version: every version of the ledger has its line, built from that entry's own
/// label and files (and flagged by comparing its label with the default).
pub proof fn law_store_body_lists_every_version(es: Seq<VersionEntryModel>, default_label: Seq<char>)
    ensures
        forall|i: int| 0 <= i < es.len() ==> occurs_in(spec_store_body(es, default_label), "\t\""@ + es[i].label + "\": \""@ + es[i].db_file + "\",\n"@),
{
    lemma_store_lines_hold_each_entry(es, default_label);
    assert forall|i: int| 0 <= i < es.len() implies occurs_in(spec_store_body(es, default_label), "\t\""@ + es[i].label + "\": \""@ + es[i].db_file + "\",\n"@) by {
        let t = "\t\""@ + es[i].label + "\": \""@ + es[i].db_file + "\",\n"@;
        assert forall|a: Seq<char>, b: Seq<char>| #![trigger a + b] occurs_in(a, t) || occurs_in(b, t) implies occurs_in(a + b, t) by {
            lemma_occurs_in_concat(a, b, t);
        }
    }
}

/// The region lists each version: every version of the ledger has its line, built from that entry's own
/// label and files (and flagged by comparing its label with the default).
pub proof fn law_validator_body_lists_every_version(es: Seq<VersionEntryModel>, default_label: Seq<char>)
    ensures
        forall|i: int| 0 <= i < es.len() ==> occurs_in(spec_validator_body(es, default_label), "//go:embed "@ + es[i].schemas_file + "\nvar embeddedSchemas_"@ + es[i].var_suffix + " []byte\n\n"@),
        forall|i: int| 0 <= i < es.len() ==> occurs_in(spec_validator_body(es, default_label), "\t\""@ + es[i].label + "\": embeddedSchemas_"@ + es[i].var_suffix + ",\n"@),
{
    lemma_embed_lines_hold_each_entry(es, default_label);
    assert forall|i: int| 0 <= i < es.len() implies occurs_in(spec_validator_body(es, default_label), "//go:embed "@ + es[i].schemas_file + "\nvar embeddedSchemas_"@ + es[i].var_suffix + " []byte\n\n"@) by {
        let t = "//go:embed "@ + es[i].schemas_file + "\nvar embeddedSchemas_"@ + es[i].var_suffix + " []byte\n\n"@;
        assert forall|a: Seq<char>, b: Seq<char>| #![trigger a + b] occurs_in(a, t) || occurs_in(b, t) implies occurs_in(a + b, t) by {
            lemma_occurs_in_concat(a, b, t);
        }
    }
    lemma_schema_map_lines_hold_each_entry(es, default_label);
    assert forall|i: int| 0 <= i < es.len() implies occurs_in(spec_validator_body(es, default_label), "\t\""@ + es[i].label + "\": embeddedSchemas_"@ + es[i].var_suffix + ",\n"@) by {
        let t = "\t\""@ + es[i].label + "\": embeddedSchemas_"@ + es[i].var_suffix + ",\n"@;
        assert forall|a: Seq<char>, b: Seq<char>| #![trigger a + b] occurs_in(a, t) || occurs_in(b, t) implies occurs_in(a + b, t) by {
            lemma_occurs_in_concat(a, b, t);
        }
    }
}

/// The region lists each version: with more than one version, the prompt offers every version, built from that entry's own
/// label and files (and flagged by comparing its label with the default).
pub proof fn law_setup_body_lists_every_version(es: Seq<VersionEntryModel>, default_label: Seq<char>)
    requires
        es.len() >= 2,
    ensures
        forall|i: int| 0 <= i < es.len() ==> occurs_in(spec_setup_body(es, default_label), "\tchoices[\""@ + es[i].label + (if es[i].label == default_label { " (default/latest)"@ } else { Seq::empty() }) + "\"] = \""@ + es[i].label + "\"\n"@),
{
    lemma_choice_lines_hold_each_entry(es, default_label);
    assert forall|i: int| 0 <= i < es.len() implies occurs_in(spec_setup_body(es, default_label), "\tchoices[\""@ + es[i].label + (if es[i].label == default_label { " (default/latest)"@ } else { Seq::empty() }) + "\"] = \""@ + es[i].label + "\"\n"@) by {
        let t = "\tchoices[\""@ + es[i].label + (if es[i].label == default_label { " (default/latest)"@ } else { Seq::empty() }) + "\"] = \""@ + es[i].label + "\"\n"@;
        assert forall|a: Seq<char>, b: Seq<char>| #![trigger a + b] occurs_in(a, t) || occurs_in(b, t) implies occurs_in(a + b, t) by {
            lemma_occurs_in_concat(a, b, t);
        }
    }
}

/// The region lists each version: every version of the ledger has its line, built from that entry's own
/// label and files (and flagged by comparing its label with the default).
pub proof fn law_versions_body_lists_every_version(es: Seq<VersionEntryModel>, default_label: Seq<char>)
    ensures
        forall|i: int| 0 <= i < es.len() ==> occurs_in(spec_versions_body(es, default_label), "\t{Label: \""@ + es[i].label + "\", IsDefault: "@ + (if es[i].label == default_label { "true"@ } else { "false"@ }) + "},\n"@),
{
    lemma_version_row_lines_hold_each_entry(es, default_label);
    assert forall|i: int| 0 <= i < es.len() implies occurs_in(spec_versions_body(es, default_label), "\t{Label: \""@ + es[i].label + "\", IsDefault: "@ + (if es[i].label == default_label { "true"@ } else { "false"@ }) + "},\n"@) by {
        let t = "\t{Label: \""@ + es[i].label + "\", IsDefault: "@ + (if es[i].label == default_label { "true"@ } else { "false"@ }) + "},\n"@;
        assert forall|a: Seq<char>, b: Seq<char>| #![trigger a + b] occurs_in(a, t) || occurs_in(b, t) implies occurs_in(a + b, t) by {
            lemma_occurs_in_concat(a, b, t);
        }
    }
}


/// With no choice to make the prompt is skipped: the function returns the only version's label (the default label when there is none).
pub proof fn law_single_version_skips_the_prompt(es: Seq<VersionEntryModel>, default_label: Seq<char>)
    requires
        es.len() <= 1,
    ensures
        occurs_in(spec_setup_body(es, default_label), "\t// Only one version is available — nothing to choose between.\n\treturn \""@ + (if es.len() == 1 { es[0].label } else { default_label }) + "\"\n"@),
{
    let t = "\t// Only one version is available — nothing to choose between.\n\treturn \""@ + (if es.len() == 1 { es[0].label } else { default_label }) + "\"\n"@;
    lemma_occurs_in_concat(t, Seq::empty(), t);
    assert forall|a: Seq<char>, b: Seq<char>| #![trigger a + b] occurs_in(a, t) || occurs_in(b, t) implies occurs_in(a + b, t) by {
        lemma_occurs_in_concat(a, b, t);
    }
}

} // verus!
