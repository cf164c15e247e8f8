//! The version-aware regions of a C# project, re-rendered whenever its ledger changes.

use crate::context::{entry_models, VersionEntryModel, VersionEntryView};
use crate::ledger::{ledger_entry_models, version_entries_from_ledger, Ledger};
use crate::marker_region::RegionPatch;
use crate::text::str_eq;
use crate::text::{lemma_occurs_in_concat, occurs_in};
use vstd::prelude::*;
use vstd::string::*;

verus! {

pub const CONFIG_PATH: &'static str = "Core/Config.cs";
pub const STORE_PATH: &'static str = "Data/SqliteVecStore.cs";
pub const VALIDATOR_PATH: &'static str = "Validation/Validator.cs";
pub const SETUP_WIZARD_PATH: &'static str = "Cli/SetupWizard.cs";
pub const VERSIONS_COMMAND_PATH: &'static str = "Cli/VersionsCommand.cs";

/// One line per version of the region, in ledger order.
pub open spec fn store_lines(es: Seq<VersionEntryModel>, default_label: Seq<char>) -> Seq<char>
    decreases es.len(),
{
    if es.len() == 0 {
        Seq::empty()
    } else {
        let e = es.last();
        store_lines(es.drop_last(), default_label) + "    [\""@ + e.label + "\"] = \""@ + e.db_file + "\",\n"@
    }
}

/// One line per version of the region, in ledger order.
pub open spec fn validator_lines(es: Seq<VersionEntryModel>, default_label: Seq<char>) -> Seq<char>
    decreases es.len(),
{
    if es.len() == 0 {
        Seq::empty()
    } else {
        let e = es.last();
        validator_lines(es.drop_last(), default_label) + "    [\""@ + e.label + "\"] = \""@ + e.schemas_file + "\",\n"@
    }
}

/// One line per version of the region, in ledger order.
pub open spec fn choice_lines(es: Seq<VersionEntryModel>, default_label: Seq<char>) -> Seq<char>
    decreases es.len(),
{
    if es.len() == 0 {
        Seq::empty()
    } else {
        let e = es.last();
        choice_lines(es.drop_last(), default_label) + "        [\""@ + e.label + (if e.label == default_label { " (default/latest)"@ } else { Seq::empty() }) + "\"] = \""@ + e.label + "\",\n"@
    }
}

/// One line per version of the region, in ledger order.
pub open spec fn version_row_lines(es: Seq<VersionEntryModel>, default_label: Seq<char>) -> Seq<char>
    decreases es.len(),
{
    if es.len() == 0 {
        Seq::empty()
    } else {
        let e = es.last();
        version_row_lines(es.drop_last(), default_label) + "    new VersionRow(\""@ + e.label + "\", "@ + (if e.label == default_label { "true"@ } else { "false"@ }) + "),\n"@
    }
}

/// The `ApiVersion` config property defaulting to the default label.
pub open spec fn spec_config_body(es: Seq<VersionEntryModel>, default_label: Seq<char>) -> Seq<char> {
    "public string ApiVersion { get; set; } = \""@ + default_label + "\";\n"@
}

pub fn config_body(default_label: &str) -> (r: String)
    ensures
        r@ == spec_config_body(Seq::empty(), default_label@),
{
    let mut body = String::new();
    body.append("public string ApiVersion { get; set; } = \"");
    body.append(default_label);
    body.append("\";\n");
    body
}

/// The `VersionStoreFiles` dictionary: each label to its store file.
pub open spec fn spec_store_body(es: Seq<VersionEntryModel>, default_label: Seq<char>) -> Seq<char> {
    "private static readonly Dictionary<string, string> VersionStoreFiles = new()\n{\n"@ + store_lines(es, default_label) + "};\n"@
}

pub fn store_body(entries: &Vec<VersionEntryView>) -> (r: String)
    ensures
        r@ == spec_store_body(entry_models(entries@), Seq::empty()),
{
    let mut body = String::new();
    body.append("private static readonly Dictionary<string, string> VersionStoreFiles = new()\n{\n");
    {
        let ghost head = body@;
        let mut i: usize = 0;
        while i < entries.len()
            invariant
                i <= entries.len(),
                body@ == head + store_lines(entry_models(entries@).take(i as int), Seq::empty()),
            decreases entries.len() - i,
        {
            assert(entry_models(entries@).take(i + 1).drop_last() =~= entry_models(entries@).take(i as int));
            body.append("    [\"");
            body.append(entries[i].label.as_str());
            body.append("\"] = \"");
            body.append(entries[i].db_file.as_str());
            body.append("\",\n");
            i = i + 1;
        }
        assert(entry_models(entries@).take(entries.len() as int) =~= entry_models(entries@));
    }
    body.append("};\n");
    body
}

/// The `VersionSchemasFiles` dictionary: each label to its schemas asset.
pub open spec fn spec_validator_body(es: Seq<VersionEntryModel>, default_label: Seq<char>) -> Seq<char> {
    "private static readonly Dictionary<string, string> VersionSchemasFiles = new()\n{\n"@ + validator_lines(es, default_label) + "};\n"@
}

pub fn validator_body(entries: &Vec<VersionEntryView>) -> (r: String)
    ensures
        r@ == spec_validator_body(entry_models(entries@), Seq::empty()),
{
    let mut body = String::new();
    body.append("private static readonly Dictionary<string, string> VersionSchemasFiles = new()\n{\n");
    {
        let ghost head = body@;
        let mut i: usize = 0;
        while i < entries.len()
            invariant
                i <= entries.len(),
                body@ == head + validator_lines(entry_models(entries@).take(i as int), Seq::empty()),
            decreases entries.len() - i,
        {
            assert(entry_models(entries@).take(i + 1).drop_last() =~= entry_models(entries@).take(i as int));
            body.append("    [\"");
            body.append(entries[i].label.as_str());
            body.append("\"] = \"");
            body.append(entries[i].schemas_file.as_str());
            body.append("\",\n");
            i = i + 1;
        }
        assert(entry_models(entries@).take(entries.len() as int) =~= entry_models(entries@));
    }
    body.append("};\n");
    body
}

/// `PromptApiVersion`: at most one version returns its label (the default when there is none) without asking; more than one renders a `SelectionPrompt` with the default annotated.
pub open spec fn spec_setup_wizard_body(es: Seq<VersionEntryModel>, default_label: Seq<char>) -> Seq<char> {
    "private static string PromptApiVersion()\n{\n"@ + (if es.len() <= 1 { "    // Only one version is available — nothing to choose between.\n    return \""@ + (if es.len() == 1 { es[0].label } else { default_label }) + "\";\n"@ } else { "    var choices = new Dictionary<string, string>\n    {\n"@ + choice_lines(es, default_label) + "    };\n"@ + "    var selection = AnsiConsole.Prompt(\n"@ + "        new SelectionPrompt<string>().Title(\"API version to use:\").AddChoices(choices.Keys));\n"@ + "    return choices[selection];\n"@ }) + "}\n"@
}

pub fn setup_wizard_body(entries: &Vec<VersionEntryView>, default_label: &str) -> (r: String)
    ensures
        r@ == spec_setup_wizard_body(entry_models(entries@), default_label@),
{
    let mut body = String::new();
    body.append("private static string PromptApiVersion()\n{\n");
    if entries.len() <= 1 {
        body.append("    // Only one version is available — nothing to choose between.\n    return \"");
        if entries.len() == 1 {
            body.append(entries[0].label.as_str());
        } else {
            body.append(default_label);
        }
        body.append("\";\n");
    } else {
        body.append("    var choices = new Dictionary<string, string>\n    {\n");
        {
            let ghost head = body@;
            let mut i: usize = 0;
            while i < entries.len()
                invariant
                    i <= entries.len(),
                    body@ == head + choice_lines(entry_models(entries@).take(i as int), default_label@),
                decreases entries.len() - i,
            {
                assert(entry_models(entries@).take(i + 1).drop_last() =~= entry_models(entries@).take(i as int));
                body.append("        [\"");
                body.append(entries[i].label.as_str());
                if str_eq(entries[i].label.as_str(), default_label) {
                    body.append(" (default/latest)");
                }
                body.append("\"] = \"");
                body.append(entries[i].label.as_str());
                body.append("\",\n");
                i = i + 1;
            }
            assert(entry_models(entries@).take(entries.len() as int) =~= entry_models(entries@));
        }
        body.append("    };\n");
        body.append("    var selection = AnsiConsole.Prompt(\n");
        body.append("        new SelectionPrompt<string>().Title(\"API version to use:\").AddChoices(choices.Keys));\n");
        body.append("    return choices[selection];\n");
    }
    body.append("}\n");
    body
}

/// `KnownVersions`: one row per version, the default one flagged.
pub open spec fn spec_versions_command_body(es: Seq<VersionEntryModel>, default_label: Seq<char>) -> Seq<char> {
    "public static readonly IReadOnlyList<VersionRow> KnownVersions =\n[\n"@ + version_row_lines(es, default_label) + "];\n"@
}

pub fn versions_command_body(entries: &Vec<VersionEntryView>, default_label: &str) -> (r: String)
    ensures
        r@ == spec_versions_command_body(entry_models(entries@), default_label@),
{
    let mut body = String::new();
    body.append("public static readonly IReadOnlyList<VersionRow> KnownVersions =\n[\n");
    {
        let ghost head = body@;
        let mut i: usize = 0;
        while i < entries.len()
            invariant
                i <= entries.len(),
                body@ == head + version_row_lines(entry_models(entries@).take(i as int), default_label@),
            decreases entries.len() - i,
        {
            assert(entry_models(entries@).take(i + 1).drop_last() =~= entry_models(entries@).take(i as int));
            body.append("    new VersionRow(\"");
            body.append(entries[i].label.as_str());
            body.append("\", ");
            if str_eq(entries[i].label.as_str(), default_label) {
                body.append("true");
            } else {
                body.append("false");
            }
            body.append("),\n");
            i = i + 1;
        }
        assert(entry_models(entries@).take(entries.len() as int) =~= entry_models(entries@));
    }
    body.append("];\n");
    body
}

/// The five version-aware regions of a C# project, rendered from
/// the ledger; version-independent files are never touched.
pub fn version_patches(ledger: &Ledger) -> (r: Vec<RegionPatch>)
    ensures
        r.len() == 5,
        r@[0].path@ == CONFIG_PATH@,
        r@[0].body@ == spec_config_body(Seq::empty(), ledger.default_version@),
        r@[1].path@ == STORE_PATH@,
        r@[1].body@ == spec_store_body(ledger_entry_models(*ledger), Seq::empty()),
        r@[2].path@ == VALIDATOR_PATH@,
        r@[2].body@ == spec_validator_body(ledger_entry_models(*ledger), Seq::empty()),
        r@[3].path@ == SETUP_WIZARD_PATH@,
        r@[3].body@ == spec_setup_wizard_body(ledger_entry_models(*ledger), ledger.default_version@),
        r@[4].path@ == VERSIONS_COMMAND_PATH@,
        r@[4].body@ == spec_versions_command_body(ledger_entry_models(*ledger), ledger.default_version@),
{
    let entries = version_entries_from_ledger(ledger);
    let default_label = ledger.default_version.as_str();
    let mut r: Vec<RegionPatch> = Vec::new();
    r.push(RegionPatch { path: String::from_str(CONFIG_PATH), body: config_body(default_label) });
    r.push(RegionPatch { path: String::from_str(STORE_PATH), body: store_body(&entries) });
    r.push(RegionPatch { path: String::from_str(VALIDATOR_PATH), body: validator_body(&entries) });
    r.push(RegionPatch { path: String::from_str(SETUP_WIZARD_PATH), body: setup_wizard_body(&entries, default_label) });
    r.push(RegionPatch { path: String::from_str(VERSIONS_COMMAND_PATH), body: versions_command_body(&entries, default_label) });
    r
}

/// Every region body this target renders is non-empty and ends with a line
/// break, so after a sync the next one finds each region again
/// (`marker_region::law_region_replace_again`).
pub proof fn law_region_bodies_end_with_line_break(es: Seq<VersionEntryModel>, default_label: Seq<char>)
    ensures
        spec_config_body(es, default_label).len() > 0,
        spec_config_body(es, default_label).last() == '\n',
        spec_store_body(es, default_label).len() > 0,
        spec_store_body(es, default_label).last() == '\n',
        spec_validator_body(es, default_label).len() > 0,
        spec_validator_body(es, default_label).last() == '\n',
        spec_setup_wizard_body(es, default_label).len() > 0,
        spec_setup_wizard_body(es, default_label).last() == '\n',
        spec_versions_command_body(es, default_label).len() > 0,
        spec_versions_command_body(es, default_label).last() == '\n',
{
    reveal_strlit("        new SelectionPrompt<string>().Title(\"API version to use:\").AddChoices(choices.Keys));\n");
    reveal_strlit("    return choices[selection];\n");
    reveal_strlit("\";\n");
    reveal_strlit("];\n");
    reveal_strlit("private static readonly Dictionary<string, string> VersionSchemasFiles = new()\n{\n");
    reveal_strlit("private static readonly Dictionary<string, string> VersionStoreFiles = new()\n{\n");
    reveal_strlit("public static readonly IReadOnlyList<VersionRow> KnownVersions =\n[\n");
    reveal_strlit("};\n");
    reveal_strlit("}\n");
}


/// The config region returns the ledger's default label, and nothing about
/// the entries changes it.
pub proof fn law_config_names_the_default(
    es: Seq<VersionEntryModel>,
    other: Seq<VersionEntryModel>,
    default_label: Seq<char>,
)
    ensures
        spec_config_body(es, default_label) == "public string ApiVersion { get; set; } = \""@ + default_label + "\";\n"@,
        spec_config_body(es, default_label) == spec_config_body(other, default_label),
{
}


proof fn lemma_store_lines_hold_each_entry(es: Seq<VersionEntryModel>, default_label: Seq<char>)
    ensures
        forall|i: int| 0 <= i < es.len() ==> occurs_in(store_lines(es, default_label), "    [\""@ + es[i].label + "\"] = \""@ + es[i].db_file + "\",\n"@),
    decreases es.len(),
{
    if es.len() > 0 {
        let p = es.drop_last();
        lemma_store_lines_hold_each_entry(p, default_label);
        assert(store_lines(es, default_label) =~= store_lines(p, default_label) + ("    [\""@ + es[es.len() - 1].label + "\"] = \""@ + es[es.len() - 1].db_file + "\",\n"@));
        assert forall|i: int| 0 <= i < es.len() implies occurs_in(store_lines(es, default_label), "    [\""@ + es[i].label + "\"] = \""@ + es[i].db_file + "\",\n"@) by {
            if i < p.len() {
                assert(p[i] == es[i]);
            }
            lemma_occurs_in_concat(store_lines(p, default_label), "    [\""@ + es[es.len() - 1].label + "\"] = \""@ + es[es.len() - 1].db_file + "\",\n"@, "    [\""@ + es[i].label + "\"] = \""@ + es[i].db_file + "\",\n"@);
        }
    }
}

proof fn lemma_validator_lines_hold_each_entry(es: Seq<VersionEntryModel>, default_label: Seq<char>)
    ensures
        forall|i: int| 0 <= i < es.len() ==> occurs_in(validator_lines(es, default_label), "    [\""@ + es[i].label + "\"] = \""@ + es[i].schemas_file + "\",\n"@),
    decreases es.len(),
{
    if es.len() > 0 {
        let p = es.drop_last();
        lemma_validator_lines_hold_each_entry(p, default_label);
        assert(validator_lines(es, default_label) =~= validator_lines(p, default_label) + ("    [\""@ + es[es.len() - 1].label + "\"] = \""@ + es[es.len() - 1].schemas_file + "\",\n"@));
        assert forall|i: int| 0 <= i < es.len() implies occurs_in(validator_lines(es, default_label), "    [\""@ + es[i].label + "\"] = \""@ + es[i].schemas_file + "\",\n"@) by {
            if i < p.len() {
                assert(p[i] == es[i]);
            }
            lemma_occurs_in_concat(validator_lines(p, default_label), "    [\""@ + es[es.len() - 1].label + "\"] = \""@ + es[es.len() - 1].schemas_file + "\",\n"@, "    [\""@ + es[i].label + "\"] = \""@ + es[i].schemas_file + "\",\n"@);
        }
    }
}

proof fn lemma_choice_lines_hold_each_entry(es: Seq<VersionEntryModel>, default_label: Seq<char>)
    ensures
        forall|i: int| 0 <= i < es.len() ==> occurs_in(choice_lines(es, default_label), "        [\""@ + es[i].label + (if es[i].label == default_label { " (default/latest)"@ } else { Seq::empty() }) + "\"] = \""@ + es[i].label + "\",\n"@),
    decreases es.len(),
{
    if es.len() > 0 {
        let p = es.drop_last();
        lemma_choice_lines_hold_each_entry(p, default_label);
        assert(choice_lines(es, default_label) =~= choice_lines(p, default_label) + ("        [\""@ + es[es.len() - 1].label + (if es[es.len() - 1].label == default_label { " (default/latest)"@ } else { Seq::empty() }) + "\"] = \""@ + es[es.len() - 1].label + "\",\n"@));
        assert forall|i: int| 0 <= i < es.len() implies occurs_in(choice_lines(es, default_label), "        [\""@ + es[i].label + (if es[i].label == default_label { " (default/latest)"@ } else { Seq::empty() }) + "\"] = \""@ + es[i].label + "\",\n"@) by {
            if i < p.len() {
                assert(p[i] == es[i]);
            }
            lemma_occurs_in_concat(choice_lines(p, default_label), "        [\""@ + es[es.len() - 1].label + (if es[es.len() - 1].label == default_label { " (default/latest)"@ } else { Seq::empty() }) + "\"] = \""@ + es[es.len() - 1].label + "\",\n"@, "        [\""@ + es[i].label + (if es[i].label == default_label { " (default/latest)"@ } else { Seq::empty() }) + "\"] = \""@ + es[i].label + "\",\n"@);
        }
    }
}

proof fn lemma_version_row_lines_hold_each_entry(es: Seq<VersionEntryModel>, default_label: Seq<char>)
    ensures
        forall|i: int| 0 <= i < es.len() ==> occurs_in(version_row_lines(es, default_label), "    new VersionRow(\""@ + es[i].label + "\", "@ + (if es[i].label == default_label { "true"@ } else { "false"@ }) + "),\n"@),
    decreases es.len(),
{
    if es.len() > 0 {
        let p = es.drop_last();
        lemma_version_row_lines_hold_each_entry(p, default_label);
        assert(version_row_lines(es, default_label) =~= version_row_lines(p, default_label) + ("    new VersionRow(\""@ + es[es.len() - 1].label + "\", "@ + (if es[es.len() - 1].label == default_label { "true"@ } else { "false"@ }) + "),\n"@));
        assert forall|i: int| 0 <= i < es.len() implies occurs_in(version_row_lines(es, default_label), "    new VersionRow(\""@ + es[i].label + "\", "@ + (if es[i].label == default_label { "true"@ } else { "false"@ }) + "),\n"@) by {
            if i < p.len() {
                assert(p[i] == es[i]);
            }
            lemma_occurs_in_concat(version_row_lines(p, default_label), "    new VersionRow(\""@ + es[es.len() - 1].label + "\", "@ + (if es[es.len() - 1].label == default_label { "true"@ } else { "false"@ }) + "),\n"@, "    new VersionRow(\""@ + es[i].label + "\", "@ + (if es[i].label == default_label { "true"@ } else { "false"@ }) + "),\n"@);
        }
    }
}

/// The region lists each version: every version of the ledger has its line, built from that entry's own
/// label and files (and flagged by comparing its label with the default).
pub proof fn law_store_body_lists_every_version(es: Seq<VersionEntryModel>, default_label: Seq<char>)
    ensures
        forall|i: int| 0 <= i < es.len() ==> occurs_in(spec_store_body(es, default_label), "    [\""@ + es[i].label + "\"] = \""@ + es[i].db_file + "\",\n"@),
{
    lemma_store_lines_hold_each_entry(es, default_label);
    assert forall|i: int| 0 <= i < es.len() implies occurs_in(spec_store_body(es, default_label), "    [\""@ + es[i].label + "\"] = \""@ + es[i].db_file + "\",\n"@) by {
        let t = "    [\""@ + es[i].label + "\"] = \""@ + es[i].db_file + "\",\n"@;
        assert forall|a: Seq<char>, b: Seq<char>| #![trigger a + b] occurs_in(a, t) || occurs_in(b, t) implies occurs_in(a + b, t) by {
            lemma_occurs_in_concat(a, b, t);
        }
    }
}

/// The region lists each version: every version of the ledger has its line, built from that entry's own
/// label and files (and flagged by comparing its label with the default).
pub proof fn law_validator_body_lists_every_version(es: Seq<VersionEntryModel>, default_label: Seq<char>)
    ensures
        forall|i: int| 0 <= i < es.len() ==> occurs_in(spec_validator_body(es, default_label), "    [\""@ + es[i].label + "\"] = \""@ + es[i].schemas_file + "\",\n"@),
{
    lemma_validator_lines_hold_each_entry(es, default_label);
    assert forall|i: int| 0 <= i < es.len() implies occurs_in(spec_validator_body(es, default_label), "    [\""@ + es[i].label + "\"] = \""@ + es[i].schemas_file + "\",\n"@) by {
        let t = "    [\""@ + es[i].label + "\"] = \""@ + es[i].schemas_file + "\",\n"@;
        assert forall|a: Seq<char>, b: Seq<char>| #![trigger a + b] occurs_in(a, t) || occurs_in(b, t) implies occurs_in(a + b, t) by {
            lemma_occurs_in_concat(a, b, t);
        }
    }
}

/// The region lists each version: with more than one version, the prompt offers every version, built from that entry's own
/// label and files (and flagged by comparing its label with the default).
pub proof fn law_setup_wizard_body_lists_every_version(es: Seq<VersionEntryModel>, default_label: Seq<char>)
    requires
        es.len() >= 2,
    ensures
        forall|i: int| 0 <= i < es.len() ==> occurs_in(spec_setup_wizard_body(es, default_label), "        [\""@ + es[i].label + (if es[i].label == default_label { " (default/latest)"@ } else { Seq::empty() }) + "\"] = \""@ + es[i].label + "\",\n"@),
{
    lemma_choice_lines_hold_each_entry(es, default_label);
    assert forall|i: int| 0 <= i < es.len() implies occurs_in(spec_setup_wizard_body(es, default_label), "        [\""@ + es[i].label + (if es[i].label == default_label { " (default/latest)"@ } else { Seq::empty() }) + "\"] = \""@ + es[i].label + "\",\n"@) by {
        let t = "        [\""@ + es[i].label + (if es[i].label == default_label { " (default/latest)"@ } else { Seq::empty() }) + "\"] = \""@ + es[i].label + "\",\n"@;
        assert forall|a: Seq<char>, b: Seq<char>| #![trigger a + b] occurs_in(a, t) || occurs_in(b, t) implies occurs_in(a + b, t) by {
            lemma_occurs_in_concat(a, b, t);
        }
    }
}

/// The region lists each version: every version of the ledger has its line, built from that entry's own
/// label and files (and flagged by comparing its label with the default).
pub proof fn law_versions_command_body_lists_every_version(es: Seq<VersionEntryModel>, default_label: Seq<char>)
    ensures
        forall|i: int| 0 <= i < es.len() ==> occurs_in(spec_versions_command_body(es, default_label), "    new VersionRow(\""@ + es[i].label + "\", "@ + (if es[i].label == default_label { "true"@ } else { "false"@ }) + "),\n"@),
{
    lemma_version_row_lines_hold_each_entry(es, default_label);
    assert forall|i: int| 0 <= i < es.len() implies occurs_in(spec_versions_command_body(es, default_label), "    new VersionRow(\""@ + es[i].label + "\", "@ + (if es[i].label == default_label { "true"@ } else { "false"@ }) + "),\n"@) by {
        let t = "    new VersionRow(\""@ + es[i].label + "\", "@ + (if es[i].label == default_label { "true"@ } else { "false"@ }) + "),\n"@;
        assert forall|a: Seq<char>, b: Seq<char>| #![trigger a + b] occurs_in(a, t) || occurs_in(b, t) implies occurs_in(a + b, t) by {
            lemma_occurs_in_concat(a, b, t);
        }
    }
}


/// With no choice to make the prompt is skipped: the function returns the only version's label (the default label when there is none).
pub proof fn law_single_version_skips_the_prompt(es: Seq<VersionEntryModel>, default_label: Seq<char>)
    requires
        es.len() <= 1,
    ensures
        occurs_in(spec_setup_wizard_body(es, default_label), "    // Only one version is available — nothing to choose between.\n    return \""@ + (if es.len() == 1 { es[0].label } else { default_label }) + "\";\n"@),
{
    let t = "    // Only one version is available — nothing to choose between.\n    return \""@ + (if es.len() == 1 { es[0].label } else { default_label }) + "\";\n"@;
    lemma_occurs_in_concat(t, Seq::empty(), t);
    assert forall|a: Seq<char>, b: Seq<char>| #![trigger a + b] occurs_in(a, t) || occurs_in(b, t) implies occurs_in(a + b, t) by {
        lemma_occurs_in_concat(a, b, t);
    }
}

} // verus!
