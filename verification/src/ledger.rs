//! The generator-only ledger of a project's spec versions.

use crate::context::{entry_models, spec_version_entry, VersionEntryModel, VersionEntryView};
use vstd::prelude::*;
use vstd::string::*;

verus! {

/// Where one version's store and schemas asset live, project-relative.
#[derive(Debug)]
pub struct VersionEntry {
    pub db_file: String,
    pub schemas_file: String,
    /// The spec the version was ingested from.
    pub source: String,
    pub added_at: u64,
}

/// `es` holds label `l` at position `i`.
pub open spec fn label_at(es: Seq<(String, VersionEntry)>, l: Seq<char>, i: int) -> bool {
    0 <= i < es.len() && es[i].0@ == l
}

/// No label occurs twice in `es`.
pub open spec fn labels_distinct(es: Seq<(String, VersionEntry)>) -> bool {
    forall|i: int, j: int| 0 <= i < j < es.len() ==> es[i].0@ != es[j].0@
}

/// The entry `es` holds for label `l`, if any.
pub open spec fn lookup_entry(es: Seq<(String, VersionEntry)>, l: Seq<char>) -> Option<VersionEntry> {
    if exists|i: int| label_at(es, l, i) {
        Some(es[choose|i: int| label_at(es, l, i)].1)
    } else {
        None
    }
}

/// `es` with the entry of `label` set: replaced in place when the label is
/// present, appended otherwise.
pub open spec fn spec_inserted(es: Seq<(String, VersionEntry)>, label: String, entry: VersionEntry) -> Seq<
    (String, VersionEntry),
> {
    if exists|i: int| label_at(es, label@, i) {
        es.update(choose|i: int| label_at(es, label@, i), (label, entry))
    } else {
        es.push((label, entry))
    }
}

/// With distinct labels, the position of a label is the only one holding it.
proof fn lemma_label_unique(es: Seq<(String, VersionEntry)>, l: Seq<char>, i: int)
    requires
        labels_distinct(es),
        label_at(es, l, i),
    ensures
        (choose|k: int| label_at(es, l, k)) == i,
        lookup_entry(es, l) == Some(es[i].1),
{
    let k = choose|k: int| label_at(es, l, k);
    assert(label_at(es, l, k));
    if k < i {
        assert(es[k].0@ != es[i].0@);
    } else if i < k {
        assert(es[i].0@ != es[k].0@);
    }
}

/// Version entries keyed by label, in insertion order; a label occurs once.
#[derive(Debug)]
pub struct VersionMap {
    entries: Vec<(String, VersionEntry)>,
}

impl VersionMap {
    /// The labels in order, each with its entry.
    pub closed spec fn spec_entries(&self) -> Seq<(String, VersionEntry)> {
        self.entries@
    }

    pub open spec fn labels(&self) -> Seq<Seq<char>> {
        self.spec_entries().map_values(|p: (String, VersionEntry)| p.0@)
    }

    /// No label occurs twice.
    pub open spec fn wf(&self) -> bool {
        labels_distinct(self.spec_entries())
    }

    pub fn new() -> (r: Self)
        ensures
            r.wf(),
            r.spec_entries().len() == 0,
    {
        VersionMap { entries: Vec::new() }
    }

    pub fn len(&self) -> (r: usize)
        ensures
            r == self.spec_entries().len(),
    {
        self.entries.len()
    }

    /// The entry at position `i`: its label and the entry.
    pub fn entry_at(&self, i: usize) -> (r: (&String, &VersionEntry))
        requires
            i < self.spec_entries().len(),
        ensures
            *r.0 == self.spec_entries()[i as int].0,
            *r.1 == self.spec_entries()[i as int].1,
    {
        (&self.entries[i].0, &self.entries[i].1)
    }

    /// The position of `label`, if present.
    pub fn position(&self, label: &str) -> (r: Option<usize>)
        ensures
            match r {
                Some(i) => label_at(self.spec_entries(), label@, i as int),
                None => !exists|i: int| label_at(self.spec_entries(), label@, i),
            },
    {
        let mut i: usize = 0;
        while i < self.entries.len()
            invariant
                i <= self.entries.len(),
                forall|j: int| 0 <= j < i ==> self.entries@[j].0@ != label@,
            decreases self.entries.len() - i,
        {
            if crate::text::str_eq(self.entries[i].0.as_str(), label) {
                return Some(i);
            }
            i = i + 1;
        }
        None
    }

    /// Sets the entry of `label`: replaced in place when the label is
    /// present, appended otherwise.
    pub fn insert(&mut self, label: String, entry: VersionEntry)
        requires
            old(self).wf(),
        ensures
            final(self).wf(),
            final(self).spec_entries() == spec_inserted(old(self).spec_entries(), label, entry),
    {
        proof {
            law_lookup_after_insert(self.entries@, label, entry, label@);
        }
        match self.position(label.as_str()) {
            Some(i) => {
                proof {
                    lemma_label_unique(self.entries@, label@, i as int);
                }
                self.entries.set(i, (label, entry));
            },
            None => {
                self.entries.push((label, entry));
            },
        }
    }

    /// The entry of `label`, if present.
    pub fn get(&self, label: &str) -> (r: Option<&VersionEntry>)
        requires
            self.wf(),
        ensures
            match r {
                Some(e) => lookup_entry(self.spec_entries(), label@) == Some(*e),
                None => lookup_entry(self.spec_entries(), label@) is None,
            },
    {
        match self.position(label) {
            Some(i) => {
                proof {
                    lemma_label_unique(self.entries@, label@, i as int);
                }
                Some(&self.entries[i].1)
            },
            None => None,
        }
    }
}

/// Reading a label back after setting it gives the entry set; every other
/// label reads as before; labels stay distinct.
pub proof fn law_lookup_after_insert(
    es: Seq<(String, VersionEntry)>,
    label: String,
    entry: VersionEntry,
    other: Seq<char>,
)
    requires
        labels_distinct(es),
    ensures
        labels_distinct(spec_inserted(es, label, entry)),
        lookup_entry(spec_inserted(es, label, entry), label@) == Some(entry),
        other != label@ ==> lookup_entry(spec_inserted(es, label, entry), other) == lookup_entry(es, other),
{
    let r = spec_inserted(es, label, entry);
    if exists|i: int| label_at(es, label@, i) {
        let i = choose|i: int| label_at(es, label@, i);
        assert forall|a: int, b: int| 0 <= a < b < r.len() implies r[a].0@ != r[b].0@ by {
            assert(es[a].0@ != es[b].0@);
            if a == i {
                assert(es[i].0@ != es[b].0@);
            }
        }
        lemma_label_unique(r, label@, i);
        if other != label@ {
            if exists|k: int| label_at(es, other, k) {
                let k = choose|k: int| label_at(es, other, k);
                assert(k != i);
                assert(label_at(r, other, k));
                lemma_label_unique(r, other, k);
                lemma_label_unique(es, other, k);
            } else {
                assert forall|k: int| !label_at(r, other, k) by {
                    if label_at(r, other, k) {
                        assert(label_at(es, other, k));
                    }
                }
            }
        }
    } else {
        let n = es.len() as int;
        assert forall|a: int, b: int| 0 <= a < b < r.len() implies r[a].0@ != r[b].0@ by {
            if b == n {
                assert(!label_at(es, label@, a));
            } else {
                assert(es[a].0@ != es[b].0@);
            }
        }
        lemma_label_unique(r, label@, n);
        if other != label@ {
            if exists|k: int| label_at(es, other, k) {
                let k = choose|k: int| label_at(es, other, k);
                assert(label_at(r, other, k));
                lemma_label_unique(r, other, k);
                lemma_label_unique(es, other, k);
            } else {
                assert forall|k: int| !label_at(r, other, k) by {
                    if label_at(r, other, k) && k < n {
                        assert(label_at(es, other, k));
                    }
                }
            }
        }
    }
}

/// The generator-only record of a project's versions.
#[derive(Debug)]
pub struct Ledger {
    pub target: String,
    pub api_title: String,
    pub project_name: String,
    pub default_version: String,
    pub versions: VersionMap,
}

impl Ledger {
    pub open spec fn wf(&self) -> bool {
        self.versions.wf()
    }

    /// A ledger for a freshly generated project, with no versions yet and
    /// `default` as its default label.
    pub fn new(target: &str, api_title: &str, project_name: &str) -> (r: Self)
        ensures
            r.wf(),
            r.target@ == target@,
            r.api_title@ == api_title@,
            r.project_name@ == project_name@,
            r.default_version@ == "default"@,
            r.versions.spec_entries().len() == 0,
    {
        Ledger {
            target: target.to_owned(),
            api_title: api_title.to_owned(),
            project_name: project_name.to_owned(),
            default_version: String::from_str("default"),
            versions: VersionMap::new(),
        }
    }
}

/// The ledger's versions as the version-aware templates list them.
pub open spec fn ledger_entry_models(ledger: Ledger) -> Seq<VersionEntryModel> {
    ledger.versions.spec_entries().map_values(
        |p: (String, VersionEntry)| spec_version_entry(p.0@, p.1.db_file@, p.1.schemas_file@),
    )
}

/// The ledger's versions as the version-aware templates list them, in the
/// ledger's order.
pub fn version_entries_from_ledger(ledger: &Ledger) -> (r: Vec<VersionEntryView>)
    ensures
        entry_models(r@) == ledger_entry_models(*ledger),
        r.len() == ledger.versions.spec_entries().len(),
        forall|i: int|
            0 <= i < r.len() ==> (#[trigger] r@[i])@ == spec_version_entry(
                ledger.versions.spec_entries()[i].0@,
                ledger.versions.spec_entries()[i].1.db_file@,
                ledger.versions.spec_entries()[i].1.schemas_file@,
            ),
{
    let mut r: Vec<VersionEntryView> = Vec::new();
    let mut i: usize = 0;
    while i < ledger.versions.len()
        invariant
            i <= ledger.versions.spec_entries().len(),
            r.len() == i,
            forall|j: int|
                0 <= j < i ==> (#[trigger] r@[j])@ == spec_version_entry(
                    ledger.versions.spec_entries()[j].0@,
                    ledger.versions.spec_entries()[j].1.db_file@,
                    ledger.versions.spec_entries()[j].1.schemas_file@,
                ),
        decreases ledger.versions.spec_entries().len() - i,
    {
        let (label, entry) = ledger.versions.entry_at(i);
        r.push(
            VersionEntryView::from_project_relative_paths(
                label.as_str(),
                entry.db_file.as_str(),
                entry.schemas_file.as_str(),
            ),
        );
        i = i + 1;
    }
    assert(entry_models(r@) =~= ledger_entry_models(*ledger));
    r
}

} // verus!
