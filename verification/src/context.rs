//! What the shared pipeline hands every target: the generation request,
//! the normalized operations and the discovered auth schemes.

use crate::auth_profile::{lemma_method_key_injective, spec_method_key, AuthSchemeDescriptor, AuthSchemeKind};
use crate::text::{is_ascii_alnum, is_ascii_alnum_char, last_path_segment, last_segment};
use vstd::prelude::*;
use vstd::string::*;

verus! {

/// The embedded store every generated project ships with.
pub const STORE_FILE_NAME: &'static str = "mcp_store.db";

/// One operation of the spec, as targets read it.
#[derive(Debug)]
pub struct NormalizedOperation {
    pub operation_id: String,
    pub path: String,
    pub method: String,
    pub summary: Option<String>,
    pub description: Option<String>,
    pub auth_scheme_ref: Option<String>,
}

/// One generation request.
#[derive(Debug)]
pub struct GeneratorContext {
    pub publish_registry: bool,
    pub openapi_input: String,
    /// The destination directory, as a path string.
    pub output_dir: String,
    pub force: bool,
    /// Whether the destination existed before this run; a failed run only
    /// removes a directory it created itself.
    pub output_dir_preexisted: bool,
    pub auth_schemes: Vec<AuthSchemeDescriptor>,
    pub normalized_operations: Vec<NormalizedOperation>,
    /// The OpenAPI `info.title`.
    pub api_title: String,
    /// The label of the spec version this run ingests.
    pub version_label: String,
}

/// What `std::path::Path::file_name` followed by `OsStr::to_str` returns for a
/// path string: its final component, when there is one and it is valid UTF-8.
pub uninterp spec fn path_file_name(path: Seq<char>) -> Option<Seq<char>>;

/// Calls `Path::new(path).file_name()` and `OsStr::to_str`; the result is
/// `path_file_name` of the path string.
#[verifier::external_body]
pub(crate) fn output_dir_file_name(path: &str) -> (r: Option<String>)
    ensures
        match r {
            Some(name) => path_file_name(path@) == Some(name@),
            None => path_file_name(path@) is None,
        },
{
    std::path::Path::new(path).file_name().and_then(|n| n.to_str()).map(|n| n.to_string())
}

/// An owned copy of an optional string.
pub fn clone_opt_string(o: &Option<String>) -> (r: Option<String>)
    ensures
        r == *o,
{
    match o {
        Some(s) => Some(s.clone()),
        None => None,
    }
}

/// The kinds of the given schemes, in discovery order.
pub open spec fn scheme_kinds(s: Seq<AuthSchemeDescriptor>) -> Seq<AuthSchemeKind> {
    s.map_values(|d: AuthSchemeDescriptor| d.kind)
}

/// Each kind at the place it first occurs, later repeats dropped.
pub open spec fn first_occurrences(k: Seq<AuthSchemeKind>) -> Seq<AuthSchemeKind>
    decreases k.len(),
{
    if k.len() == 0 {
        Seq::empty()
    } else {
        let prev = first_occurrences(k.drop_last());
        if prev.contains(k.last()) {
            prev
        } else {
            prev.push(k.last())
        }
    }
}

/// The distinct kinds hold each kind that occurs, and no other, each once.
pub proof fn lemma_first_occurrences(k: Seq<AuthSchemeKind>)
    ensures
        forall|x: AuthSchemeKind| first_occurrences(k).contains(x) <==> k.contains(x),
        forall|i: int, j: int|
            0 <= i < j < first_occurrences(k).len() ==> first_occurrences(k)[i] != first_occurrences(k)[j],
        first_occurrences(k).len() <= k.len(),
    decreases k.len(),
{
    if k.len() > 0 {
        lemma_first_occurrences(k.drop_last());
        assert forall|x: AuthSchemeKind| k.contains(x) <==> (k.drop_last().contains(x) || x == k.last()) by {
            if k.contains(x) {
                let i = choose|i: int| 0 <= i < k.len() && k[i] == x;
                if i < k.len() - 1 {
                    assert(k.drop_last()[i] == x);
                }
            }
            if k.drop_last().contains(x) {
                let i = choose|i: int| 0 <= i < k.len() - 1 && k.drop_last()[i] == x;
                assert(k[i] == x);
            }
            if x == k.last() {
                assert(k[k.len() - 1] == x);
            }
        }
        let prev = first_occurrences(k.drop_last());
        let l = k.last();
        assert forall|x: AuthSchemeKind| prev.push(l).contains(x) <==> (prev.contains(x) || x == l) by {
            if prev.push(l).contains(x) {
                let i = choose|i: int| 0 <= i < prev.len() + 1 && prev.push(l)[i] == x;
                if i < prev.len() {
                    assert(prev[i] == x);
                }
            }
            if prev.contains(x) {
                let i = choose|i: int| 0 <= i < prev.len() && prev[i] == x;
                assert(prev.push(l)[i] == x);
            }
            if x == l {
                assert(prev.push(l)[prev.len() as int] == x);
            }
        }
    }
}

/// The `auth_method` values of the discovered schemes, in discovery order,
/// name each discovered kind once: no value is listed twice, and a kind's
/// value is listed exactly when some scheme has that kind.
pub proof fn law_auth_method_keys_distinct(schemes: Seq<AuthSchemeDescriptor>, kind: AuthSchemeKind)
    ensures
        forall|i: int, j: int|
            0 <= i < j < first_occurrences(scheme_kinds(schemes)).len() ==> spec_method_key(
                first_occurrences(scheme_kinds(schemes))[i],
            ) != spec_method_key(first_occurrences(scheme_kinds(schemes))[j]),
        first_occurrences(scheme_kinds(schemes)).contains(kind) <==> scheme_kinds(schemes).contains(kind),
{
    let ks = first_occurrences(scheme_kinds(schemes));
    lemma_first_occurrences(scheme_kinds(schemes));
    assert forall|i: int, j: int| 0 <= i < j < ks.len() implies spec_method_key(ks[i]) != spec_method_key(ks[j]) by {
        lemma_method_key_injective(ks[i], ks[j]);
    }
}

fn kind_in(v: &Vec<AuthSchemeKind>, kind: AuthSchemeKind) -> (b: bool)
    ensures
        b == v@.contains(kind),
{
    let mut i: usize = 0;
    while i < v.len()
        invariant
            i <= v.len(),
            forall|j: int| 0 <= j < i ==> v@[j] != kind,
        decreases v.len() - i,
    {
        if v[i] == kind {
            return true;
        }
        i = i + 1;
    }
    false
}

/// The project slug of a run: the output directory's slug when the
/// directory has a final component and its slug is not empty, else the API
/// title's slug.
pub open spec fn spec_slug_or_title(dir_slug: Option<Seq<char>>, title_slug: Seq<char>) -> Seq<char> {
    match dir_slug {
        Some(d) => if d.len() > 0 {
            d
        } else {
            title_slug
        },
        None => title_slug,
    }
}

/// Picks the project slug from the slug of the output directory's final
/// component (`None` when it has none) and the slug of the API title.
pub fn slug_or_title(dir_slug: Option<String>, title_slug: String) -> (r: String)
    ensures
        r@ == spec_slug_or_title(
            match dir_slug {
                Some(d) => Some(d@),
                None => None,
            },
            title_slug@,
        ),
{
    match dir_slug {
        Some(d) => if d.as_str().is_empty() {
            title_slug
        } else {
            d
        },
        None => title_slug,
    }
}

/// The distinct kinds of the discovered schemes, in discovery order: what
/// every target generates one strategy (and one strategy test) for.
pub fn distinct_kinds(schemes: &Vec<AuthSchemeDescriptor>) -> (r: Vec<AuthSchemeKind>)
    ensures
        r@ == first_occurrences(scheme_kinds(schemes@)),
{
    let mut r: Vec<AuthSchemeKind> = Vec::new();
    let mut i: usize = 0;
    while i < schemes.len()
        invariant
            i <= schemes.len(),
            r@ == first_occurrences(scheme_kinds(schemes@.take(i as int))),
        decreases schemes.len() - i,
    {
        assert(scheme_kinds(schemes@.take(i + 1)).drop_last() =~= scheme_kinds(schemes@.take(i as int)));
        let kind = schemes[i].kind;
        if !kind_in(&r, kind) {
            r.push(kind);
        }
        i = i + 1;
    }
    assert(schemes@.take(schemes.len() as int) =~= schemes@);
    r
}

/// The index of the first scheme of the given kind (the length when none is).
pub open spec fn first_index_of_kind(s: Seq<AuthSchemeDescriptor>, kind: AuthSchemeKind) -> int
    decreases s.len(),
{
    if s.len() == 0 {
        0
    } else if s[0].kind == kind {
        0
    } else {
        1 + first_index_of_kind(s.drop_first(), kind)
    }
}

pub proof fn lemma_first_index_of_kind(s: Seq<AuthSchemeDescriptor>, kind: AuthSchemeKind)
    ensures
        0 <= first_index_of_kind(s, kind) <= s.len(),
        first_index_of_kind(s, kind) < s.len() ==> s[first_index_of_kind(s, kind)].kind == kind,
        forall|j: int| 0 <= j < first_index_of_kind(s, kind) ==> s[j].kind != kind,
        scheme_kinds(s).contains(kind) ==> first_index_of_kind(s, kind) < s.len(),
    decreases s.len(),
{
    if s.len() > 0 && s[0].kind != kind {
        lemma_first_index_of_kind(s.drop_first(), kind);
        assert forall|j: int| 0 <= j < first_index_of_kind(s, kind) implies s[j].kind != kind by {
            if j > 0 {
                assert(s[j] == s.drop_first()[j - 1]);
            }
        }
        if scheme_kinds(s).contains(kind) {
            let i = choose|i: int| 0 <= i < s.len() && scheme_kinds(s)[i] == kind;
            assert(i > 0);
            assert(scheme_kinds(s.drop_first())[i - 1] == kind);
        }
    } else if s.len() > 0 {
        assert(scheme_kinds(s)[0] == kind);
    }
}

/// A position holding `kind` with no earlier one is the first index of `kind`.
proof fn lemma_first_index_is(s: Seq<AuthSchemeDescriptor>, kind: AuthSchemeKind, i: int)
    requires
        0 <= i < s.len(),
        s[i].kind == kind,
        forall|j: int| 0 <= j < i ==> s[j].kind != kind,
    ensures
        first_index_of_kind(s, kind) == i,
{
    lemma_first_index_of_kind(s, kind);
    let f = first_index_of_kind(s, kind);
    if f < i {
        assert(s[f].kind == kind);
    } else if f > i {
        assert(s[i].kind != kind);
    }
}

/// The distinct kinds come in the order their first schemes were
/// discovered: each kind's first scheme is earlier than the next kind's.
pub proof fn law_distinct_kinds_in_discovery_order(s: Seq<AuthSchemeDescriptor>)
    ensures
        forall|i: int|
            0 <= i < first_occurrences(scheme_kinds(s)).len() ==> first_index_of_kind(
                s,
                #[trigger] first_occurrences(scheme_kinds(s))[i],
            ) < s.len(),
        forall|i: int, j: int|
            0 <= i < j < first_occurrences(scheme_kinds(s)).len() ==> first_index_of_kind(
                s,
                first_occurrences(scheme_kinds(s))[i],
            ) < first_index_of_kind(s, first_occurrences(scheme_kinds(s))[j]),
    decreases s.len(),
{
    let ks = first_occurrences(scheme_kinds(s));
    lemma_first_occurrences(scheme_kinds(s));
    if s.len() > 0 {
        let p = s.drop_last();
        let n = s.len() - 1;
        law_distinct_kinds_in_discovery_order(p);
        assert(scheme_kinds(s).drop_last() =~= scheme_kinds(p));
        let prev = first_occurrences(scheme_kinds(p));
        lemma_first_occurrences(scheme_kinds(p));
        // Kinds already present keep their first index.
        assert forall|i: int| 0 <= i < prev.len() implies first_index_of_kind(s, #[trigger] prev[i])
            == first_index_of_kind(p, prev[i]) by {
            lemma_first_index_of_kind(p, prev[i]);
            let f = first_index_of_kind(p, prev[i]);
            assert(p[f] == s[f]);
            assert forall|j: int| 0 <= j < f implies s[j].kind != prev[i] by {
                assert(p[j] == s[j]);
            }
            lemma_first_index_is(s, prev[i], f);
        }
        let l = s[n].kind;
        assert(scheme_kinds(s).last() == l);
        if !prev.contains(l) {
            assert(!scheme_kinds(p).contains(l));
            assert forall|j: int| 0 <= j < n implies s[j].kind != l by {
                assert(scheme_kinds(p)[j] == s[j].kind);
            }
            lemma_first_index_is(s, l, n);
            assert(ks == prev.push(l));
        } else {
            assert(ks == prev);
        }
    }
}

/// The first scheme of a kind is also the first scheme whose `auth_method`
/// value is that kind's: no earlier scheme has the same value.
pub proof fn law_first_scheme_of_kind_is_first_with_key(s: Seq<AuthSchemeDescriptor>, kind: AuthSchemeKind)
    ensures
        forall|j: int|
            0 <= j < first_index_of_kind(s, kind) ==> spec_method_key(#[trigger] s[j].kind)
                != spec_method_key(kind),
        first_index_of_kind(s, kind) < s.len() ==> spec_method_key(s[first_index_of_kind(s, kind)].kind)
            == spec_method_key(kind),
{
    lemma_first_index_of_kind(s, kind);
    assert forall|j: int| 0 <= j < first_index_of_kind(s, kind) implies spec_method_key(#[trigger] s[j].kind)
        != spec_method_key(kind) by {
        lemma_method_key_injective(s[j].kind, kind);
    }
}

/// The index of the first scheme of `kind`.
pub fn first_scheme_of_kind(schemes: &Vec<AuthSchemeDescriptor>, kind: AuthSchemeKind) -> (i: usize)
    requires
        scheme_kinds(schemes@).contains(kind),
    ensures
        i == first_index_of_kind(schemes@, kind),
        i < schemes.len(),
        schemes@[i as int].kind == kind,
{
    proof {
        lemma_first_index_of_kind(schemes@, kind);
    }
    let mut i: usize = 0;
    while schemes[i].kind != kind
        invariant
            i <= first_index_of_kind(schemes@, kind) < schemes.len(),
            forall|j: int| 0 <= j < first_index_of_kind(schemes@, kind) ==> schemes@[j].kind != kind,
            schemes@[first_index_of_kind(schemes@, kind)].kind == kind,
        decreases schemes.len() - i,
    {
        i = i + 1;
    }
    i
}

/// One entry of a generated project's version list: its label, the file
/// names of its store and schemas asset, and the identifier suffix Go's
/// per-version embed variables use.
#[derive(Debug)]
pub struct VersionEntryView {
    pub label: String,
    pub db_file: String,
    pub schemas_file: String,
    pub var_suffix: String,
}

/// `v` followed by the label with every character that is not an ASCII
/// letter or digit replaced by `_` (so `11.3` gives `v11_3`).
pub open spec fn spec_var_suffix(label: Seq<char>) -> Seq<char> {
    seq!['v'] + label.map_values(|c: char| if is_ascii_alnum(c) { c } else { '_' })
}

/// What a [`VersionEntryView`] holds, as character sequences.
pub struct VersionEntryModel {
    pub label: Seq<char>,
    pub db_file: Seq<char>,
    pub schemas_file: Seq<char>,
    pub var_suffix: Seq<char>,
}

impl View for VersionEntryView {
    type V = VersionEntryModel;

    open spec fn view(&self) -> VersionEntryModel {
        VersionEntryModel {
            label: self.label@,
            db_file: self.db_file@,
            schemas_file: self.schemas_file@,
            var_suffix: self.var_suffix@,
        }
    }
}

/// The models of a list of entries.
pub open spec fn entry_models(v: Seq<VersionEntryView>) -> Seq<VersionEntryModel> {
    v.map_values(|e: VersionEntryView| e@)
}

/// The entry for `label` whose store and schemas asset sit at the given
/// project-relative paths.
pub open spec fn spec_version_entry(
    label: Seq<char>,
    db_path: Seq<char>,
    schemas_path: Seq<char>,
) -> VersionEntryModel {
    VersionEntryModel {
        label,
        db_file: last_segment(db_path),
        schemas_file: last_segment(schemas_path),
        var_suffix: spec_var_suffix(label),
    }
}

impl VersionEntryView {

    /// Builds an entry from project-relative paths; only each path's final
    /// segment is kept, since every version-aware file refers to its store
    /// and schemas asset by file name.
    pub fn from_project_relative_paths(label: &str, db_path: &str, schemas_path: &str) -> (r: Self)
        ensures
            r@ == spec_version_entry(label@, db_path@, schemas_path@),
    {
        let n = label.unicode_len();
        let mut suffix = String::new();
        suffix.push('v');
        let mut i: usize = 0;
        while i < n
            invariant
                n == label@.len(),
                i <= n,
                suffix@ == spec_var_suffix(label@.take(i as int)),
            decreases n - i,
        {
            let c = label.get_char(i);
            if is_ascii_alnum_char(c) {
                suffix.push(c);
            } else {
                suffix.push('_');
            }
            assert(spec_var_suffix(label@.take(i + 1)) =~= spec_var_suffix(label@.take(i as int)).push(
                if is_ascii_alnum(c) { c } else { '_' },
            ));
            i = i + 1;
        }
        assert(label@.take(n as int) =~= label@);
        VersionEntryView {
            label: label.to_owned(),
            db_file: last_path_segment(db_path),
            schemas_file: last_path_segment(schemas_path),
            var_suffix: suffix,
        }
    }
}

} // verus!
