//! What a lifecycle step does to the output directory, as data: every
//! target's step functions build a sequence of actions, and the caller
//! performs them in order against the real output directory.

use vstd::prelude::*;
use vstd::string::*;

use crate::auth_profile::{AuthSchemeDescriptor, AuthSchemeKind};
use crate::context::{first_occurrences, lemma_first_occurrences, scheme_kinds};

verus! {

/// One file-system effect of a generation step. Every path is relative to
/// the output directory.
#[derive(Debug)]
pub enum Action {
    /// Create the directory and any missing parents.
    CreateDir { path: String },
    /// Write an empty file.
    WriteEmpty { path: String },
    /// Render the named template with the target's template context and
    /// write the result, creating parent directories.
    Render { template: String, out_path: String },
    /// Write the validation schemas of every normalized operation.
    WriteSchemas { path: String },
    /// Compress the embeddings store in place and remove the raw file.
    CompressStore { path: String },
}

/// An [`Action`] with its strings taken as character sequences.
pub enum ActionView {
    CreateDir { path: Seq<char> },
    WriteEmpty { path: Seq<char> },
    Render { template: Seq<char>, out_path: Seq<char> },
    WriteSchemas { path: Seq<char> },
    CompressStore { path: Seq<char> },
}

impl View for Action {
    type V = ActionView;

    open spec fn view(&self) -> ActionView {
        match self {
            Action::CreateDir { path } => ActionView::CreateDir { path: path@ },
            Action::WriteEmpty { path } => ActionView::WriteEmpty { path: path@ },
            Action::Render { template, out_path } => ActionView::Render {
                template: template@,
                out_path: out_path@,
            },
            Action::WriteSchemas { path } => ActionView::WriteSchemas { path: path@ },
            Action::CompressStore { path } => ActionView::CompressStore { path: path@ },
        }
    }
}

/// The views of a sequence of actions.
pub open spec fn action_views(s: Seq<Action>) -> Seq<ActionView> {
    s.map_values(|a: Action| a@)
}

/// One render per `(template, output)` row, each output under `prefix`.
pub open spec fn renders(prefix: Seq<char>, table: Seq<(Seq<char>, Seq<char>)>) -> Seq<ActionView> {
    table.map_values(
        |row: (Seq<char>, Seq<char>)| ActionView::Render { template: row.0, out_path: prefix + row.1 },
    )
}

/// One directory per name, each under `prefix`.
pub open spec fn dirs(prefix: Seq<char>, names: Seq<Seq<char>>) -> Seq<ActionView> {
    names.map_values(|name: Seq<char>| ActionView::CreateDir { path: prefix + name })
}

/// One render per `(template, output)` row, outputs directly under the
/// output directory.
pub open spec fn root_renders(table: Seq<(Seq<char>, Seq<char>)>) -> Seq<ActionView> {
    table.map_values(|row: (Seq<char>, Seq<char>)| ActionView::Render { template: row.0, out_path: row.1 })
}

/// One directory per name, directly under the output directory.
pub open spec fn root_dirs(names: Seq<Seq<char>>) -> Seq<ActionView> {
    names.map_values(|name: Seq<char>| ActionView::CreateDir { path: name })
}

/// For each name in turn: the directory under `root`, then an empty
/// `__init__.py` inside it.
pub open spec fn package_dirs(root: Seq<char>, names: Seq<Seq<char>>) -> Seq<ActionView>
    decreases names.len(),
{
    if names.len() == 0 {
        Seq::empty()
    } else {
        package_dirs(root, names.drop_last()) + seq![
            ActionView::CreateDir { path: root + names.last() },
            ActionView::WriteEmpty { path: root + names.last() + "/__init__.py"@ },
        ]
    }
}

/// One render per kind, from the target's kind-to-template table, each
/// output under `prefix`.
pub open spec fn kind_renders(
    prefix: Seq<char>,
    kinds: Seq<AuthSchemeKind>,
    table: spec_fn(AuthSchemeKind) -> (Seq<char>, Seq<char>),
) -> Seq<ActionView> {
    kinds.map_values(
        |k: AuthSchemeKind| ActionView::Render { template: table(k).0, out_path: prefix + table(k).1 },
    )
}

/// [`kind_renders`] with outputs directly under the output directory.
pub open spec fn root_kind_renders(
    kinds: Seq<AuthSchemeKind>,
    table: spec_fn(AuthSchemeKind) -> (Seq<char>, Seq<char>),
) -> Seq<ActionView> {
    kinds.map_values(|k: AuthSchemeKind| ActionView::Render { template: table(k).0, out_path: table(k).1 })
}

/// Different kinds get different output files.
pub open spec fn outputs_distinct(table: spec_fn(AuthSchemeKind) -> (Seq<char>, Seq<char>)) -> bool {
    forall|a: AuthSchemeKind, b: AuthSchemeKind| #![trigger table(a), table(b)] a != b ==> table(a).1 != table(b).1
}

/// The kind-dependent renders of the discovered schemes: the file of kind
/// `k` is rendered exactly when some scheme has kind `k`, and no file is
/// rendered twice, however many schemes share a kind.
pub proof fn law_one_render_per_discovered_kind(
    prefix: Seq<char>,
    schemes: Seq<AuthSchemeDescriptor>,
    table: spec_fn(AuthSchemeKind) -> (Seq<char>, Seq<char>),
    k: AuthSchemeKind,
)
    requires
        outputs_distinct(table),
    ensures
        kind_renders(prefix, first_occurrences(scheme_kinds(schemes)), table).contains(
            render_view(prefix, table(k).0, table(k).1),
        ) <==> scheme_kinds(schemes).contains(k),
        forall|i: int, j: int|
            0 <= i < j < first_occurrences(scheme_kinds(schemes)).len() ==> kind_renders(
                prefix,
                first_occurrences(scheme_kinds(schemes)),
                table,
            )[i] != kind_renders(prefix, first_occurrences(scheme_kinds(schemes)), table)[j],
{
    let ks = first_occurrences(scheme_kinds(schemes));
    let rs = kind_renders(prefix, ks, table);
    lemma_first_occurrences(scheme_kinds(schemes));
    let target = render_view(prefix, table(k).0, table(k).1);
    if rs.contains(target) {
        let i = choose|i: int| 0 <= i < rs.len() && rs[i] == target;
        if ks[i] != k {
            assert(table(ks[i]).1 != table(k).1);
            assert(prefix + table(ks[i]).1 != prefix + table(k).1) by {
                if prefix + table(ks[i]).1 == prefix + table(k).1 {
                    assert(table(ks[i]).1 =~= (prefix + table(ks[i]).1).skip(prefix.len() as int));
                    assert(table(k).1 =~= (prefix + table(k).1).skip(prefix.len() as int));
                }
            }
        }
        assert(ks.contains(k));
    }
    if scheme_kinds(schemes).contains(k) {
        assert(ks.contains(k));
        let i = choose|i: int| 0 <= i < ks.len() && ks[i] == k;
        assert(rs[i] == target);
    }
    assert forall|i: int, j: int| 0 <= i < j < ks.len() implies rs[i] != rs[j] by {
        assert(ks[i] != ks[j]);
        assert(table(ks[i]).1 != table(ks[j]).1);
        if rs[i] == rs[j] {
            assert(table(ks[i]).1 =~= (prefix + table(ks[i]).1).skip(prefix.len() as int));
            assert(table(ks[j]).1 =~= (prefix + table(ks[j]).1).skip(prefix.len() as int));
        }
    }
}

/// [`law_one_render_per_discovered_kind`] for outputs directly under the
/// output directory.
pub proof fn law_one_root_render_per_discovered_kind(
    schemes: Seq<AuthSchemeDescriptor>,
    table: spec_fn(AuthSchemeKind) -> (Seq<char>, Seq<char>),
    k: AuthSchemeKind,
)
    requires
        outputs_distinct(table),
    ensures
        root_kind_renders(first_occurrences(scheme_kinds(schemes)), table).contains(
            ActionView::Render { template: table(k).0, out_path: table(k).1 },
        ) <==> scheme_kinds(schemes).contains(k),
        forall|i: int, j: int|
            0 <= i < j < first_occurrences(scheme_kinds(schemes)).len() ==> root_kind_renders(
                first_occurrences(scheme_kinds(schemes)),
                table,
            )[i] != root_kind_renders(first_occurrences(scheme_kinds(schemes)), table)[j],
{
    let ks = first_occurrences(scheme_kinds(schemes));
    let rs = root_kind_renders(ks, table);
    lemma_first_occurrences(scheme_kinds(schemes));
    let target = ActionView::Render { template: table(k).0, out_path: table(k).1 };
    if rs.contains(target) {
        let i = choose|i: int| 0 <= i < rs.len() && rs[i] == target;
        if ks[i] != k {
            assert(table(ks[i]).1 != table(k).1);
        }
        assert(ks.contains(k));
    }
    if scheme_kinds(schemes).contains(k) {
        assert(ks.contains(k));
        let i = choose|i: int| 0 <= i < ks.len() && ks[i] == k;
        assert(rs[i] == target);
    }
    assert forall|i: int, j: int| 0 <= i < j < ks.len() implies rs[i] != rs[j] by {
        assert(ks[i] != ks[j]);
        assert(table(ks[i]).1 != table(ks[j]).1);
    }
}

pub open spec fn render_view(prefix: Seq<char>, template: Seq<char>, out: Seq<char>) -> ActionView {
    ActionView::Render { template, out_path: prefix + out }
}

/// Appends a render of `template` to `prefix + out`.
pub fn push_render(acts: &mut Vec<Action>, prefix: &str, template: &str, out: &str)
    ensures
        action_views(final(acts)@) == action_views(old(acts)@).push(render_view(prefix@, template@, out@)),
{
    let mut out_path = String::from_str(prefix);
    out_path.append(out);
    acts.push(Action::Render { template: String::from_str(template), out_path });
    assert(action_views(acts@) =~= action_views(old(acts)@).push(render_view(prefix@, template@, out@)));
}

/// Appends a render of `template` to `out`.
pub fn push_root_render(acts: &mut Vec<Action>, template: &str, out: &str)
    ensures
        action_views(final(acts)@) == action_views(old(acts)@).push(
            ActionView::Render { template: template@, out_path: out@ },
        ),
{
    acts.push(Action::Render { template: String::from_str(template), out_path: String::from_str(out) });
    assert(action_views(acts@) =~= action_views(old(acts)@).push(
        ActionView::Render { template: template@, out_path: out@ },
    ));
}

/// Appends the creation of `name`.
pub fn push_root_dir(acts: &mut Vec<Action>, name: &str)
    ensures
        action_views(final(acts)@) == action_views(old(acts)@).push(ActionView::CreateDir { path: name@ }),
{
    acts.push(Action::CreateDir { path: String::from_str(name) });
    assert(action_views(acts@) =~= action_views(old(acts)@).push(ActionView::CreateDir { path: name@ }));
}

/// Appends the creation of `prefix + name`.
pub fn push_dir(acts: &mut Vec<Action>, prefix: &str, name: &str)
    ensures
        action_views(final(acts)@) == action_views(old(acts)@).push(
            ActionView::CreateDir { path: prefix@ + name@ },
        ),
{
    let mut path = String::from_str(prefix);
    path.append(name);
    acts.push(Action::CreateDir { path });
    assert(action_views(acts@) =~= action_views(old(acts)@).push(
        ActionView::CreateDir { path: prefix@ + name@ },
    ));
}

/// Appends the creation of `root + name` and of an empty `__init__.py` in it.
pub fn push_package_dir(acts: &mut Vec<Action>, root: &str, name: &str)
    ensures
        action_views(final(acts)@) == action_views(old(acts)@) + seq![
            ActionView::CreateDir { path: root@ + name@ },
            ActionView::WriteEmpty { path: root@ + name@ + "/__init__.py"@ },
        ],
{
    let mut path = String::from_str(root);
    path.append(name);
    let mut init = String::from_str(path.as_str());
    init.append("/__init__.py");
    acts.push(Action::CreateDir { path });
    acts.push(Action::WriteEmpty { path: init });
    assert(action_views(acts@) =~= action_views(old(acts)@) + seq![
        ActionView::CreateDir { path: root@ + name@ },
        ActionView::WriteEmpty { path: root@ + name@ + "/__init__.py"@ },
    ]);
}

/// Appends a single action.
pub fn push_action(acts: &mut Vec<Action>, a: Action)
    ensures
        action_views(final(acts)@) == action_views(old(acts)@).push(a@),
{
    let ghost v = a@;
    acts.push(a);
    assert(action_views(acts@) =~= action_views(old(acts)@).push(v));
}

} // verus!
