use vstd::prelude::*;

use crate::path_ext::{is_hidden_name, join_path, spec_hidden_name, spec_join, Kind};

verus! {

/// How input paths are expanded into a flat list of candidate files.
#[derive(Debug, Clone, Copy)]
pub struct TraversalPolicy {
    /// Whether directories among the input paths are expanded at all; a
    /// directory is dropped entirely when they are not.
    pub recursive: bool,
    /// How many levels below a directory's direct children the walk may
    /// descend: `Some(0)` lists the files directly inside it and nothing
    /// deeper, and `None` sets no bound.
    pub depth_limit: Option<usize>,
    /// Whether hidden (dot-named) entries are kept rather than pruned; the
    /// filter applies to files and directories alike.
    pub include_hidden: bool,
    /// Whether entries that the version-control ignore rules mark are
    /// pruned from the walk.
    pub honor_ignore_files: bool,
}

/// One entry of a directory snapshot: what a caller saw on disk, handed to
/// the traversal engine as plain data.
#[derive(Debug)]
pub struct FsNode {
    /// The entry's own name; for a walk's root, the path it was given by.
    pub name: String,
    pub kind: Kind,
    /// Whether the version-control ignore rules match this entry; gathered
    /// by whoever read the snapshot, consulted only under
    /// `honor_ignore_files`.
    pub ignored: bool,
    /// The entries directly inside a directory; empty for anything else.
    pub children: Vec<FsNode>,
}

/// The mathematical content of a snapshot entry.
pub ghost struct FsNodeV {
    pub name: Seq<char>,
    pub kind: Kind,
    pub ignored: bool,
    pub children: Seq<FsNodeV>,
}

pub open spec fn node_view(n: FsNode) -> FsNodeV
    decreases n,
{
    FsNodeV { name: n.name@, kind: n.kind, ignored: n.ignored, children: nodes_view(n.children@) }
}

pub open spec fn nodes_view(s: Seq<FsNode>) -> Seq<FsNodeV>
    decreases s,
{
    if s.len() == 0 {
        Seq::empty()
    } else {
        nodes_view(s.drop_last()).push(node_view(s.last()))
    }
}

pub proof fn lemma_nodes_view(s: Seq<FsNode>)
    ensures
        nodes_view(s).len() == s.len(),
        forall|i: int| 0 <= i < s.len() ==> nodes_view(s)[i] == node_view(s[i]),
    decreases s.len(),
{
    if s.len() > 0 {
        lemma_nodes_view(s.drop_last());
    }
}

impl View for FsNode {
    type V = FsNodeV;

    open spec fn view(&self) -> FsNodeV {
        node_view(*self)
    }
}

/// The names whose carriers the ignore policy itself never prunes: the
/// version-control metadata directory and its root ignore file stay
/// walkable, so that honoring the rules does not hide their source.
pub open spec fn spec_ignore_carrier(name: Seq<char>) -> bool {
    name == ".git"@ || name == ".gitignore"@
}

/// Whether the policy keeps an entry at all: hidden entries only under
/// `include_hidden`, ignored entries only under `!honor_ignore_files` —
/// except the ignore rules' own carriers, which are always kept.
pub open spec fn spec_entry_kept(n: FsNodeV, policy: TraversalPolicy) -> bool {
    &&& (policy.include_hidden || !spec_hidden_name(n.name))
    &&& (!policy.honor_ignore_files || !n.ignored || spec_ignore_carrier(n.name))
}

/// Whether the walk may enter a directory under the given budget.
pub open spec fn spec_can_descend(budget: Option<usize>) -> bool {
    match budget {
        None => true,
        Some(b) => b > 0,
    }
}

/// The budget below a directory the walk entered.
pub open spec fn spec_next_budget(budget: Option<usize>) -> Option<usize> {
    match budget {
        None => None,
        Some(b) => Some((b - 1) as usize),
    }
}

/// The file paths that one kept-or-pruned entry yieldedutes when it stands
/// inside the directory at `prefix`: a pruned entry yieldedutes nothing, a
/// regular file yieldedutes its path, and a directory yieldedutes what its
/// children yield while the budget allows descent. Entries of any other
/// kind are never rename candidates.
pub open spec fn spec_visit(
    n: FsNodeV,
    prefix: Seq<char>,
    budget: Option<usize>,
    policy: TraversalPolicy,
) -> Seq<Seq<char>>
    decreases n, 1int,
{
    if !spec_entry_kept(n, policy) {
        Seq::empty()
    } else {
        let path = spec_join(prefix, n.name);
        if n.kind is File {
            seq![path]
        } else if n.kind is Directory {
            if spec_can_descend(budget) {
                spec_visit_all(n.children, path, spec_next_budget(budget), policy)
            } else {
                Seq::empty()
            }
        } else {
            Seq::empty()
        }
    }
}

/// The file paths that a directory's children yieldedute, in order.
pub open spec fn spec_visit_all(
    children: Seq<FsNodeV>,
    path: Seq<char>,
    budget: Option<usize>,
    policy: TraversalPolicy,
) -> Seq<Seq<char>>
    decreases children, 0int,
{
    if children.len() == 0 {
        Seq::empty()
    } else {
        spec_visit(children[0], path, budget, policy) + spec_visit_all(
            children.drop_first(),
            path,
            budget,
            policy,
        )
    }
}

/// The file paths that expanding a list of input paths yields: an input
/// that is not a directory passes through unchanged whatever the policy
/// says, a directory is dropped entirely unless the policy is recursive,
/// and a recursive directory yieldedutes what a walk of its children under
/// the depth budget yields. The root itself is never filtered: the caller
/// named it on purpose.
pub open spec fn spec_expand(roots: Seq<FsNodeV>, policy: TraversalPolicy) -> Seq<Seq<char>>
    decreases roots,
{
    if roots.len() == 0 {
        Seq::empty()
    } else {
        let head = roots[0];
        let rest = spec_expand(roots.drop_first(), policy);
        if head.kind is Directory {
            if policy.recursive {
                spec_visit_all(head.children, head.name, policy.depth_limit, policy) + rest
            } else {
                rest
            }
        } else {
            seq![head.name] + rest
        }
    }
}

/// Whether this name is one of the ignore rules' own carriers.
fn is_ignore_carrier(name: &str) -> (b: bool)
    ensures
        b == spec_ignore_carrier(name@),
{
    let owned = name.to_owned();
    let git = ".git".to_owned();
    let gitignore = ".gitignore".to_owned();
    owned == git || owned == gitignore
}

/// Whether the policy keeps this entry.
fn entry_kept(n: &FsNode, policy: &TraversalPolicy) -> (b: bool)
    ensures
        b == spec_entry_kept(n@, *policy),
{
    let hidden_ok = policy.include_hidden || !is_hidden_name(n.name.as_str());
    let ignore_ok = !policy.honor_ignore_files || !n.ignored || is_ignore_carrier(n.name.as_str());
    hidden_ok && ignore_ok
}

/// The paths one entry yieldedutes, per `spec_visit`.
fn visit_node(n: &FsNode, prefix: &str, budget: Option<usize>, policy: &TraversalPolicy) -> (r:
    Vec<String>)
    ensures
        r.deep_view() == spec_visit(n@, prefix@, budget, *policy),
    decreases *n,
{
    let mut out: Vec<String> = Vec::new();
    if !entry_kept(n, policy) {
        proof {
            assert(out.deep_view() =~= Seq::<Seq<char>>::empty());
        }
        return out;
    }
    let path = join_path(prefix, n.name.as_str());
    match n.kind {
        Kind::File => {
            out.push(path);
            proof {
                assert(out.deep_view() =~= seq![spec_join(prefix@, n@.name)]);
            }
        },
        Kind::Directory => {
            let can_descend = match budget {
                None => true,
                Some(b) => b > 0,
            };
            if can_descend {
                let next_budget = match budget {
                    None => None,
                    Some(b) => Some(b - 1),
                };
                let ghost kids = n@.children;
                proof {
                    lemma_nodes_view(n.children@);
                    assert(kids.skip(0) =~= kids);
                    assert(out.deep_view() =~= Seq::<Seq<char>>::empty());
                }
                let mut i: usize = 0;
                while i < n.children.len()
                    invariant
                        i <= n.children@.len(),
                        kids == n@.children,
                        kids.len() == n.children@.len(),
                        forall|j: int|
                            0 <= j < n.children@.len() ==> kids[j] == node_view(n.children@[j]),
                        path@ == spec_join(prefix@, n@.name),
                        spec_visit_all(kids, path@, next_budget, *policy) == out.deep_view()
                            + spec_visit_all(kids.skip(i as int), path@, next_budget, *policy),
                    decreases n.children@.len() - i,
                {
                    let sub = visit_node(&n.children[i], path.as_str(), next_budget, policy);
                    let ghost out0 = out.deep_view();
                    let ghost subv = sub.deep_view();
                    append_all(&mut out, sub);
                    proof {
                        assert(kids.skip(i as int)[0] == kids[i as int]);
                        assert(kids.skip(i as int).drop_first() =~= kids.skip(i + 1 as int));
                        assert(spec_visit_all(kids.skip(i as int), path@, next_budget, *policy)
                            == subv + spec_visit_all(
                            kids.skip(i + 1 as int),
                            path@,
                            next_budget,
                            *policy,
                        ));
                        assert(out.deep_view() =~= out0 + subv);
                        assert(out0 + (subv + spec_visit_all(
                            kids.skip(i + 1 as int),
                            path@,
                            next_budget,
                            *policy,
                        )) =~= (out0 + subv) + spec_visit_all(
                            kids.skip(i + 1 as int),
                            path@,
                            next_budget,
                            *policy,
                        ));
                    }
                    i = i + 1;
                }
                proof {
                    assert(kids.skip(kids.len() as int) =~= Seq::<FsNodeV>::empty());
                    assert(out.deep_view() + Seq::<Seq<char>>::empty() =~= out.deep_view());
                }
            }
        },
        _ => {
            proof {
                assert(out.deep_view() =~= Seq::<Seq<char>>::empty());
            }
        },
    }
    out
}

/// Moves every element of `sub` onto the end of `out`.
fn append_all(out: &mut Vec<String>, sub: Vec<String>)
    ensures
        final(out)@ == old(out)@ + sub@,
{
    let mut sub = sub;
    out.append(&mut sub);
}

/// Expands a list of input paths into the flat list of candidate file
/// paths, per `spec_expand`.
pub fn expand(roots: &Vec<FsNode>, policy: &TraversalPolicy) -> (r: Vec<String>)
    ensures
        r.deep_view() == spec_expand(nodes_view(roots@), *policy),
{
    let ghost rootsv = nodes_view(roots@);
    let mut out: Vec<String> = Vec::new();
    proof {
        lemma_nodes_view(roots@);
        assert(rootsv.skip(0) =~= rootsv);
        assert(out.deep_view() =~= Seq::<Seq<char>>::empty());
    }
    let mut i: usize = 0;
    while i < roots.len()
        invariant
            i <= roots@.len(),
            rootsv == nodes_view(roots@),
            rootsv.len() == roots@.len(),
            forall|j: int| 0 <= j < roots@.len() ==> rootsv[j] == node_view(roots@[j]),
            spec_expand(rootsv, *policy) == out.deep_view() + spec_expand(
                rootsv.skip(i as int),
                *policy,
            ),
        decreases roots@.len() - i,
    {
        let root = &roots[i];
        let ghost out0 = out.deep_view();
        let ghost yielded = spec_root_yield(rootsv[i as int], *policy);
        proof {
            assert(rootsv.skip(i as int)[0] == rootsv[i as int]);
            assert(rootsv.skip(i as int).drop_first() =~= rootsv.skip(i + 1 as int));
        }
        let is_dir = match root.kind {
            Kind::Directory => true,
            _ => false,
        };
        if is_dir {
            if policy.recursive {
                let sub = visit_children(root, policy);
                let ghost subv = sub.deep_view();
                append_all(&mut out, sub);
                proof {
                    assert(subv == yielded);
                }
            } else {
                proof {
                    assert(yielded =~= Seq::<Seq<char>>::empty());
                    assert(out.deep_view() + yielded =~= out.deep_view());
                }
            }
        } else {
            out.push(root.name.clone());
            proof {
                assert(out.deep_view() =~= out0 + yielded);
            }
        }
        proof {
            assert(out.deep_view() =~= out0 + yielded);
            assert(out0 + (yielded + spec_expand(rootsv.skip(i + 1 as int), *policy)) =~= (out0
                + yielded) + spec_expand(rootsv.skip(i + 1 as int), *policy));
        }
        i = i + 1;
    }
    proof {
        assert(rootsv.skip(rootsv.len() as int) =~= Seq::<FsNodeV>::empty());
        assert(out.deep_view() + Seq::<Seq<char>>::empty() =~= out.deep_view());
    }
    out
}

/// What one root yieldedutes to the expansion.
spec fn spec_root_yield(head: FsNodeV, policy: TraversalPolicy) -> Seq<Seq<char>> {
    if head.kind is Directory {
        if policy.recursive {
            spec_visit_all(head.children, head.name, policy.depth_limit, policy)
        } else {
            Seq::empty()
        }
    } else {
        seq![head.name]
    }
}

/// Walks the children of one recursive root under the policy's depth
/// budget.
fn visit_children(root: &FsNode, policy: &TraversalPolicy) -> (r: Vec<String>)
    ensures
        r.deep_view() == spec_visit_all(
            root@.children,
            root@.name,
            policy.depth_limit,
            *policy,
        ),
{
    let ghost kids = root@.children;
    let mut out: Vec<String> = Vec::new();
    proof {
        lemma_nodes_view(root.children@);
        assert(kids.skip(0) =~= kids);
        assert(out.deep_view() =~= Seq::<Seq<char>>::empty());
    }
    let mut i: usize = 0;
    while i < root.children.len()
        invariant
            i <= root.children@.len(),
            kids == root@.children,
            kids.len() == root.children@.len(),
            forall|j: int| 0 <= j < root.children@.len() ==> kids[j] == node_view(root.children@[j]),
            spec_visit_all(kids, root@.name, policy.depth_limit, *policy) == out.deep_view()
                + spec_visit_all(kids.skip(i as int), root@.name, policy.depth_limit, *policy),
        decreases root.children@.len() - i,
    {
        let sub = visit_node(&root.children[i], root.name.as_str(), policy.depth_limit, policy);
        let ghost out0 = out.deep_view();
        let ghost subv = sub.deep_view();
        append_all(&mut out, sub);
        proof {
            assert(kids.skip(i as int)[0] == kids[i as int]);
            assert(kids.skip(i as int).drop_first() =~= kids.skip(i + 1 as int));
            assert(out.deep_view() =~= out0 + subv);
            assert(out0 + (subv + spec_visit_all(
                kids.skip(i + 1 as int),
                root@.name,
                policy.depth_limit,
                *policy,
            )) =~= (out0 + subv) + spec_visit_all(
                kids.skip(i + 1 as int),
                root@.name,
                policy.depth_limit,
                *policy,
            ));
        }
        i = i + 1;
    }
    proof {
        assert(kids.skip(kids.len() as int) =~= Seq::<FsNodeV>::empty());
        assert(out.deep_view() + Seq::<Seq<char>>::empty() =~= out.deep_view());
    }
    out
}

} // verus!
