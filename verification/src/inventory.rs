//! The inventory listing of an extracted archive tree.
//!
//! The application walks the extracted directory of the current version into
//! a tree of [`FsNode`] values; the verified logic then finds the archive's
//! entry point — the first directory, in depth-first order, whose name
//! contains the fixed marker substring — and flattens the chosen subtree
//! into the hierarchical listing served to clients.  Files become leaves,
//! directories recurse, and anything else (symlinks, unreadable entries) is
//! silently skipped, exactly as the walk itself skips them.

use vstd::prelude::*;

use crate::text::{contains_sub, str_contains};

verus! {

/// What kind of filesystem entry a node stands for.  `Other` covers
/// symlinks and anything that is neither a regular file nor a directory;
/// such entries are skipped by the listing.
#[derive(Clone, Copy, Debug, PartialEq, Eq, Structural)]
pub enum EntryKind {
    File,
    Dir,
    Other,
}

/// One entry of the walked directory tree, as the application hands it in:
/// the entry's name, its absolute path, its kind, and — for directories —
/// its entries in directory-listing order.
pub struct FsNode {
    pub name: String,
    pub path: String,
    pub kind: EntryKind,
    pub children: Vec<FsNode>,
}

/// One node of the listing served to clients.  Leaves (files) have no
/// children; only directories recurse.
pub struct InventoryNodeData {
    pub name: String,
    pub children: Vec<InventoryNodeData>,
    pub is_file: bool,
    pub file_path: String,
}

/// The full listing: a fixed root label over the collected children.
pub struct InventoryData {
    pub root: String,
    pub children: Vec<InventoryNodeData>,
}

/// A named archive version, as shown on the inventory page.
pub struct ArchiveInfo {
    pub name: String,
    pub version: i32,
}

/// The mathematical shape of a listing node.
pub ghost struct InvNodeView {
    pub name: Seq<char>,
    pub children: Seq<InvNodeView>,
    pub is_file: bool,
    pub file_path: Seq<char>,
}

/// The marker substring that names an archive's entry-point directory.
pub open spec fn entry_marker() -> Seq<char> {
    "programm"@
}

/// A directory whose name contains the entry-point marker.
pub open spec fn is_marker_dir(n: FsNode) -> bool {
    &&& n.kind is Dir
    &&& contains_sub(n.name@, entry_marker())
}

/// The depth-first search for the entry point, scanning `nodes` from
/// position `i` on: a marker directory is returned as soon as it is met,
/// before its own children or any later sibling are considered.
pub open spec fn find_marker_from(nodes: Seq<FsNode>, i: int) -> Option<FsNode>
    decreases nodes, nodes.len() - i,
        when 0 <= i <= nodes.len()
{
    if i == nodes.len() {
        None
    } else if is_marker_dir(nodes[i]) {
        Some(nodes[i])
    } else {
        let sub = if nodes[i].kind is Dir {
            find_marker_from(nodes[i].children@, 0)
        } else {
            None
        };
        if sub is Some {
            sub
        } else {
            find_marker_from(nodes, i + 1)
        }
    }
}

/// The entry point of a walked tree, if any.
pub open spec fn find_marker_in(nodes: Seq<FsNode>) -> Option<FsNode> {
    find_marker_from(nodes, 0)
}

/// A well-formed walked node: only directories carry children.
pub open spec fn fs_node_wf(n: FsNode) -> bool
    decreases n,
{
    &&& (!(n.kind is Dir) ==> n.children@.len() == 0)
    &&& forall|i: int|
        0 <= i < n.children@.len() ==> fs_node_wf(#[trigger] n.children@[i])
}

/// All nodes of a walked forest are well formed.
pub open spec fn fs_nodes_wf(nodes: Seq<FsNode>) -> bool {
    forall|i: int| 0 <= i < nodes.len() ==> fs_node_wf(#[trigger] nodes[i])
}

/// Whether `t` occurs in the forest `nodes`, at any depth.
pub open spec fn tree_contains(nodes: Seq<FsNode>, t: FsNode) -> bool
    decreases nodes,
{
    exists|i: int|
        0 <= i < nodes.len() && ((#[trigger] nodes[i]) == t || tree_contains(
            nodes[i].children@,
            t,
        ))
}

/// The listing entries of one walked node: a leaf for a file, a recursive
/// node for a directory, nothing for anything else.
pub open spec fn inv_item(n: FsNode) -> Seq<InvNodeView>
    decreases n, 0int,
{
    if n.kind is File {
        seq![
            InvNodeView { name: n.name@, children: seq![], is_file: true, file_path: n.path@ },
        ]
    } else if n.kind is Dir {
        seq![
            InvNodeView {
                name: n.name@,
                children: collect_upto(n.children@, n.children@.len() as int),
                is_file: false,
                file_path: n.path@,
            },
        ]
    } else {
        seq![]
    }
}

/// The listing entries of the first `i` nodes of a forest, in order.
pub open spec fn collect_upto(nodes: Seq<FsNode>, i: int) -> Seq<InvNodeView>
    decreases nodes, i,
        when 0 <= i <= nodes.len()
{
    if i <= 0 {
        seq![]
    } else {
        collect_upto(nodes, i - 1) + inv_item(nodes[i - 1])
    }
}

/// The listing entries of a whole forest.
pub open spec fn collect_spec(nodes: Seq<FsNode>) -> Seq<InvNodeView> {
    collect_upto(nodes, nodes.len() as int)
}

/// The children of the listing of a walked tree: the subtree of the entry
/// point when one exists, the whole tree otherwise.
pub open spec fn list_spec(nodes: Seq<FsNode>) -> Seq<InvNodeView> {
    match find_marker_in(nodes) {
        Some(f) => collect_spec(f.children@),
        None => collect_spec(nodes),
    }
}

/// The mathematical shape of one built listing node.
pub open spec fn inv_node_view(n: InventoryNodeData) -> InvNodeView
    decreases n, 0int,
{
    InvNodeView {
        name: n.name@,
        children: inv_nodes_view_upto(n.children@, n.children@.len() as int),
        is_file: n.is_file,
        file_path: n.file_path@,
    }
}

/// The shapes of the first `i` built listing nodes.
pub open spec fn inv_nodes_view_upto(ns: Seq<InventoryNodeData>, i: int) -> Seq<InvNodeView>
    decreases ns, i,
        when 0 <= i <= ns.len()
{
    if i <= 0 {
        seq![]
    } else {
        inv_nodes_view_upto(ns, i - 1) + seq![inv_node_view(ns[i - 1])]
    }
}

/// The shapes of a whole sequence of built listing nodes.
pub open spec fn inv_views(ns: Seq<InventoryNodeData>) -> Seq<InvNodeView> {
    inv_nodes_view_upto(ns, ns.len() as int)
}

impl View for InventoryNodeData {
    type V = InvNodeView;

    open spec fn view(&self) -> InvNodeView {
        inv_node_view(*self)
    }
}

proof fn lemma_inv_nodes_view_frame(ns: Seq<InventoryNodeData>, x: InventoryNodeData, i: int)
    requires
        0 <= i <= ns.len(),
    ensures
        inv_nodes_view_upto(ns.push(x), i) == inv_nodes_view_upto(ns, i),
    decreases i,
{
    if i > 0 {
        lemma_inv_nodes_view_frame(ns, x, i - 1);
        assert(ns.push(x)[i - 1] == ns[i - 1]);
    }
}

proof fn lemma_inv_views_push(ns: Seq<InventoryNodeData>, x: InventoryNodeData)
    ensures
        inv_views(ns.push(x)) == inv_views(ns) + seq![inv_node_view(x)],
{
    lemma_inv_nodes_view_frame(ns, x, ns.len() as int);
    assert(ns.push(x)[ns.len() as int] == x);
}

/// Searches a walked forest for the entry-point directory: the first
/// directory, in depth-first order, whose name contains the marker.
#[verifier::loop_isolation(false)]
pub fn find_entry_point_dir<'a>(nodes: &'a Vec<FsNode>) -> (r: Option<&'a FsNode>)
    ensures
        match r {
            Some(f) => find_marker_in(nodes@) == Some(*f),
            None => find_marker_in(nodes@) is None,
        },
    decreases nodes@,
{
    let mut i: usize = 0;
    while i < nodes.len()
        invariant
            0 <= i <= nodes@.len(),
            find_marker_from(nodes@, 0) == find_marker_from(nodes@, i as int),
        decreases nodes@.len() - i,
    {
        let node = &nodes[i];
        let is_dir = node.kind == EntryKind::Dir;
        if is_dir && str_contains(node.name.as_str(), "programm") {
            return Some(node);
        }
        if is_dir {
            match find_entry_point_dir(&node.children) {
                Some(f) => {
                    return Some(f);
                },
                None => {},
            }
        }
        i = i + 1;
    }
    None
}

/// Flattens a walked forest into listing nodes, in order: files as leaves,
/// directories recursively, everything else skipped.
#[verifier::loop_isolation(false)]
pub fn collect_data_from_directory(nodes: &Vec<FsNode>) -> (r: Vec<InventoryNodeData>)
    ensures
        inv_views(r@) == collect_spec(nodes@),
    decreases nodes@,
{
    let mut out: Vec<InventoryNodeData> = Vec::new();
    let mut i: usize = 0;
    while i < nodes.len()
        invariant
            0 <= i <= nodes@.len(),
            inv_views(out@) == collect_upto(nodes@, i as int),
        decreases nodes@.len() - i,
    {
        let node = &nodes[i];
        match node.kind {
            EntryKind::File => {
                let item = InventoryNodeData {
                    name: node.name.clone(),
                    children: Vec::new(),
                    is_file: true,
                    file_path: node.path.clone(),
                };
                proof {
                    lemma_inv_views_push(out@, item);
                    assert(inv_node_view(item).children =~= Seq::<InvNodeView>::empty());
                    assert(seq![inv_node_view(item)] =~~= inv_item(nodes@[i as int]));
                    assert(inv_views(out@.push(item)) =~~= collect_upto(nodes@, i + 1));
                }
                out.push(item);
            },
            EntryKind::Dir => {
                let grandchildren = collect_data_from_directory(&node.children);
                let item = InventoryNodeData {
                    name: node.name.clone(),
                    children: grandchildren,
                    is_file: false,
                    file_path: node.path.clone(),
                };
                proof {
                    lemma_inv_views_push(out@, item);
                    assert(inv_node_view(item).children == collect_spec(
                        nodes@[i as int].children@,
                    ));
                    assert(seq![inv_node_view(item)] =~~= inv_item(nodes@[i as int]));
                    assert(inv_views(out@.push(item)) =~~= collect_upto(nodes@, i + 1));
                }
                out.push(item);
            },
            EntryKind::Other => {
                proof {
                    assert(inv_item(nodes@[i as int]) =~= Seq::<InvNodeView>::empty());
                    assert(collect_upto(nodes@, i + 1) =~= collect_upto(nodes@, i as int));
                }
            },
        }
        i = i + 1;
    }
    out
}

/// Builds the inventory listing of the current version's walked tree.
///
/// `entries` is `None` when the current version could not be determined or
/// its archive directory does not exist; the listing is then empty.  With a
/// tree, the listing is rooted at the entry-point directory when one exists
/// anywhere in the tree, and at the archive root itself otherwise.
pub fn list_inventory(entries: Option<&Vec<FsNode>>) -> (r: InventoryData)
    ensures
        r.root@ == "root"@,
        match entries {
            None => r.children@.len() == 0,
            Some(ns) => inv_views(r.children@) == list_spec(ns@),
        },
{
    match entries {
        None => InventoryData { root: String::from_str("root"), children: Vec::new() },
        Some(nodes) => {
            let children = match find_entry_point_dir(nodes) {
                Some(entry) => collect_data_from_directory(&entry.children),
                None => collect_data_from_directory(nodes),
            };
            InventoryData { root: String::from_str("root"), children }
        },
    }
}

proof fn lemma_find_marker_sound_aux(nodes: Seq<FsNode>, i: int)
    requires
        0 <= i <= nodes.len(),
        find_marker_from(nodes, i) is Some,
    ensures
        is_marker_dir(find_marker_from(nodes, i).unwrap()),
        tree_contains(nodes, find_marker_from(nodes, i).unwrap()),
    decreases nodes, nodes.len() - i,
{
    if i == nodes.len() {
    } else if is_marker_dir(nodes[i]) {
    } else {
        let sub = if nodes[i].kind is Dir {
            find_marker_from(nodes[i].children@, 0)
        } else {
            None
        };
        if sub is Some {
            lemma_find_marker_sound_aux(nodes[i].children@, 0);
        } else {
            lemma_find_marker_sound_aux(nodes, i + 1);
        }
    }
}

/// What the entry-point search finds is always a marker directory that
/// occurs in the walked tree.
pub proof fn lemma_find_marker_sound(nodes: Seq<FsNode>)
    requires
        find_marker_in(nodes) is Some,
    ensures
        is_marker_dir(find_marker_in(nodes).unwrap()),
        tree_contains(nodes, find_marker_in(nodes).unwrap()),
{
    lemma_find_marker_sound_aux(nodes, 0);
}

proof fn lemma_find_none_aux(nodes: Seq<FsNode>, i: int, t: FsNode)
    requires
        0 <= i <= nodes.len(),
        fs_nodes_wf(nodes),
        find_marker_from(nodes, i) is None,
        exists|j: int|
            i <= j < nodes.len() && ((#[trigger] nodes[j]) == t || tree_contains(
                nodes[j].children@,
                t,
            )),
        t.kind is Dir,
    ensures
        !contains_sub(t.name@, entry_marker()),
    decreases nodes, nodes.len() - i,
{
    let j = choose|j: int|
        i <= j < nodes.len() && ((#[trigger] nodes[j]) == t || tree_contains(
            nodes[j].children@,
            t,
        ));
    if j == i {
        if nodes[i] == t {
            assert(!is_marker_dir(nodes[i]));
        } else {
            assert(tree_contains(nodes[i].children@, t));
            if nodes[i].kind is Dir {
                assert(find_marker_from(nodes[i].children@, 0) is None);
                lemma_find_none_aux(nodes[i].children@, 0, t);
            } else {
                assert(fs_node_wf(nodes[i]));
                assert(nodes[i].children@.len() == 0);
            }
        }
    } else {
        assert(find_marker_from(nodes, i + 1) is None);
        lemma_find_none_aux(nodes, i + 1, t);
    }
}

/// When the search comes back empty, no directory anywhere in the walked
/// tree has the marker in its name.
pub proof fn lemma_find_marker_complete(nodes: Seq<FsNode>, t: FsNode)
    requires
        fs_nodes_wf(nodes),
        find_marker_in(nodes) is None,
        tree_contains(nodes, t),
        t.kind is Dir,
    ensures
        !contains_sub(t.name@, entry_marker()),
{
    lemma_find_none_aux(nodes, 0, t);
}

/// With a marker directory somewhere in the walked tree — at any nesting
/// depth — the listing is rooted at a marker directory's subtree, never at
/// the archive root.
pub proof fn lemma_list_uses_entry_point(nodes: Seq<FsNode>, t: FsNode)
    requires
        fs_nodes_wf(nodes),
        tree_contains(nodes, t),
        is_marker_dir(t),
    ensures
        find_marker_in(nodes) matches Some(f) && is_marker_dir(f) && tree_contains(nodes, f)
            && list_spec(nodes) == collect_spec(f.children@),
{
    if find_marker_in(nodes) is None {
        lemma_find_marker_complete(nodes, t);
        assert(false);
    }
    lemma_find_marker_sound(nodes);
}

/// With no marker directory anywhere in the walked tree, the listing is
/// rooted at the archive root itself.
pub proof fn lemma_list_falls_back_to_root(nodes: Seq<FsNode>)
    requires
        fs_nodes_wf(nodes),
        forall|t: FsNode|
            tree_contains(nodes, t) && t.kind is Dir ==> !contains_sub(t.name@, entry_marker()),
    ensures
        find_marker_in(nodes) is None,
        list_spec(nodes) == collect_spec(nodes),
{
    if find_marker_in(nodes) is Some {
        lemma_find_marker_sound(nodes);
        let f = find_marker_in(nodes).unwrap();
        assert(tree_contains(nodes, f) && f.kind is Dir);
        assert(false);
    }
}

} // verus!
