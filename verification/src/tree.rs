//! The tree views of the editor: the asset viewer's tree, built from a walk
//! of the resources folder, and the selection made in the entity tree.
use vstd::prelude::*;

verus! {

/// What a walked path is.
#[derive(Clone, Copy, PartialEq, Eq, Structural, Debug)]
pub enum EntryKind {
    Dir,
    File,
    /// Neither (a link, a device).
    Other,
}

/// One step of building a tree view.
pub enum TreeNode<L> {
    /// Close the innermost open folder.
    CloseDir,
    /// A folder node with this label.
    Dir(L),
    /// A leaf node with this label.
    Leaf(L),
}

/// The steps with their labels as plain text.
pub open spec fn nodes_view(s: Seq<TreeNode<String>>) -> Seq<TreeNode<Seq<char>>> {
    s.map_values(|n: TreeNode<String>| node_view(n))
}

/// One step with its label as plain text.
pub open spec fn node_view(n: TreeNode<String>) -> TreeNode<Seq<char>> {
    match n {
        TreeNode::CloseDir => TreeNode::CloseDir,
        TreeNode::Dir(l) => TreeNode::Dir(l@),
        TreeNode::Leaf(l) => TreeNode::Leaf(l@),
    }
}

proof fn lemma_nodes_view_push(s: Seq<TreeNode<String>>, x: TreeNode<String>)
    ensures
        nodes_view(s.push(x)) == nodes_view(s).push(node_view(x)),
{
    assert(nodes_view(s.push(x)) =~= nodes_view(s).push(node_view(x)));
}

/// A walked entry as plain values: its depth below the root, its file name
/// (none when it is not valid text) and its kind.
pub type WalkEntry = (usize, Option<Seq<char>>, EntryKind);

/// The steps for one entry after an entry at depth `old`: going up closes a
/// folder per level left, then a folder or a file becomes a node.
pub open spec fn entry_nodes(old: usize, e: WalkEntry) -> Seq<TreeNode<Seq<char>>> {
    let closes = Seq::new(
        (if e.0 < old {
            old - e.0
        } else {
            0
        }) as nat,
        |i: int| TreeNode::<Seq<char>>::CloseDir,
    );
    closes + match e.1 {
        Some(name) => match e.2 {
            EntryKind::Dir => seq![TreeNode::Dir(name)],
            EntryKind::File => seq![TreeNode::Leaf(name)],
            EntryKind::Other => Seq::empty(),
        },
        None => Seq::empty(),
    }
}

/// The steps for the first `n` entries of a walk.
pub open spec fn asset_tree_spec(es: Seq<WalkEntry>, n: nat) -> Seq<TreeNode<Seq<char>>>
    decreases n,
{
    if n == 0 {
        Seq::empty()
    } else {
        let old: usize = if n == 1 {
            0
        } else {
            es[n - 2].0
        };
        asset_tree_spec(es, (n - 1) as nat) + entry_nodes(old, es[n - 1])
    }
}

/// A walked entry as plain values.
pub open spec fn walk_view(e: (usize, Option<String>, EntryKind)) -> WalkEntry {
    (
        e.0,
        match e.1 {
            Some(s) => Some(s@),
            None => None,
        },
        e.2,
    )
}

/// The steps that build the asset viewer's tree from a walk of the
/// resources folder, in walk order.
pub fn asset_tree(entries: &Vec<(usize, Option<String>, EntryKind)>) -> (r: Vec<TreeNode<String>>)
    ensures
        nodes_view(r@) == asset_tree_spec(entries@.map_values(|e| walk_view(e)), entries@.len()),
{
    let ghost es = entries@.map_values(|e: (usize, Option<String>, EntryKind)| walk_view(e));
    let mut r: Vec<TreeNode<String>> = Vec::new();
    let mut old_depth: usize = 0;
    let mut i: usize = 0;
    while i < entries.len()
        invariant
            i <= entries@.len(),
            es == entries@.map_values(|e: (usize, Option<String>, EntryKind)| walk_view(e)),
            nodes_view(r@) == asset_tree_spec(es, i as nat),
            old_depth == (if i == 0 {
                0
            } else {
                es[i - 1].0
            }),
        decreases entries@.len() - i,
    {
        let ghost before = nodes_view(r@);
        let depth = entries[i].0;
        let mut closed: usize = 0;
        if depth < old_depth {
            let count = old_depth - depth;
            while closed < count
                invariant
                    closed <= count,
                    nodes_view(r@) == before + Seq::new(
                        closed as nat,
                        |q: int| TreeNode::<Seq<char>>::CloseDir,
                    ),
                decreases count - closed,
            {
                let ghost prev = r@;
                r.push(TreeNode::CloseDir);
                proof {
                    lemma_nodes_view_push(prev, TreeNode::CloseDir);
                }
                closed = closed + 1;
                assert(nodes_view(r@) =~= before + Seq::new(
                    closed as nat,
                    |q: int| TreeNode::<Seq<char>>::CloseDir,
                ));
            }
        } else {
            assert(nodes_view(r@) =~= before + Seq::new(0, |q: int| TreeNode::<Seq<char>>::CloseDir));
        }
        let ghost mid = r@;
        old_depth = depth;
        match &entries[i].1 {
            Some(name) => match entries[i].2 {
                EntryKind::Dir => {
                    let l = name.clone();
                    r.push(TreeNode::Dir(l));
                    proof {
                        lemma_nodes_view_push(mid, TreeNode::Dir(l));
                    }
                },
                EntryKind::File => {
                    let l = name.clone();
                    r.push(TreeNode::Leaf(l));
                    proof {
                        lemma_nodes_view_push(mid, TreeNode::Leaf(l));
                    }
                },
                EntryKind::Other => {},
            },
            None => {},
        }
        proof {
            assert(es[i as int] == walk_view(entries@[i as int]));
            assert(asset_tree_spec(es, (i + 1) as nat) == asset_tree_spec(es, i as nat)
                + entry_nodes(if i == 0 { 0 } else { es[i - 1].0 }, es[i as int]));
            assert(nodes_view(r@) =~= asset_tree_spec(es, (i + 1) as nat));
        }
        i = i + 1;
    }
    r
}

/// The entity picked in the entity tree: the first selected node, unless it
/// is the scene's root folder or a component (negative ids).
pub fn selected_entity_id(ids: &Vec<i32>) -> (r: Option<u32>)
    ensures
        r == (if ids@.len() > 0 && ids@[0] >= 0 {
            Some(ids@[0] as u32)
        } else {
            None::<u32>
        }),
{
    if ids.len() > 0 && ids[0] >= 0 {
        Some(ids[0] as u32)
    } else {
        None
    }
}

} // verus!
