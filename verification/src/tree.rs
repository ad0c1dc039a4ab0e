//! The per-frame node tree.
//!
//! A frame's tree is built from a sequence of strictly nested
//! `begin_node` / `end_node` calls; the builder infers the tree shape from
//! the call order alone. Every node gets a fingerprint id mixed from its
//! parent's id and a local discriminator (sibling ordinal, or an explicit
//! key), so an unchanged declaration order reproduces identical ids across
//! frames even though the tree is rebuilt from scratch.
//!
//! The arena owns all nodes of the frame; handles are stable indices into
//! it and a node's `parent` is a back-reference only. Ending a node that is
//! not the innermost open node is a misuse and is rejected without touching
//! the tree.

use vstd::prelude::*;

use crate::geom::{Rect, StickyAxes};
use crate::ids::{Discriminator, ROOT_ID, child_id, child_id_spec, id_of_path};
use crate::measure::IntrinsicSize;
use crate::style::{Style, StylePatch, apply_patch_spec};

verus! {

/// One element of the layout tree, alive for a single frame.
#[derive(Clone, Copy)]
pub struct Node {
    /// Fingerprint derived from the parent's id and `disc`; the node's only
    /// cross-frame continuity.
    pub id: u64,
    /// Back-reference to the parent's arena index; never an ownership edge.
    pub parent: Option<usize>,
    /// The discriminator that separates this node from its siblings.
    pub disc: Discriminator,
    /// Accumulated style constraints.
    pub style: Style,
    /// Which axes the node is pinned on inside a scrollable ancestor.
    pub sticky: StickyAxes,
    /// Intrinsic size bounds, absent until the measurement pass fills them.
    pub intrinsic: Option<IntrinsicSize>,
    /// The solver's rectangle, absent until the solve pass fills it.
    pub resolved: Option<Rect>,
    /// How many children have been declared under this node so far.
    pub child_count: u64,
    /// The chain of discriminators from the root down to this node.
    pub path: Ghost<Seq<Discriminator>>,
}

/// Misuses of the frame-building protocol.
#[derive(Clone, Copy, PartialEq, Eq, Structural, Debug)]
pub enum BuildError {
    /// `end_node` named a node that is not the innermost open node.
    NotInnermost,
    /// A handle does not name a node of the current frame.
    UnknownHandle,
    /// `finish` was called while nodes were still open.
    UnclosedNodes,
}

/// Number of nodes in `nodes` whose parent is node `p`.
pub open spec fn count_children(nodes: Seq<Node>, p: int) -> nat
    decreases nodes.len(),
{
    if nodes.len() == 0 {
        0
    } else {
        count_children(nodes.drop_last(), p) + if nodes.last().parent matches Some(q) && q == p {
            1nat
        } else {
            0nat
        }
    }
}

/// Appending one node adds exactly its own contribution to every count.
proof fn lemma_count_push(nodes: Seq<Node>, n: Node, p: int)
    ensures
        count_children(nodes.push(n), p) == count_children(nodes, p) + if n.parent matches Some(
            q,
        ) && q == p {
            1nat
        } else {
            0nat
        },
{
    assert(nodes.push(n).drop_last() =~= nodes);
    assert(nodes.push(n).last() == n);
}

/// Replacing a node with one that has the same parent leaves every count
/// unchanged.
proof fn lemma_count_update_same_parent(nodes: Seq<Node>, i: int, n: Node, p: int)
    requires
        0 <= i < nodes.len(),
        nodes[i].parent == n.parent,
    ensures
        count_children(nodes.update(i, n), p) == count_children(nodes, p),
    decreases nodes.len(),
{
    if i == nodes.len() - 1 {
        assert(nodes.update(i, n).drop_last() =~= nodes.drop_last());
        assert(nodes.update(i, n).last() == n);
    } else {
        assert(nodes.update(i, n).drop_last() =~= nodes.drop_last().update(i, n));
        assert(nodes.update(i, n).last() == nodes.last());
        lemma_count_update_same_parent(nodes.drop_last(), i, n, p);
    }
}

/// A node index that no node names as parent has no children.
proof fn lemma_count_absent(nodes: Seq<Node>, p: int)
    requires
        forall|i: int|
            0 <= i < nodes.len() ==> !(#[trigger] nodes[i].parent matches Some(q) && q == p),
    ensures
        count_children(nodes, p) == 0,
    decreases nodes.len(),
{
    if nodes.len() > 0 {
        lemma_count_absent(nodes.drop_last(), p);
    }
}

/// Structural well-formedness of the node at index `i`:
/// the root carries the fixed root id and an empty path, and every other
/// node points back to an earlier parent, extends the parent's
/// discriminator path by its own discriminator, and carries the id of that
/// path. Each node's `child_count` equals the number of its children
/// declared so far.
pub open spec fn wf_node(nodes: Seq<Node>, i: int) -> bool {
    &&& if i == 0 {
        &&& nodes[0].parent is None
        &&& nodes[0].path@ == Seq::<Discriminator>::empty()
        &&& nodes[0].id == ROOT_ID
    } else {
        &&& nodes[i].parent matches Some(p) && p < i && nodes[i].path@ == nodes[p as int].path@.push(
            nodes[i].disc,
        )
        &&& nodes[i].id == id_of_path(nodes[i].path@)
    }
    &&& nodes[i].child_count == count_children(nodes, i)
}

/// The finished, immutable node tree of one frame.
pub struct Arena {
    /// All nodes, in declaration order; index 0 is the root.
    pub nodes: Vec<Node>,
}

impl Arena {
    /// Every node of the arena is structurally well formed.
    pub open spec fn well_formed(self) -> bool {
        &&& self.nodes@.len() >= 1
        &&& forall|i: int| 0 <= i < self.nodes@.len() ==> #[trigger] wf_node(self.nodes@, i)
    }
}

/// Builds one frame's tree from strictly nested begin/end calls.
pub struct TreeBuilder {
    /// Nodes in declaration order; index 0 is the implicit root.
    pub nodes: Vec<Node>,
    /// Stack of currently open nodes, outermost (the root) first.
    pub open_nodes: Vec<usize>,
}

impl TreeBuilder {
    /// Builder invariant: well-formed nodes plus a coherent open stack.
    pub open spec fn well_formed(self) -> bool {
        &&& self.nodes@.len() >= 1
        &&& forall|i: int| 0 <= i < self.nodes@.len() ==> #[trigger] wf_node(self.nodes@, i)
        &&& self.open_nodes@.len() >= 1
        &&& self.open_nodes@[0] == 0usize
        &&& forall|j: int|
            0 <= j < self.open_nodes@.len() ==> (#[trigger] self.open_nodes@[j] as int)
                < self.nodes@.len()
        &&& forall|j: int|
            1 <= j < self.open_nodes@.len() ==> ((#[trigger] self.nodes@[self.open_nodes@[j] as int].parent)
                matches Some(p) && p == self.open_nodes@[j - 1])
    }

    /// The node the next `begin_node` call will attach to.
    pub open spec fn innermost_open(self) -> int {
        self.open_nodes@.last() as int
    }

    /// Start a frame: an empty tree holding only the open root node.
    pub fn new() -> (r: TreeBuilder)
        ensures
            r.well_formed(),
            r.nodes@.len() == 1,
            r.open_nodes@.len() == 1,
            r.nodes@[0].id == ROOT_ID,
            r.nodes@[0].style == Style::default_spec(),
    {
        let root = Node {
            id: ROOT_ID,
            parent: None,
            disc: Discriminator::Ordinal(0),
            style: Style::default(),
            sticky: StickyAxes { x: false, y: false },
            intrinsic: None,
            resolved: None,
            child_count: 0,
            path: Ghost(Seq::empty()),
        };
        let mut nodes: Vec<Node> = Vec::new();
        nodes.push(root);
        let mut open_nodes: Vec<usize> = Vec::new();
        open_nodes.push(0);
        proof {
            lemma_count_absent(nodes@, 0);
            assert(wf_node(nodes@, 0));
        }
        TreeBuilder { nodes, open_nodes }
    }

    /// Open a new node under the innermost open node and return its handle.
    ///
    /// Without an explicit key the discriminator is the node's ordinal
    /// position among its siblings in this frame, so conditionally inserting
    /// or removing an earlier sibling shifts the identity of every later
    /// one; with a key the identity follows the key alone.
    pub fn begin_node(&mut self, key: Option<u64>) -> (h: usize)
        requires
            old(self).well_formed(),
            old(self).nodes@.len() < usize::MAX,
        ensures
            final(self).well_formed(),
            node_opened(*old(self), *final(self), h, key),
    {
        let h = self.nodes.len();
        let parent_idx: usize = self.open_nodes[self.open_nodes.len() - 1];
        let parent = self.nodes[parent_idx];
        let disc = match key {
            Some(k) => Discriminator::Key(k),
            None => Discriminator::Ordinal(parent.child_count),
        };
        let ghost path = parent.path@.push(disc);
        let id = child_id(parent.id, disc);
        let node = Node {
            id,
            parent: Some(parent_idx),
            disc,
            style: Style::default(),
            sticky: StickyAxes { x: false, y: false },
            intrinsic: None,
            resolved: None,
            child_count: 0,
            path: Ghost(path),
        };
        proof {
            // the parent's counter stays within u64 because it counts nodes
            assert(wf_node(self.nodes@, parent_idx as int));
            lemma_count_le_len(self.nodes@, parent_idx as int);
        }
        self.nodes.push(node);
        let updated_parent = Node { child_count: parent.child_count + 1, ..parent };
        self.nodes.set(parent_idx, updated_parent);
        self.open_nodes.push(h);
        proof {
            let old_nodes = old(self).nodes@;
            let pushed = old_nodes.push(node);
            let new_nodes = self.nodes@;
            assert(new_nodes == pushed.update(parent_idx as int, updated_parent));
            assert forall|p: int| #![trigger count_children(new_nodes, p)] true implies
                count_children(new_nodes, p) == count_children(pushed, p) by {
                lemma_count_update_same_parent(pushed, parent_idx as int, updated_parent, p);
            }
            assert forall|p: int| #![trigger count_children(pushed, p)] true implies
                count_children(pushed, p) == count_children(old_nodes, p) + if p == parent_idx as int {
                1nat
            } else {
                0nat
            } by {
                lemma_count_push(old_nodes, node, p);
            }
            assert(id_of_path(path) == child_id_spec(id_of_path(parent.path@), disc)) by {
                assert(path.drop_last() =~= parent.path@);
            }
            assert forall|i: int| 0 <= i < new_nodes.len() implies #[trigger] wf_node(
                new_nodes,
                i,
            ) by {
                if i < old_nodes.len() {
                    assert(wf_node(old_nodes, i));
                } else {
                    // no earlier node can name the fresh index as parent
                    assert forall|k: int| 0 <= k < old_nodes.len() implies !((
                    #[trigger] old_nodes[k].parent) matches Some(q) && q == i) by {
                        assert(wf_node(old_nodes, k));
                    }
                    lemma_count_absent(old_nodes, i);
                }
            }
        }
        h
    }

    /// Merge a style patch into the node named by `h`; set fields win over
    /// earlier writers, unset fields keep their value.
    pub fn set_style(&mut self, h: usize, patch: StylePatch) -> (r: Result<(), BuildError>)
        requires
            old(self).well_formed(),
        ensures
            final(self).well_formed(),
            h < old(self).nodes@.len() <==> r is Ok,
            r matches Err(e) ==> e == BuildError::UnknownHandle && *final(self) == *old(self),
            r is Ok ==> final(self).nodes@ == old(self).nodes@.update(
                h as int,
                (Node {
                    style: apply_patch_spec(patch, old(self).nodes@[h as int].style),
                    ..old(self).nodes@[h as int]
                }),
            ) && final(self).open_nodes@ == old(self).open_nodes@,
    {
        if h >= self.nodes.len() {
            return Err(BuildError::UnknownHandle);
        }
        let node = self.nodes[h];
        let updated = Node { style: patch.apply(node.style), ..node };
        self.nodes.set(h, updated);
        proof {
            self.lemma_wf_after_same_parent_update(*old(self), h as int, updated);
        }
        Ok(())
    }

    /// Pin or unpin the node named by `h` on each axis.
    pub fn set_sticky(&mut self, h: usize, axes: StickyAxes) -> (r: Result<(), BuildError>)
        requires
            old(self).well_formed(),
        ensures
            final(self).well_formed(),
            h < old(self).nodes@.len() <==> r is Ok,
            r matches Err(e) ==> e == BuildError::UnknownHandle && *final(self) == *old(self),
            r is Ok ==> final(self).nodes@ == old(self).nodes@.update(
                h as int,
                (Node { sticky: axes, ..old(self).nodes@[h as int] }),
            ) && final(self).open_nodes@ == old(self).open_nodes@,
    {
        if h >= self.nodes.len() {
            return Err(BuildError::UnknownHandle);
        }
        let node = self.nodes[h];
        let updated = Node { sticky: axes, ..node };
        self.nodes.set(h, updated);
        proof {
            self.lemma_wf_after_same_parent_update(*old(self), h as int, updated);
        }
        Ok(())
    }

    /// Close the node named by `h`.
    ///
    /// Closing any node other than the innermost open one would corrupt the
    /// nesting that the tree shape is inferred from, so it is a misuse: the
    /// call fails and the tree is left untouched.
    pub fn end_node(&mut self, h: usize) -> (r: Result<(), BuildError>)
        requires
            old(self).well_formed(),
        ensures
            final(self).well_formed(),
            r is Ok <==> (old(self).open_nodes@.len() > 1 && old(self).innermost_open() == h),
            r matches Err(e) ==> e == BuildError::NotInnermost && *final(self) == *old(self),
            r is Ok ==> final(self).nodes@ == old(self).nodes@ && final(self).open_nodes@ == old(
                self,
            ).open_nodes@.drop_last(),
    {
        let top = self.open_nodes[self.open_nodes.len() - 1];
        if self.open_nodes.len() <= 1 || top != h {
            return Err(BuildError::NotInnermost);
        }
        let _ = self.open_nodes.pop();
        proof {
            assert(self.open_nodes@ =~= old(self).open_nodes@.drop_last());
        }
        Ok(())
    }

    /// Finish the frame and hand the tree over.
    ///
    /// Every node opened by `begin_node` must have been closed again; a
    /// frame with open nodes is abandoned whole.
    pub fn finish(self) -> (r: Result<Arena, BuildError>)
        requires
            self.well_formed(),
        ensures
            r is Ok <==> self.open_nodes@.len() == 1,
            r matches Ok(arena) ==> arena.nodes@ == self.nodes@ && arena.well_formed(),
            r matches Err(e) ==> e == BuildError::UnclosedNodes,
    {
        if self.open_nodes.len() != 1 {
            return Err(BuildError::UnclosedNodes);
        }
        Ok(Arena { nodes: self.nodes })
    }

    /// Replacing a node with one of equal parent keeps the whole tree well
    /// formed, provided the replacement changes neither identity nor
    /// counter fields.
    proof fn lemma_wf_after_same_parent_update(self, prev: TreeBuilder, i: int, n: Node)
        requires
            prev.well_formed(),
            0 <= i < prev.nodes@.len(),
            n.parent == prev.nodes@[i].parent,
            n.disc == prev.nodes@[i].disc,
            n.id == prev.nodes@[i].id,
            n.path == prev.nodes@[i].path,
            n.child_count == prev.nodes@[i].child_count,
            self.nodes@ == prev.nodes@.update(i, n),
            self.open_nodes@ == prev.open_nodes@,
        ensures
            self.well_formed(),
    {
        lemma_wf_nodes_same_parent_update(prev.nodes@, i, n);
    }
}

/// Replacing one node with a copy that keeps its identity fields — parent,
/// discriminator, id, path and child counter — preserves the
/// well-formedness of every node in the tree.
pub proof fn lemma_wf_nodes_same_parent_update(nodes: Seq<Node>, i: int, n: Node)
    requires
        0 <= i < nodes.len(),
        forall|j: int| 0 <= j < nodes.len() ==> #[trigger] wf_node(nodes, j),
        n.parent == nodes[i].parent,
        n.disc == nodes[i].disc,
        n.id == nodes[i].id,
        n.path == nodes[i].path,
        n.child_count == nodes[i].child_count,
    ensures
        forall|j: int| 0 <= j < nodes.len() ==> #[trigger] wf_node(nodes.update(i, n), j),
{
    let new_nodes = nodes.update(i, n);
    assert forall|p: int| #![trigger count_children(new_nodes, p)] true implies
        count_children(new_nodes, p) == count_children(nodes, p) by {
        lemma_count_update_same_parent(nodes, i, n, p);
    }
    assert forall|j: int| 0 <= j < nodes.len() implies #[trigger] wf_node(new_nodes, j) by {
        assert(wf_node(nodes, j));
    }
}

/// The full effect of opening one node: `cur` is `prev` with exactly one
/// node appended under `prev`'s innermost open node. The new node's handle
/// is the old node count, its discriminator follows `key` (the sibling
/// ordinal when no key is given), its path extends the parent's path and
/// its id is the fingerprint of that path; it starts with the default
/// style, unpinned, unmeasured and unsolved, and it becomes the innermost
/// open node. Every previous node is kept, apart from the parent's child
/// counter growing by one.
pub open spec fn node_opened(prev: TreeBuilder, cur: TreeBuilder, h: usize, key: Option<u64>) -> bool {
    let parent = prev.innermost_open();
    &&& h == prev.nodes@.len()
    &&& cur.nodes@.len() == prev.nodes@.len() + 1
    &&& cur.open_nodes@ == prev.open_nodes@.push(h)
    &&& ({
        let node = cur.nodes@[h as int];
        &&& node.parent matches Some(p) && p == parent
        &&& node.disc == (match key {
            Some(k) => Discriminator::Key(k),
            None => Discriminator::Ordinal(prev.nodes@[parent].child_count),
        })
        &&& node.path@ == prev.nodes@[parent].path@.push(node.disc)
        &&& node.id == id_of_path(node.path@)
        &&& node.style == Style::default_spec()
        &&& node.sticky == (StickyAxes { x: false, y: false })
        &&& node.intrinsic is None
        &&& node.resolved is None
    })
    &&& forall|i: int|
        0 <= i < prev.nodes@.len() && i != parent ==> #[trigger] cur.nodes@[i] == prev.nodes@[i]
    &&& cur.nodes@[parent] == (Node {
        child_count: (prev.nodes@[parent].child_count + 1) as u64,
        ..prev.nodes@[parent]
    })
}

/// Every child counter is bounded by the number of nodes.
pub proof fn lemma_count_le_len(nodes: Seq<Node>, p: int)
    ensures
        count_children(nodes, p) <= nodes.len(),
    decreases nodes.len(),
{
    if nodes.len() > 0 {
        lemma_count_le_len(nodes.drop_last(), p);
    }
}

/// Identity stability: a node's id is a function of its discriminator path
/// alone, so any two nodes — in the same frame or in different frames —
/// whose subtrees were declared with the same order and keys carry the same
/// id.
pub proof fn lemma_identity_stable(a: Arena, b: Arena, i: int, j: int)
    requires
        a.well_formed(),
        b.well_formed(),
        0 <= i < a.nodes@.len(),
        0 <= j < b.nodes@.len(),
        a.nodes@[i].path@ == b.nodes@[j].path@,
    ensures
        a.nodes@[i].id == b.nodes@[j].id,
{
    assert(wf_node(a.nodes@, i));
    assert(wf_node(b.nodes@, j));
    if i == 0 && j == 0 {
    } else if i == 0 {
        assert(b.nodes@[j].path@.len() > 0);
    } else if j == 0 {
        assert(a.nodes@[i].path@.len() > 0);
    }
}

/// Reordering with explicit keys: two nodes declared under parents with
/// equal paths and with the same explicit key have the same id, whatever
/// their sibling positions were in either frame.
pub proof fn lemma_key_identity(a: Arena, b: Arena, i: int, j: int, k: u64)
    requires
        a.well_formed(),
        b.well_formed(),
        0 < i < a.nodes@.len(),
        0 < j < b.nodes@.len(),
        a.nodes@[i].disc == Discriminator::Key(k),
        b.nodes@[j].disc == Discriminator::Key(k),
        ({
            let pa = a.nodes@[i].parent->0;
            let pb = b.nodes@[j].parent->0;
            a.nodes@[pa as int].path@ == b.nodes@[pb as int].path@
        }),
    ensures
        a.nodes@[i].id == b.nodes@[j].id,
{
    assert(wf_node(a.nodes@, i));
    assert(wf_node(b.nodes@, j));
}

/// Reordering without explicit keys: an unkeyed node's id is determined by
/// its sibling ordinal, so two unkeyed nodes at the same position under
/// parents with equal paths share an id — and, by the same token, permuting
/// unkeyed siblings reassigns ids by the new positions.
pub proof fn lemma_ordinal_identity(a: Arena, b: Arena, i: int, j: int, ord: u64)
    requires
        a.well_formed(),
        b.well_formed(),
        0 < i < a.nodes@.len(),
        0 < j < b.nodes@.len(),
        a.nodes@[i].disc == Discriminator::Ordinal(ord),
        b.nodes@[j].disc == Discriminator::Ordinal(ord),
        ({
            let pa = a.nodes@[i].parent->0;
            let pb = b.nodes@[j].parent->0;
            a.nodes@[pa as int].path@ == b.nodes@[pb as int].path@
        }),
    ensures
        a.nodes@[i].id == b.nodes@[j].id,
{
    assert(wf_node(a.nodes@, i));
    assert(wf_node(b.nodes@, j));
}

} // verus!
