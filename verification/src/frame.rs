//! The per-frame layout/paint coordinator.
//!
//! Each frame moves through `Building → Measured → Solved → Painted`. The
//! external constraint solver is consumed as a black box: the whole arena
//! goes out, one rectangle per node comes back. Paint is modeled as data: a
//! plan of paint intents that the host replays at the solved rectangles, so
//! no pixel ever has to move after the fact.
//!
//! The plan puts all nodes in build order first, then repaints sticky nodes
//! on top: nodes pinned on one axis before nodes pinned on both, so a
//! pinned corner cell is never occluded by a pinned row or column.
//!
//! Some native widgets can only report an exact intrinsic size once a first
//! solve has fixed their constraints, so a logical frame may re-enter the
//! pipeline; the sub-pass budget bounds those re-entries.

use vstd::prelude::*;

use crate::geom::{Rect, sticky_clamp, sticky_clamp_spec};
use crate::measure::IntrinsicSize;
use crate::tree::{Arena, Node, lemma_wf_nodes_same_parent_update, wf_node};

verus! {

/// Largest number of build→measure→solve→paint sub-passes one logical
/// frame may take; bounded by how often the host surface can redraw
/// without visible flicker.
pub const MAX_SUB_PASSES: u32 = 3;

/// Where in the build→measure→solve→paint pipeline the frame stands.
#[derive(Clone, Copy, PartialEq, Eq, Structural, Debug)]
pub enum FramePhase {
    /// Nodes accumulated, leaves not yet measured.
    Building,
    /// Every leaf measured (or left to its zero default).
    Measured,
    /// The solver has assigned every node a rectangle.
    Solved,
    /// The paint plan has been emitted.
    Painted,
}

/// Errors of the frame pipeline; each names a protocol misuse.
#[derive(Clone, Copy, PartialEq, Eq, Structural, Debug)]
pub enum FrameError {
    /// The call does not belong to the frame's current phase.
    WrongPhase,
    /// A handle does not name a node of this frame.
    UnknownHandle,
    /// The solver handed back a rectangle count different from the node
    /// count.
    WrongSolutionSize,
    /// The solver handed back a malformed rectangle.
    MalformedRect,
}

/// One entry of the paint plan: paint the content of node `node` (id `id`)
/// into `rect`.
#[derive(Clone, Copy, PartialEq, Eq, Structural, Debug)]
pub struct PaintIntent {
    /// Arena index of the node to paint.
    pub node: usize,
    /// The node's stable identity.
    pub id: u64,
    /// Where to paint it.
    pub rect: Rect,
}

/// Every node of the frame has a solved rectangle, and a well-formed one.
pub open spec fn all_resolved(nodes: Seq<Node>) -> bool {
    forall|i: int|
        0 <= i < nodes.len() ==> ((#[trigger] nodes[i].resolved) matches Some(r)
            && r.well_formed())
}

/// The normal paint pass over the first `i` nodes: every non-root node in
/// build order, at its solved rectangle.
pub open spec fn normal_intents_upto(nodes: Seq<Node>, i: int) -> Seq<PaintIntent>
    decreases i,
{
    if i <= 1 {
        Seq::empty()
    } else {
        normal_intents_upto(nodes, i - 1).push(
            PaintIntent {
                node: (i - 1) as usize,
                id: nodes[i - 1].id,
                rect: nodes[i - 1].resolved->0,
            },
        )
    }
}

/// Whether node `n` belongs to the sticky repaint pass selected by `both`:
/// the one-axis pass (`both == false`) or the both-axes pass.
pub open spec fn sticky_selected(n: Node, both: bool) -> bool {
    if both {
        n.sticky.both()
    } else {
        n.sticky.any() && !n.sticky.both()
    }
}

/// The sticky repaint pass over the first `i` nodes: the selected nodes in
/// build order, each at its clamped rectangle.
pub open spec fn sticky_intents_upto(nodes: Seq<Node>, vp: Rect, both: bool, i: int) -> Seq<
    PaintIntent,
>
    decreases i,
{
    if i <= 1 {
        Seq::empty()
    } else {
        sticky_intents_upto(nodes, vp, both, i - 1) + if sticky_selected(nodes[i - 1], both) {
            seq![
                PaintIntent {
                    node: (i - 1) as usize,
                    id: nodes[i - 1].id,
                    rect: sticky_clamp_spec(nodes[i - 1].resolved->0, vp, nodes[i - 1].sticky),
                },
            ]
        } else {
            Seq::empty()
        }
    }
}

/// The full paint plan: the normal pass, then sticky nodes pinned on one
/// axis, then sticky nodes pinned on both axes, so pinned content sits
/// above scrolled content and a pinned corner above both.
pub open spec fn paint_plan_spec(nodes: Seq<Node>, vp: Rect) -> Seq<PaintIntent> {
    normal_intents_upto(nodes, nodes.len() as int) + sticky_intents_upto(
        nodes,
        vp,
        false,
        nodes.len() as int,
    ) + sticky_intents_upto(nodes, vp, true, nodes.len() as int)
}

/// Drives one frame of the pipeline over a finished arena.
pub struct LayoutFrame {
    /// The frame's nodes, in declaration order; index 0 is the root.
    pub nodes: Vec<Node>,
    /// Current pipeline phase.
    pub phase: FramePhase,
}

impl LayoutFrame {
    /// Frame invariant: the tree stays well formed, and from the solve
    /// pass onwards every node carries a well-formed rectangle.
    pub open spec fn well_formed(self) -> bool {
        &&& self.nodes@.len() >= 1
        &&& forall|i: int| 0 <= i < self.nodes@.len() ==> #[trigger] wf_node(self.nodes@, i)
        &&& (self.phase is Solved || self.phase is Painted) ==> all_resolved(self.nodes@)
    }

    /// Take over a finished tree and start the measurement phase.
    pub fn new(arena: Arena) -> (r: LayoutFrame)
        requires
            arena.well_formed(),
        ensures
            r.well_formed(),
            r.phase is Building,
            r.nodes@ == arena.nodes@,
    {
        LayoutFrame { nodes: arena.nodes, phase: FramePhase::Building }
    }

    /// Record the intrinsic size a leaf's probe reported and return the
    /// size on file for the leaf.
    ///
    /// Measurement is cached within the frame: if the same handle is
    /// measured twice, the first probe's result stands and the new one is
    /// ignored.
    pub fn measure_leaf(&mut self, h: usize, measured: IntrinsicSize) -> (r: Result<
        IntrinsicSize,
        FrameError,
    >)
        requires
            old(self).well_formed(),
        ensures
            final(self).well_formed(),
            final(self).phase == old(self).phase,
            r is Ok <==> (old(self).phase is Building && h < old(self).nodes@.len()),
            r matches Err(e) ==> *final(self) == *old(self) && e == (if !(old(
                self,
            ).phase is Building) {
                FrameError::WrongPhase
            } else {
                FrameError::UnknownHandle
            }),
            r matches Ok(sz) ==> (match old(self).nodes@[h as int].intrinsic {
                Some(prev) => sz == prev && *final(self) == *old(self),
                None => sz == measured && final(self).nodes@ == old(self).nodes@.update(
                    h as int,
                    (Node { intrinsic: Some(measured), ..old(self).nodes@[h as int] }),
                ),
            }),
    {
        if !matches!(self.phase, FramePhase::Building) {
            return Err(FrameError::WrongPhase);
        }
        if h >= self.nodes.len() {
            return Err(FrameError::UnknownHandle);
        }
        let node = self.nodes[h];
        match node.intrinsic {
            Some(prev) => Ok(prev),
            None => {
                let updated = Node { intrinsic: Some(measured), ..node };
                self.nodes.set(h, updated);
                proof {
                    lemma_wf_nodes_same_parent_update(old(self).nodes@, h as int, updated);
                }
                Ok(measured)
            },
        }
    }

    /// The intrinsic size the solver will see for a node: what was
    /// measured, or the zero default for leaves that were never measurable.
    pub fn intrinsic_or_zero(&self, h: usize) -> (r: Result<IntrinsicSize, FrameError>)
        ensures
            r is Ok <==> h < self.nodes@.len(),
            r matches Ok(sz) ==> sz == (match self.nodes@[h as int].intrinsic {
                Some(m) => m,
                None => IntrinsicSize::zero_spec(),
            }),
            r matches Err(e) ==> e == FrameError::UnknownHandle,
    {
        if h >= self.nodes.len() {
            return Err(FrameError::UnknownHandle);
        }
        match self.nodes[h].intrinsic {
            Some(m) => Ok(m),
            None => Ok(IntrinsicSize::zero()),
        }
    }

    /// Close the measurement pass.
    pub fn finish_measurement(&mut self) -> (r: Result<(), FrameError>)
        requires
            old(self).well_formed(),
        ensures
            final(self).well_formed(),
            r is Ok <==> old(self).phase is Building,
            r is Ok ==> final(self).nodes@ == old(self).nodes@ && final(self).phase
                is Measured,
            r matches Err(e) ==> *final(self) == *old(self) && e == FrameError::WrongPhase,
    {
        if !matches!(self.phase, FramePhase::Building) {
            return Err(FrameError::WrongPhase);
        }
        self.phase = FramePhase::Measured;
        Ok(())
    }

    /// Accept the solver's result: one rectangle per node, in arena order.
    ///
    /// The call is all-or-nothing — a wrong count or a malformed rectangle
    /// rejects the whole solution and leaves the frame untouched.
    pub fn apply_solution(&mut self, rects: &Vec<Rect>) -> (r: Result<(), FrameError>)
        requires
            old(self).well_formed(),
        ensures
            final(self).well_formed(),
            r is Ok <==> (old(self).phase is Measured && rects@.len() == old(
                self,
            ).nodes@.len() && (forall|i: int|
                0 <= i < rects@.len() ==> (#[trigger] rects@[i]).well_formed())),
            r is Ok ==> final(self).phase is Solved && final(self).nodes@.len() == old(
                self,
            ).nodes@.len() && (forall|i: int|
                0 <= i < old(self).nodes@.len() ==> #[trigger] final(self).nodes@[i] == (Node {
                    resolved: Some(rects@[i]),
                    ..old(self).nodes@[i]
                })),
            r matches Err(e) ==> *final(self) == *old(self) && e == (if !(old(
                self,
            ).phase is Measured) {
                FrameError::WrongPhase
            } else if rects@.len() != old(self).nodes@.len() {
                FrameError::WrongSolutionSize
            } else {
                FrameError::MalformedRect
            }),
    {
        if !matches!(self.phase, FramePhase::Measured) {
            return Err(FrameError::WrongPhase);
        }
        if rects.len() != self.nodes.len() {
            return Err(FrameError::WrongSolutionSize);
        }
        let mut i: usize = 0;
        while i < rects.len()
            invariant
                i <= rects@.len(),
                *self == *old(self),
                old(self).well_formed(),
                old(self).phase is Measured,
                rects@.len() == old(self).nodes@.len(),
                forall|j: int| 0 <= j < i ==> (#[trigger] rects@[j]).well_formed(),
            decreases rects@.len() - i,
        {
            let rc = rects[i];
            if rc.w < 0 || rc.h < 0 || rc.x > i32::MAX - rc.w || rc.y > i32::MAX - rc.h {
                return Err(FrameError::MalformedRect);
            }
            i = i + 1;
        }
        let ghost prev_nodes = self.nodes@;
        let mut k: usize = 0;
        while k < self.nodes.len()
            invariant
                k <= self.nodes@.len(),
                self.nodes@.len() == prev_nodes.len(),
                rects@.len() == prev_nodes.len(),
                forall|j: int| 0 <= j < prev_nodes.len() ==> #[trigger] wf_node(prev_nodes, j),
                forall|j: int|
                    0 <= j < self.nodes@.len() ==> #[trigger] wf_node(self.nodes@, j),
                forall|j: int|
                    0 <= j < k ==> #[trigger] self.nodes@[j] == (Node {
                        resolved: Some(rects@[j]),
                        ..prev_nodes[j]
                    }),
                forall|j: int| k <= j < prev_nodes.len() ==> #[trigger] self.nodes@[j]
                    == prev_nodes[j],
            decreases self.nodes@.len() - k,
        {
            let node = self.nodes[k];
            let updated = Node { resolved: Some(rects[k]), ..node };
            proof {
                lemma_wf_nodes_same_parent_update(self.nodes@, k as int, updated);
            }
            self.nodes.set(k, updated);
            k = k + 1;
        }
        self.phase = FramePhase::Solved;
        proof {
            assert forall|i2: int| 0 <= i2 < self.nodes@.len() implies ((
            #[trigger] self.nodes@[i2].resolved) matches Some(r2) && r2.well_formed()) by {
                assert(self.nodes@[i2] == (Node { resolved: Some(rects@[i2]), ..prev_nodes[i2] }));
                assert(rects@[i2].well_formed());
            }
        }
        Ok(())
    }

    /// The rectangle the solver assigned to a node.
    ///
    /// Reading a rectangle before the solve pass is a programming error
    /// and is rejected.
    pub fn resolved_rect(&self, h: usize) -> (r: Result<Rect, FrameError>)
        requires
            self.well_formed(),
        ensures
            r is Ok <==> ((self.phase is Solved || self.phase is Painted) && h
                < self.nodes@.len()),
            r matches Ok(rc) ==> self.nodes@[h as int].resolved == Some(rc),
            r matches Err(e) ==> e == (if !(self.phase is Solved || self.phase is Painted) {
                FrameError::WrongPhase
            } else {
                FrameError::UnknownHandle
            }),
    {
        if !(matches!(self.phase, FramePhase::Solved) || matches!(self.phase, FramePhase::Painted)) {
            return Err(FrameError::WrongPhase);
        }
        if h >= self.nodes.len() {
            return Err(FrameError::UnknownHandle);
        }
        proof {
            assert(all_resolved(self.nodes@));
            assert((self.nodes@[h as int].resolved) matches Some(r2) && r2.well_formed());
        }
        match self.nodes[h].resolved {
            Some(rc) => Ok(rc),
            None => Err(FrameError::WrongPhase),
        }
    }

    /// Emit the frame's paint plan against the current scroll viewport:
    /// all nodes in build order, then the sticky repaints, one-axis nodes
    /// before both-axes nodes.
    pub fn paint_intents(&mut self, viewport: Rect) -> (r: Result<Vec<PaintIntent>, FrameError>)
        requires
            old(self).well_formed(),
            viewport.well_formed(),
        ensures
            final(self).well_formed(),
            final(self).nodes@ == old(self).nodes@,
            r is Ok <==> old(self).phase is Solved,
            r matches Ok(v) ==> v@ == paint_plan_spec(old(self).nodes@, viewport)
                && final(self).phase is Painted,
            r matches Err(e) ==> *final(self) == *old(self) && e == FrameError::WrongPhase,
    {
        if !matches!(self.phase, FramePhase::Solved) {
            return Err(FrameError::WrongPhase);
        }
        let n = self.nodes.len();
        let mut v: Vec<PaintIntent> = Vec::new();
        let mut i: usize = 1;
        while i < n
            invariant
                1 <= i <= n,
                n == self.nodes@.len(),
                self.well_formed(),
                self.phase is Solved,
                v@ == normal_intents_upto(self.nodes@, i as int),
            decreases n - i,
        {
            let node = self.nodes[i];
            proof {
                assert(all_resolved(self.nodes@));
                assert((self.nodes@[i as int].resolved) matches Some(r2) && r2.well_formed());
            }
            let rect = match node.resolved {
                Some(rc) => rc,
                None => Rect { x: 0, y: 0, w: 0, h: 0 },
            };
            v.push(PaintIntent { node: i, id: node.id, rect });
            i = i + 1;
        }
        let mut pass: u32 = 0;
        while pass < 2
            invariant
                pass <= 2,
                n == self.nodes@.len(),
                self.well_formed(),
                self.phase is Solved,
                viewport.well_formed(),
                pass == 0 ==> v@ == normal_intents_upto(self.nodes@, n as int),
                pass == 1 ==> v@ == normal_intents_upto(self.nodes@, n as int)
                    + sticky_intents_upto(self.nodes@, viewport, false, n as int),
                pass == 2 ==> v@ == normal_intents_upto(self.nodes@, n as int)
                    + sticky_intents_upto(self.nodes@, viewport, false, n as int)
                    + sticky_intents_upto(self.nodes@, viewport, true, n as int),
            decreases 2 - pass,
        {
            let both = pass == 1;
            let ghost base = v@;
            let mut i2: usize = 1;
            while i2 < n
                invariant
                    1 <= i2 <= n,
                    n == self.nodes@.len(),
                    self.well_formed(),
                    self.phase is Solved,
                    viewport.well_formed(),
                    v@ == base + sticky_intents_upto(self.nodes@, viewport, both, i2 as int),
                decreases n - i2,
            {
                let node = self.nodes[i2];
                proof {
                    assert(all_resolved(self.nodes@));
                    assert((self.nodes@[i2 as int].resolved) matches Some(r2)
                        && r2.well_formed());
                }
                let is_one_axis = (node.sticky.x || node.sticky.y) && !(node.sticky.x
                    && node.sticky.y);
                let is_both = node.sticky.x && node.sticky.y;
                if (both && is_both) || (!both && is_one_axis) {
                    let rect = match node.resolved {
                        Some(rc) => rc,
                        None => Rect { x: 0, y: 0, w: 0, h: 0 },
                    };
                    let clamped = sticky_clamp(rect, viewport, node.sticky);
                    v.push(PaintIntent { node: i2, id: node.id, rect: clamped });
                }
                proof {
                    assert(v@ =~= base + sticky_intents_upto(
                        self.nodes@,
                        viewport,
                        both,
                        i2 + 1,
                    ));
                }
                i2 = i2 + 1;
            }
            pass = pass + 1;
        }
        self.phase = FramePhase::Painted;
        Ok(v)
    }
}

/// Bounded re-entry budget for one logical frame: each sub-pass repeats the
/// whole pipeline with the previous pass's sizes as a hint, and the last
/// sub-pass's paint plan is what is shown.
#[derive(Clone, Copy, PartialEq, Eq, Structural, Debug)]
pub struct SubPassBudget {
    /// Sub-passes already taken this logical frame.
    pub used: u32,
}

impl SubPassBudget {
    /// A fresh frame has its whole budget left.
    pub fn new() -> (r: SubPassBudget)
        ensures
            r.used == 0,
    {
        SubPassBudget { used: 0 }
    }

    /// Try to take one more sub-pass; grants at most `MAX_SUB_PASSES` per
    /// logical frame.
    pub fn try_begin_pass(&mut self) -> (granted: bool)
        requires
            old(self).used <= MAX_SUB_PASSES,
        ensures
            granted <==> old(self).used < MAX_SUB_PASSES,
            final(self).used == if granted {
                old(self).used + 1
            } else {
                old(self).used as int
            },
            final(self).used <= MAX_SUB_PASSES,
    {
        if self.used < MAX_SUB_PASSES {
            self.used = self.used + 1;
            true
        } else {
            false
        }
    }
}

} // verus!
