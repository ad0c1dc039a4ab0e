//! Stable per-node identity.
//!
//! The tree is rebuilt from scratch every frame, so a node's only cross-frame
//! continuity is its id: a fingerprint mixed from the parent's id and a local
//! discriminator. The discriminator is either the node's ordinal position
//! among its siblings, or an application-supplied explicit key. Because the
//! id is a pure function of the path of discriminators from the root,
//! unchanged declaration order reproduces identical ids frame after frame.

use vstd::prelude::*;

verus! {

/// What distinguishes a node from its siblings.
///
/// Without an explicit key the builder uses the call-order position, so
/// inserting or removing an earlier sibling shifts the identity of every
/// later one. Keys opt a node out of that: its identity follows the key.
#[derive(Clone, Copy, PartialEq, Eq, Structural, Debug)]
pub enum Discriminator {
    /// Call-order position among the siblings of the current frame.
    Ordinal(u64),
    /// Application-supplied explicit key.
    Key(u64),
}

/// Id of the root node of every frame.
pub const ROOT_ID: u64 = 0xcbf2_9ce4_8422_2325;

/// Multiplier of the 64-bit mixing step.
pub const MIX_PRIME: u64 = 0x100_0000_01b3;

/// Domain tag mixed in for ordinal discriminators.
pub const ORDINAL_TAG: u64 = 0x9e37_79b9_7f4a_7c15;

/// Domain tag mixed in for explicit keys.
pub const KEY_TAG: u64 = 0xc2b2_ae3d_27d4_eb4f;

/// One 64-bit mixing step: fold `v` into the running fingerprint `h`.
pub open spec fn mix_spec(h: u64, v: u64) -> u64 {
    (h ^ v).wrapping_mul(MIX_PRIME)
}

/// Fingerprint of a child below the parent fingerprint `parent`, for the
/// given local discriminator. Ordinals and keys are mixed under different
/// domain tags, so an ordinal never aliases a key of the same numeric value.
pub open spec fn child_id_spec(parent: u64, disc: Discriminator) -> u64 {
    match disc {
        Discriminator::Ordinal(i) => mix_spec(mix_spec(parent, ORDINAL_TAG), i),
        Discriminator::Key(k) => mix_spec(mix_spec(parent, KEY_TAG), k),
    }
}

/// Fingerprint of the node whose chain of discriminators from the root is
/// `path`.
pub open spec fn id_of_path(path: Seq<Discriminator>) -> u64
    decreases path.len(),
{
    if path.len() == 0 {
        ROOT_ID
    } else {
        child_id_spec(id_of_path(path.drop_last()), path.last())
    }
}

/// Compute the fingerprint of a child node.
pub fn child_id(parent: u64, disc: Discriminator) -> (r: u64)
    ensures
        r == child_id_spec(parent, disc),
{
    match disc {
        Discriminator::Ordinal(i) => ((parent ^ ORDINAL_TAG).wrapping_mul(MIX_PRIME) ^ i)
            .wrapping_mul(MIX_PRIME),
        Discriminator::Key(k) => ((parent ^ KEY_TAG).wrapping_mul(MIX_PRIME) ^ k)
            .wrapping_mul(MIX_PRIME),
    }
}

} // verus!
