//! Immediate-mode layout bridge core: a per-frame node tree with stable
//! identities, style patching, a build→measure→solve→paint pipeline,
//! sticky-overlay clamping, row virtualization and layered background
//! resolution.
//!
//! The tree is rebuilt from scratch every frame out of strictly nested
//! builder calls; the only cross-frame continuity is each node's id, a pure
//! function of its declaration path. The constraint solver and the
//! rendering surface are outside collaborators: the solver's rectangles
//! come in as plain values, and painting leaves as a plan of paint intents
//! the host replays.

pub mod bg;
pub mod frame;
pub mod geom;
pub mod ids;
pub mod interact;
pub mod measure;
pub mod style;
pub mod tree;
pub mod virt;
