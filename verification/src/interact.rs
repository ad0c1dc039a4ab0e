//! Interaction sensing policies for background-drawing nodes.
//!
//! Hit-testing itself belongs to the host rendering surface; the policies
//! here decide, per node, whether the node's final rectangle is hit-tested
//! at all, which senses it captures, and whether the captured response is
//! exposed to the caller. The host performs exactly what the returned
//! request says.

use vstd::prelude::*;

verus! {

/// What a node asks the host's input layer to do over its final rectangle.
#[derive(Clone, Copy, PartialEq, Eq, Structural, Debug)]
pub struct InteractRequest {
    /// Hit-test the rectangle at all.
    pub hit_test: bool,
    /// Capture clicks.
    pub sense_click: bool,
    /// Capture drags.
    pub sense_drag: bool,
    /// Hand the captured response back to the caller.
    pub expose_response: bool,
}

/// A pluggable interaction policy.
pub trait InteractiveWidget {
    /// The request this policy stands for.
    spec fn policy() -> InteractRequest;

    /// Produce the interaction request the host must perform.
    fn create() -> (r: InteractRequest)
        ensures
            r == Self::policy(),
    ;
}

/// No hit-testing at all: the background is purely visual and input passes
/// through it.
pub struct InteractTransparent;

impl InteractiveWidget for InteractTransparent {
    open spec fn policy() -> InteractRequest {
        InteractRequest {
            hit_test: false,
            sense_click: false,
            sense_drag: false,
            expose_response: false,
        }
    }

    fn create() -> (r: InteractRequest) {
        InteractRequest {
            hit_test: false,
            sense_click: false,
            sense_drag: false,
            expose_response: false,
        }
    }
}

/// Hit-tests and consumes clicks and drags, but exposes no response: a
/// visual region that blocks input from reaching what lies beneath it.
pub struct InteractOpaque;

impl InteractiveWidget for InteractOpaque {
    open spec fn policy() -> InteractRequest {
        InteractRequest {
            hit_test: true,
            sense_click: true,
            sense_drag: true,
            expose_response: false,
        }
    }

    fn create() -> (r: InteractRequest) {
        InteractRequest {
            hit_test: true,
            sense_click: true,
            sense_drag: true,
            expose_response: false,
        }
    }
}

/// Hit-tests clicks and returns the response to the caller for click and
/// hover handling.
pub struct Interact;

impl InteractiveWidget for Interact {
    open spec fn policy() -> InteractRequest {
        InteractRequest {
            hit_test: true,
            sense_click: true,
            sense_drag: false,
            expose_response: true,
        }
    }

    fn create() -> (r: InteractRequest) {
        InteractRequest {
            hit_test: true,
            sense_click: true,
            sense_drag: false,
            expose_response: true,
        }
    }
}

/// The three policies cover the closed set of behaviors: transparent
/// senses nothing, opaque senses but exposes nothing, and only the sensing
/// policy exposes a response — and never without hit-testing first.
pub proof fn lemma_interact_policies()
    ensures
        !InteractTransparent::policy().hit_test,
        !InteractTransparent::policy().expose_response,
        InteractOpaque::policy().hit_test,
        !InteractOpaque::policy().expose_response,
        Interact::policy().hit_test,
        Interact::policy().expose_response,
        forall|r: InteractRequest|
            (r == InteractTransparent::policy() || r == InteractOpaque::policy() || r
                == Interact::policy()) && #[trigger] r.expose_response ==> r.hit_test,
{
}

} // verus!
