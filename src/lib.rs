//! Decision core of a two-team ball game driven by a physics engine: contact
//! classification, grounding and possession state machines, and shot aiming.
use vstd::prelude::*;

pub mod contact;
pub mod grounding;
pub mod aim;
pub mod possession;

verus! {

/// Team side of a body.
#[derive(Clone, Copy, Debug, PartialEq, Eq, Structural)]
pub enum Side {
    LEFT,
    RIGHT,
}

} // verus!
