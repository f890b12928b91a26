//! A small reverse-mode automatic-differentiation engine.
//!
//! The computation graph is held in an arena ([`tensor::Graph`]): every node is
//! addressed by its index, and each node records which operation produced it
//! and from which earlier nodes. The library decides the shape of every node,
//! refuses nothing that the array backend would accept, and computes the exact
//! order in which backward rules run during propagation.
use vstd::prelude::*;

pub mod nn;
pub mod tensor;

verus! {

} // verus!
