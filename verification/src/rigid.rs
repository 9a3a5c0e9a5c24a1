//! The kinds of physics bodies.

use vstd::prelude::*;

verus! {

/// The solid that a physics body collides as.
#[derive(Clone, Copy, Debug, PartialEq, Eq, Structural)]
pub enum Shape {
    Sphere,
    Box,
    Capsule,
}

/// How a physics body is moved.
#[derive(Clone, Copy, Debug, PartialEq, Eq, Structural)]
pub enum Method {
    /// It follows its bone.
    Static,
    /// The simulation moves it.
    Dynamic,
    /// The simulation moves it, and its bone pulls it along.
    DynamicWithBone,
}

} // verus!
