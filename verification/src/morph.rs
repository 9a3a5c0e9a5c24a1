//! What morphs are made of.

use crate::wire::{Vec3, Vec4, Binary32};
use vstd::prelude::*;

verus! {

/// A share of another morph.
#[derive(Clone, Copy, Debug, PartialEq, Eq)]
pub struct Group {
    pub morph: Option<usize>,
    pub ratio: Binary32,
}

/// A displacement of one vertex.
#[derive(Clone, Copy, Debug, PartialEq, Eq)]
pub struct Vertex {
    pub vertex: Option<usize>,
    pub offset: Vec3,
}

/// A displacement and a turn of one bone.
#[derive(Clone, Copy, Debug, PartialEq, Eq)]
pub struct Bone {
    pub bone: Option<usize>,
    pub offset: Vec3,
    pub rotation: Vec4,
}

/// A shift of one vertex in a UV channel.
#[derive(Clone, Copy, Debug, PartialEq, Eq)]
pub struct Uv {
    pub vertex: Option<usize>,
    pub offset: Vec4,
}

/// How a material morph combines its values with the material's.
#[derive(Clone, Copy, Debug, PartialEq, Eq, Structural)]
pub enum MaterialOp {
    Mul,
    Add,
}

/// A change of one material's properties; no material stands for all of them.
#[derive(Clone, Copy, Debug, PartialEq, Eq)]
pub struct Material {
    pub material: Option<usize>,
    pub op: MaterialOp,
    pub diffuse: Vec4,
    pub specular: Vec3,
    pub specular_power: Binary32,
    pub ambient: Vec3,
    pub edge_color: Vec4,
    pub edge_size: Binary32,
    pub texture: Vec4,
    pub sphere: Vec4,
    pub toon: Vec4,
}

/// What a morph changes.
#[derive(Clone, Debug, PartialEq, Eq)]
pub enum Kind {
    Group(Vec<Group>),
    Vertex(Vec<Vertex>),
    Bone(Vec<Bone>),
    Uv(Vec<Uv>),
    /// The shifts, with the number (0 to 3) of the additional UV channel.
    ExtendedUv(usize, Vec<Uv>),
    Material(Vec<Material>),
}

/// The mathematical content of a [`Kind`].
pub enum KindView {
    Group(Seq<Group>),
    Vertex(Seq<Vertex>),
    Bone(Seq<Bone>),
    Uv(Seq<Uv>),
    ExtendedUv(usize, Seq<Uv>),
    Material(Seq<Material>),
}

impl KindView {
    /// Whether a channel of additional UV coordinates, where one is named,
    /// is one of the four that there are.
    pub open spec fn wf(self) -> bool {
        self matches KindView::ExtendedUv(channel, _) ==> channel <= 3
    }
}

impl View for Kind {
    type V = KindView;

    open spec fn view(&self) -> KindView {
        match *self {
            Kind::Group(items) => KindView::Group(items@),
            Kind::Vertex(items) => KindView::Vertex(items@),
            Kind::Bone(items) => KindView::Bone(items@),
            Kind::Uv(items) => KindView::Uv(items@),
            Kind::ExtendedUv(channel, items) => KindView::ExtendedUv(channel, items@),
            Kind::Material(items) => KindView::Material(items@),
        }
    }
}

} // verus!
