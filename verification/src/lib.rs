//! A decoder for PMX models: the bytes of a model file in, the model out.
//!
//! [`read`] decodes a whole model. [`format`] says, as functions on
//! sequences of bytes, what each part of a file decodes to; [`Reader`] is
//! the decoder, proved to compute exactly that. Numbers that the format
//! stores as IEEE 754 binary32 are kept by their bit patterns
//! ([`Binary32`]).

pub mod error;
pub mod format;
pub mod laws;
pub mod model;
pub mod morph;
pub mod reader;
pub mod rigid;
pub mod step;
pub mod text;
pub mod truncation;
pub mod wire;

pub use crate::error::{Error, IoError};
pub use crate::model::{
    Addition, AngleLimit, Bdef1, Bdef2, Bdef4, Bone, ConnectedTo, DisplayElement, DisplayGroup,
    Encoding, Header, Ik, IkLink, Joint, Layout, LocalPole, Material, ModelInfo, Morph, Panel, Pmx,
    Rigid, Sdef, SphereMode, Toon, Vertex, Weight,
};
pub use crate::reader::{read, Reader};
pub use crate::wire::{Binary32, Vec2, Vec3, Vec4};
