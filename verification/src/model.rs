//! The model: what a file holds, once decoded.
//!
//! A type that owns texts or lists has a view that holds them as sequences;
//! the contracts of the decoders speak of the views.

use crate::morph::{Kind, KindView};
use crate::rigid::{Method, Shape};
use crate::wire::{Binary32, Vec2, Vec3, Vec4};
use vstd::prelude::*;

verus! {

/// How the input spells its texts.
#[derive(Clone, Copy, Debug, PartialEq, Eq, Structural)]
pub enum Encoding {
    Utf16,
    Utf8,
}

/// What the head of the input says of the rest.
#[derive(Clone, Copy, Debug, PartialEq, Eq)]
pub struct Header {
    pub version: Binary32,
    pub encoding: Encoding,
    /// How many additional UV channels each vertex carries.
    pub extended_uv: u8,
    pub vertex_index_size: u8,
    pub texture_index_size: u8,
    pub material_index_size: u8,
    pub bone_index_size: u8,
    pub morph_index_size: u8,
    pub rigid_index_size: u8,
}

/// What a decoder has to know of the input to read a record: the part of a
/// [`Header`] that shapes the bytes after it.
#[derive(Clone, Copy, Debug, PartialEq, Eq)]
pub struct Layout {
    pub encoding: Encoding,
    pub extended_uv: u8,
    pub vertex: u8,
    pub texture: u8,
    pub material: u8,
    pub bone: u8,
    pub morph: u8,
    pub rigid: u8,
}

/// Whether a reference may take `width` bytes.
pub open spec fn index_width(width: u8) -> bool {
    width == 1 || width == 2 || width == 4
}

impl Layout {
    pub open spec fn spec_initial() -> Layout {
        Layout {
            encoding: Encoding::Utf16,
            extended_uv: 0,
            vertex: 0,
            texture: 0,
            material: 0,
            bone: 0,
            morph: 0,
            rigid: 0,
        }
    }

    /// The layout that is taken for granted before a header is read: UTF-16
    /// texts, no additional UV channels, and no width set for any reference.
    #[verifier::when_used_as_spec(spec_initial)]
    pub fn initial() -> (layout: Layout)
        ensures
            layout == Layout::spec_initial(),
    {
        Layout {
            encoding: Encoding::Utf16,
            extended_uv: 0,
            vertex: 0,
            texture: 0,
            material: 0,
            bone: 0,
            morph: 0,
            rigid: 0,
        }
    }

    /// Whether every kind of reference has a width that the format allows.
    pub open spec fn valid(self) -> bool {
        &&& index_width(self.vertex)
        &&& index_width(self.texture)
        &&& index_width(self.material)
        &&& index_width(self.bone)
        &&& index_width(self.morph)
        &&& index_width(self.rigid)
    }
}

impl Header {
    pub open spec fn spec_layout(self) -> Layout {
        Layout {
            encoding: self.encoding,
            extended_uv: self.extended_uv,
            vertex: self.vertex_index_size,
            texture: self.texture_index_size,
            material: self.material_index_size,
            bone: self.bone_index_size,
            morph: self.morph_index_size,
            rigid: self.rigid_index_size,
        }
    }

    /// The layout that this header lays down.
    #[verifier::when_used_as_spec(spec_layout)]
    pub fn layout(self) -> (layout: Layout)
        ensures
            layout == self.spec_layout(),
    {
        Layout {
            encoding: self.encoding,
            extended_uv: self.extended_uv,
            vertex: self.vertex_index_size,
            texture: self.texture_index_size,
            material: self.material_index_size,
            bone: self.bone_index_size,
            morph: self.morph_index_size,
            rigid: self.rigid_index_size,
        }
    }
}

/// The model's names and comments.
#[derive(Clone, Debug, PartialEq, Eq)]
pub struct ModelInfo {
    pub name: String,
    pub name_en: String,
    pub comment: String,
    pub comment_en: String,
}

pub struct ModelInfoView {
    pub name: Seq<char>,
    pub name_en: Seq<char>,
    pub comment: Seq<char>,
    pub comment_en: Seq<char>,
}

impl View for ModelInfo {
    type V = ModelInfoView;

    open spec fn view(&self) -> ModelInfoView {
        ModelInfoView {
            name: self.name@,
            name_en: self.name_en@,
            comment: self.comment@,
            comment_en: self.comment_en@,
        }
    }
}

/// A vertex bound to one bone.
#[derive(Clone, Copy, Debug, PartialEq, Eq)]
pub struct Bdef1 {
    pub bone: Option<usize>,
}

/// A vertex bound to two bones; `weight` is the share of the first.
#[derive(Clone, Copy, Debug, PartialEq, Eq)]
pub struct Bdef2 {
    pub bones: [Option<usize>; 2],
    pub weight: Binary32,
}

/// A vertex bound to four bones, each with its share.
#[derive(Clone, Copy, Debug, PartialEq, Eq)]
pub struct Bdef4 {
    pub bones: [Option<usize>; 4],
    pub weights: Vec4,
}

/// A vertex bound to two bones by spherical deformation.
#[derive(Clone, Copy, Debug, PartialEq, Eq)]
pub struct Sdef {
    pub bones: [Option<usize>; 2],
    pub weight: Binary32,
    pub c: Vec3,
    pub r0: Vec3,
    pub r1: Vec3,
}

/// How a vertex follows the skeleton.
#[derive(Clone, Copy, Debug, PartialEq, Eq)]
pub enum Weight {
    Bdef1(Bdef1),
    Bdef2(Bdef2),
    Bdef4(Bdef4),
    Sdef(Sdef),
}

#[derive(Clone, Debug, PartialEq, Eq)]
pub struct Vertex {
    pub position: Vec3,
    pub normal: Vec3,
    pub uv: Vec2,
    pub extended_uv: Vec<Vec4>,
    pub weight: Weight,
    pub edge_ratio: Binary32,
}

pub struct VertexView {
    pub position: Vec3,
    pub normal: Vec3,
    pub uv: Vec2,
    pub extended_uv: Seq<Vec4>,
    pub weight: Weight,
    pub edge_ratio: Binary32,
}

impl View for Vertex {
    type V = VertexView;

    open spec fn view(&self) -> VertexView {
        VertexView {
            position: self.position,
            normal: self.normal,
            uv: self.uv,
            extended_uv: self.extended_uv@,
            weight: self.weight,
            edge_ratio: self.edge_ratio,
        }
    }
}

/// How a sphere map is laid over a material.
#[derive(Clone, Copy, Debug, PartialEq, Eq, Structural)]
pub enum SphereMode {
    /// No sphere map is laid over it.
    Off,
    Mul,
    Add,
    SubTexture,
}

/// Where a material takes its toon shading from.
#[derive(Clone, Copy, Debug, PartialEq, Eq)]
pub enum Toon {
    /// One of the model's textures.
    Texture(Option<usize>),
    /// One of the toons that every viewer ships, by its number.
    Shared(usize),
}

#[derive(Clone, Debug, PartialEq, Eq)]
pub struct Material {
    pub name: String,
    pub name_en: String,
    pub diffuse: Vec4,
    pub specular: Vec3,
    pub specular_power: Binary32,
    pub ambient: Vec3,
    pub both: bool,
    pub ground_shadow: bool,
    pub self_shadow_map: bool,
    pub self_shadow: bool,
    pub edge: bool,
    pub vertex_color: bool,
    pub point_draw: bool,
    pub line_draw: bool,
    pub edge_color: Vec4,
    pub edge_size: Binary32,
    pub texture: Option<usize>,
    pub sphere: Option<usize>,
    pub sphere_mode: SphereMode,
    pub toon: Toon,
    pub memo: String,
    /// How many entries of the face list this material covers: a multiple of 3.
    pub index_count: u32,
}

pub struct MaterialView {
    pub name: Seq<char>,
    pub name_en: Seq<char>,
    pub diffuse: Vec4,
    pub specular: Vec3,
    pub specular_power: Binary32,
    pub ambient: Vec3,
    pub both: bool,
    pub ground_shadow: bool,
    pub self_shadow_map: bool,
    pub self_shadow: bool,
    pub edge: bool,
    pub vertex_color: bool,
    pub point_draw: bool,
    pub line_draw: bool,
    pub edge_color: Vec4,
    pub edge_size: Binary32,
    pub texture: Option<usize>,
    pub sphere: Option<usize>,
    pub sphere_mode: SphereMode,
    pub toon: Toon,
    pub memo: Seq<char>,
    pub index_count: u32,
}

impl View for Material {
    type V = MaterialView;

    open spec fn view(&self) -> MaterialView {
        MaterialView {
            name: self.name@,
            name_en: self.name_en@,
            diffuse: self.diffuse,
            specular: self.specular,
            specular_power: self.specular_power,
            ambient: self.ambient,
            both: self.both,
            ground_shadow: self.ground_shadow,
            self_shadow_map: self.self_shadow_map,
            self_shadow: self.self_shadow,
            edge: self.edge,
            vertex_color: self.vertex_color,
            point_draw: self.point_draw,
            line_draw: self.line_draw,
            edge_color: self.edge_color,
            edge_size: self.edge_size,
            texture: self.texture,
            sphere: self.sphere,
            sphere_mode: self.sphere_mode,
            toon: self.toon,
            memo: self.memo@,
            index_count: self.index_count,
        }
    }
}

/// Where a bone's tip points.
#[derive(Clone, Copy, Debug, PartialEq, Eq)]
pub enum ConnectedTo {
    /// To a point, given from the bone's own position.
    Offset(Vec3),
    /// To another bone.
    Bone(Option<usize>),
}

/// What a bone takes over from another bone.
#[derive(Clone, Copy, Debug, PartialEq, Eq)]
pub struct Addition {
    pub rotation: bool,
    pub translation: bool,
    pub local: bool,
    pub bone: Option<usize>,
    pub ratio: Binary32,
}

/// A bone's own axes.
#[derive(Clone, Copy, Debug, PartialEq, Eq)]
pub struct LocalPole {
    pub x: Vec3,
    pub z: Vec3,
}

/// A lower and an upper bound, axis by axis.
#[derive(Clone, Copy, Debug, PartialEq, Eq)]
pub struct AngleLimit {
    pub lower: Vec3,
    pub upper: Vec3,
}

/// One bone of an IK chain.
#[derive(Clone, Copy, Debug, PartialEq, Eq)]
pub struct IkLink {
    pub bone: Option<usize>,
    pub limits: Option<AngleLimit>,
}

/// What an IK solver needs to know of a bone.
#[derive(Clone, Debug, PartialEq, Eq)]
pub struct Ik {
    pub bone: Option<usize>,
    pub loop_count: u32,
    pub angle: Binary32,
    pub links: Vec<IkLink>,
}

pub struct IkView {
    pub bone: Option<usize>,
    pub loop_count: u32,
    pub angle: Binary32,
    pub links: Seq<IkLink>,
}

impl View for Ik {
    type V = IkView;

    open spec fn view(&self) -> IkView {
        IkView {
            bone: self.bone,
            loop_count: self.loop_count,
            angle: self.angle,
            links: self.links@,
        }
    }
}

#[derive(Clone, Debug, PartialEq, Eq)]
pub struct Bone {
    pub name: String,
    pub name_en: String,
    pub position: Vec3,
    pub parent: Option<usize>,
    pub deform_hierarchy: i32,
    pub connected_to: ConnectedTo,
    pub rotatable: bool,
    pub translatable: bool,
    pub visibility: bool,
    pub operable: bool,
    pub ik: Option<Ik>,
    pub addition: Option<Addition>,
    pub after_physics: bool,
    pub fixed_pole: Option<Vec3>,
    pub local_pole: Option<LocalPole>,
    pub external_parent: Option<usize>,
}

pub struct BoneView {
    pub name: Seq<char>,
    pub name_en: Seq<char>,
    pub position: Vec3,
    pub parent: Option<usize>,
    pub deform_hierarchy: i32,
    pub connected_to: ConnectedTo,
    pub rotatable: bool,
    pub translatable: bool,
    pub visibility: bool,
    pub operable: bool,
    pub ik: Option<IkView>,
    pub addition: Option<Addition>,
    pub after_physics: bool,
    pub fixed_pole: Option<Vec3>,
    pub local_pole: Option<LocalPole>,
    pub external_parent: Option<usize>,
}

impl View for Bone {
    type V = BoneView;

    open spec fn view(&self) -> BoneView {
        BoneView {
            name: self.name@,
            name_en: self.name_en@,
            position: self.position,
            parent: self.parent,
            deform_hierarchy: self.deform_hierarchy,
            connected_to: self.connected_to,
            rotatable: self.rotatable,
            translatable: self.translatable,
            visibility: self.visibility,
            operable: self.operable,
            ik: match self.ik {
                Some(ik) => Some(ik@),
                None => None,
            },
            addition: self.addition,
            after_physics: self.after_physics,
            fixed_pole: self.fixed_pole,
            local_pole: self.local_pole,
            external_parent: self.external_parent,
        }
    }
}

/// The part of the face that a morph is listed under.
#[derive(Clone, Copy, Debug, PartialEq, Eq, Structural)]
pub enum Panel {
    Reserved,
    Eyebrow,
    Eye,
    Mouth,
    Other,
}

#[derive(Clone, Debug, PartialEq, Eq)]
pub struct Morph {
    pub name: String,
    pub name_en: String,
    pub panel: Panel,
    pub kind: Kind,
}

pub struct MorphView {
    pub name: Seq<char>,
    pub name_en: Seq<char>,
    pub panel: Panel,
    pub kind: KindView,
}

impl View for Morph {
    type V = MorphView;

    open spec fn view(&self) -> MorphView {
        MorphView { name: self.name@, name_en: self.name_en@, panel: self.panel, kind: self.kind@ }
    }
}

/// What a display group lists.
#[derive(Clone, Copy, Debug, PartialEq, Eq)]
pub enum DisplayElement {
    Bone(Option<usize>),
    Morph(Option<usize>),
}

#[derive(Clone, Debug, PartialEq, Eq)]
pub struct DisplayGroup {
    pub name: String,
    pub name_en: String,
    pub special: bool,
    pub elements: Vec<DisplayElement>,
}

pub struct DisplayGroupView {
    pub name: Seq<char>,
    pub name_en: Seq<char>,
    pub special: bool,
    pub elements: Seq<DisplayElement>,
}

impl View for DisplayGroup {
    type V = DisplayGroupView;

    open spec fn view(&self) -> DisplayGroupView {
        DisplayGroupView {
            name: self.name@,
            name_en: self.name_en@,
            special: self.special,
            elements: self.elements@,
        }
    }
}

/// A physics body.
#[derive(Clone, Debug, PartialEq, Eq)]
pub struct Rigid {
    pub name: String,
    pub name_en: String,
    pub bone: Option<usize>,
    pub group: u8,
    pub non_collision_groups: u16,
    pub shape: Shape,
    pub size: Vec3,
    pub position: Vec3,
    pub rotation: Vec3,
    pub mass: Binary32,
    pub dump_translation: Binary32,
    pub dump_rotation: Binary32,
    pub repulsive: Binary32,
    pub friction: Binary32,
    pub method: Method,
}

pub struct RigidView {
    pub name: Seq<char>,
    pub name_en: Seq<char>,
    pub bone: Option<usize>,
    pub group: u8,
    pub non_collision_groups: u16,
    pub shape: Shape,
    pub size: Vec3,
    pub position: Vec3,
    pub rotation: Vec3,
    pub mass: Binary32,
    pub dump_translation: Binary32,
    pub dump_rotation: Binary32,
    pub repulsive: Binary32,
    pub friction: Binary32,
    pub method: Method,
}

impl View for Rigid {
    type V = RigidView;

    open spec fn view(&self) -> RigidView {
        RigidView {
            name: self.name@,
            name_en: self.name_en@,
            bone: self.bone,
            group: self.group,
            non_collision_groups: self.non_collision_groups,
            shape: self.shape,
            size: self.size,
            position: self.position,
            rotation: self.rotation,
            mass: self.mass,
            dump_translation: self.dump_translation,
            dump_rotation: self.dump_rotation,
            repulsive: self.repulsive,
            friction: self.friction,
            method: self.method,
        }
    }
}

/// A spring between two physics bodies.
#[derive(Clone, Debug, PartialEq, Eq)]
pub struct Joint {
    pub name: String,
    pub name_en: String,
    pub rigids: [Option<usize>; 2],
    pub position: Vec3,
    pub rotation: Vec3,
    pub limit_translation: AngleLimit,
    pub limit_rotation: AngleLimit,
    pub spring_translation: Vec3,
    pub spring_rotation: Vec3,
}

pub struct JointView {
    pub name: Seq<char>,
    pub name_en: Seq<char>,
    pub rigids: [Option<usize>; 2],
    pub position: Vec3,
    pub rotation: Vec3,
    pub limit_translation: AngleLimit,
    pub limit_rotation: AngleLimit,
    pub spring_translation: Vec3,
    pub spring_rotation: Vec3,
}

impl View for Joint {
    type V = JointView;

    open spec fn view(&self) -> JointView {
        JointView {
            name: self.name@,
            name_en: self.name_en@,
            rigids: self.rigids,
            position: self.position,
            rotation: self.rotation,
            limit_translation: self.limit_translation,
            limit_rotation: self.limit_rotation,
            spring_translation: self.spring_translation,
            spring_rotation: self.spring_rotation,
        }
    }
}

/// The views of the items of a sequence, in order.
pub open spec fn views<T: View>(items: Seq<T>) -> Seq<T::V> {
    Seq::new(items.len(), |i: int| items[i]@)
}

/// A whole model.
#[derive(Clone, Debug, PartialEq, Eq)]
pub struct Pmx {
    pub header: Header,
    pub model_info: ModelInfo,
    pub vertices: Vec<Vertex>,
    /// References to vertices; every three in a row are one triangle.
    pub faces: Vec<u32>,
    /// The paths of the texture files.
    pub textures: Vec<String>,
    pub materials: Vec<Material>,
    pub bones: Vec<Bone>,
    pub morphs: Vec<Morph>,
    pub display_groups: Vec<DisplayGroup>,
    pub rigids: Vec<Rigid>,
    pub joints: Vec<Joint>,
}

pub struct PmxView {
    pub header: Header,
    pub model_info: ModelInfoView,
    pub vertices: Seq<VertexView>,
    pub faces: Seq<u32>,
    pub textures: Seq<Seq<char>>,
    pub materials: Seq<MaterialView>,
    pub bones: Seq<BoneView>,
    pub morphs: Seq<MorphView>,
    pub display_groups: Seq<DisplayGroupView>,
    pub rigids: Seq<RigidView>,
    pub joints: Seq<JointView>,
}

impl PmxView {
    /// What holds of every model that was decoded: the widths of the
    /// references are among those that the format allows, every vertex has
    /// as many additional UV channels as the header says, every material
    /// covers whole triangles, and a morph of additional UV coordinates names
    /// one of the four channels.
    pub open spec fn wf(self) -> bool {
        &&& self.header.layout().valid()
        &&& forall|i: int|
            0 <= i < self.vertices.len() ==> (#[trigger] self.vertices[i]).extended_uv.len()
                == self.header.extended_uv
        &&& forall|i: int|
            0 <= i < self.materials.len() ==> (#[trigger] self.materials[i]).index_count % 3 == 0
        &&& forall|i: int| 0 <= i < self.morphs.len() ==> (#[trigger] self.morphs[i]).kind.wf()
    }
}

impl View for Pmx {
    type V = PmxView;

    open spec fn view(&self) -> PmxView {
        PmxView {
            header: self.header,
            model_info: self.model_info@,
            vertices: views(self.vertices@),
            faces: self.faces@,
            textures: views(self.textures@),
            materials: views(self.materials@),
            bones: views(self.bones@),
            morphs: views(self.morphs@),
            display_groups: views(self.display_groups@),
            rigids: views(self.rigids@),
            joints: views(self.joints@),
        }
    }
}

} // verus!
