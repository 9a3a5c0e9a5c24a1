//! The format: what stands at a place in an input, part by part.
//!
//! Each function here takes a [`Cursor`] and gives the [`Step`] that decoding
//! one part from there amounts to. A record is its fields in a row, each read
//! from where the one before it ended; the first field that fails ends the
//! record.

use crate::error::Error;
use crate::model::{
    index_width, Addition, AngleLimit, Bdef1, Bdef2, Bdef4, BoneView, ConnectedTo, DisplayElement,
    DisplayGroupView, Encoding, Header, IkLink, IkView, JointView, Layout, LocalPole,
    MaterialView, ModelInfoView, MorphView, Panel, PmxView, RigidView, Sdef, SphereMode, Toon,
    VertexView, Weight,
};
use crate::morph::{Bone, Group, KindView, Material, MaterialOp, Uv, Vertex};
use crate::rigid::{Method, Shape};
use crate::step::{
    bin_at, binary32_at, bone_index_at, i32_at, material_index_at, morph_index_at, repeat,
    rigid_index_at, text_at, texture_index_at, u16_at, u32_at, u8_at, vec2_at, vec3_at, vec4_at,
    vertex_index_at, Cursor, Step,
};
use crate::wire::{Vec3, Vec4};
use vstd::prelude::*;

verus! {

/// The four bytes that every input starts with: `PMX` and a space.
pub open spec fn magic() -> Seq<u8> {
    seq![0x50u8, 0x4d, 0x58, 0x20]
}

/// How many bytes of settings a header announces.
pub const HEADER_SETTINGS: u8 = 8;

/// Whether every bit of `mask` is set in the flag byte of a material.
pub open spec fn has_bit(flags: u8, mask: u8) -> bool {
    flags & mask == mask
}

/// Whether every bit of `mask` is set in the flag word of a bone.
pub open spec fn has_flag(flags: u16, mask: u16) -> bool {
    flags & mask == mask
}

/// The bits of the flag byte of a material, one for each of its switches.
pub const BOTH: u8 = 0x01;

pub const GROUND_SHADOW: u8 = 0x02;

pub const SELF_SHADOW_MAP: u8 = 0x04;

pub const SELF_SHADOW: u8 = 0x08;

pub const EDGE: u8 = 0x10;

pub const VERTEX_COLOR: u8 = 0x20;

pub const POINT_DRAW: u8 = 0x40;

pub const LINE_DRAW: u8 = 0x80;

/// The bits of the flag word of a bone. `CONNECTED` says that the tip points
/// to a bone; `IK`, `ADD_ROTATION`, `ADD_TRANSLATION`, `FIXED_POLE`,
/// `LOCAL_POLE` and `EXTERNAL_PARENT` each announce a part that follows the
/// word; the others are switches.
pub const CONNECTED: u16 = 0x0001;

pub const ROTATABLE: u16 = 0x0002;

pub const TRANSLATABLE: u16 = 0x0004;

pub const VISIBLE: u16 = 0x0008;

pub const OPERABLE: u16 = 0x0010;

pub const IK: u16 = 0x0020;

pub const LOCAL_ADDITION: u16 = 0x0080;

pub const ADD_ROTATION: u16 = 0x0100;

pub const ADD_TRANSLATION: u16 = 0x0200;

pub const FIXED_POLE: u16 = 0x0400;

pub const LOCAL_POLE: u16 = 0x0800;

pub const AFTER_PHYSICS: u16 = 0x1000;

pub const EXTERNAL_PARENT: u16 = 0x2000;

/// `step` where it is `present`; else nothing, made of no byte at all.
pub open spec fn optional<T>(present: bool, step: Step<T>, pos: int) -> Step<Option<T>> {
    if present {
        step.with(Some(step.value()))
    } else {
        Step::done(None, pos)
    }
}

/// What a bone holds behind its flag word.
pub struct BoneParts {
    pub connected_to: ConnectedTo,
    pub addition: Option<Addition>,
    pub fixed_pole: Option<Vec3>,
    pub local_pole: Option<LocalPole>,
    pub external_parent: Option<usize>,
    pub ik: Option<IkView>,
}

/// As many items as a 32-bit count before them says.
pub open spec fn counted<T>(c: Cursor, item: spec_fn(Cursor) -> Step<T>) -> Step<Seq<T>> {
    let count = u32_at(c);
    repeat(item, c.at(count.next), count.value() as nat).after(count)
}

#[verifier::opaque]
pub open spec fn encoding_at(c: Cursor) -> Step<Encoding> {
    let tag = u8_at(c);
    let tag = tag.check(tag.value() <= 1, "header::encoding");
    tag.with(
        if tag.value() == 0 {
            Encoding::Utf16
        } else {
            Encoding::Utf8
        },
    )
}

/// The width of one kind of reference: 1, 2 or 4.
#[verifier::opaque]
pub open spec fn index_size_at(c: Cursor) -> Step<u8> {
    let size = u8_at(c);
    size.check(index_width(size.value()), "read_index_size")
}

#[verifier::opaque]
pub open spec fn header_at(c: Cursor) -> Step<Header> {
    let tag = bin_at(c, 4);
    let tag = tag.check(tag.value() == magic(), "magic number");
    let version = binary32_at(c.at(tag.next)).after(tag);
    let settings = u8_at(c.at(version.next)).after(version);
    let settings = settings.check(settings.value() == HEADER_SETTINGS, "header::bytes");
    let encoding = encoding_at(c.at(settings.next)).after(settings);
    let extended_uv = u8_at(c.at(encoding.next)).after(encoding);
    let vertex = index_size_at(c.at(extended_uv.next)).after(extended_uv);
    let texture = index_size_at(c.at(vertex.next)).after(vertex);
    let material = index_size_at(c.at(texture.next)).after(texture);
    let bone = index_size_at(c.at(material.next)).after(material);
    let morph = index_size_at(c.at(bone.next)).after(bone);
    let rigid = index_size_at(c.at(morph.next)).after(morph);
    rigid.with(
        Header {
            version: version.value(),
            encoding: encoding.value(),
            extended_uv: extended_uv.value(),
            vertex_index_size: vertex.value(),
            texture_index_size: texture.value(),
            material_index_size: material.value(),
            bone_index_size: bone.value(),
            morph_index_size: morph.value(),
            rigid_index_size: rigid.value(),
        },
    )
}

#[verifier::opaque]
pub open spec fn model_info_at(c: Cursor) -> Step<ModelInfoView> {
    let name = text_at(c);
    let name_en = text_at(c.at(name.next)).after(name);
    let comment = text_at(c.at(name_en.next)).after(name_en);
    let comment_en = text_at(c.at(comment.next)).after(comment);
    comment_en.with(
        ModelInfoView {
            name: name.value(),
            name_en: name_en.value(),
            comment: comment.value(),
            comment_en: comment_en.value(),
        },
    )
}

#[verifier::opaque]
pub open spec fn bdef1_at(c: Cursor) -> Step<Weight> {
    let bone = bone_index_at(c);
    bone.with(Weight::Bdef1(Bdef1 { bone: bone.value() }))
}

#[verifier::opaque]
pub open spec fn bdef2_at(c: Cursor) -> Step<Weight> {
    let first = bone_index_at(c);
    let second = bone_index_at(c.at(first.next)).after(first);
    let weight = binary32_at(c.at(second.next)).after(second);
    weight.with(
        Weight::Bdef2(Bdef2 { bones: [first.value(), second.value()], weight: weight.value() }),
    )
}

#[verifier::opaque]
pub open spec fn bdef4_at(c: Cursor) -> Step<Weight> {
    let first = bone_index_at(c);
    let second = bone_index_at(c.at(first.next)).after(first);
    let third = bone_index_at(c.at(second.next)).after(second);
    let fourth = bone_index_at(c.at(third.next)).after(third);
    let weights = vec4_at(c.at(fourth.next)).after(fourth);
    weights.with(
        Weight::Bdef4(
            Bdef4 {
                bones: [first.value(), second.value(), third.value(), fourth.value()],
                weights: weights.value(),
            },
        ),
    )
}

#[verifier::opaque]
pub open spec fn sdef_at(c: Cursor) -> Step<Weight> {
    let first = bone_index_at(c);
    let second = bone_index_at(c.at(first.next)).after(first);
    let weight = binary32_at(c.at(second.next)).after(second);
    let center = vec3_at(c.at(weight.next)).after(weight);
    let r0 = vec3_at(c.at(center.next)).after(center);
    let r1 = vec3_at(c.at(r0.next)).after(r0);
    r1.with(
        Weight::Sdef(
            Sdef {
                bones: [first.value(), second.value()],
                weight: weight.value(),
                c: center.value(),
                r0: r0.value(),
                r1: r1.value(),
            },
        ),
    )
}

/// A tag byte from 0 to 3, then the weight of the kind that the tag names.
#[verifier::opaque]
pub open spec fn weight_at(c: Cursor) -> Step<Weight> {
    let tag = u8_at(c);
    let tag = tag.check(tag.value() <= 3, "vertex::weight");
    let body = c.at(tag.next);
    (if tag.value() == 0 {
        bdef1_at(body)
    } else if tag.value() == 1 {
        bdef2_at(body)
    } else if tag.value() == 2 {
        bdef4_at(body)
    } else {
        sdef_at(body)
    }).after(tag)
}

pub open spec fn vec4_items() -> spec_fn(Cursor) -> Step<Vec4> {
    |c: Cursor| vec4_at(c)
}

#[verifier::opaque]
pub open spec fn vertex_at(c: Cursor) -> Step<VertexView> {
    let position = vec3_at(c);
    let normal = vec3_at(c.at(position.next)).after(position);
    let uv = vec2_at(c.at(normal.next)).after(normal);
    let extended_uv = repeat(vec4_items(), c.at(uv.next), c.layout.extended_uv as nat).after(uv);
    let weight = weight_at(c.at(extended_uv.next)).after(extended_uv);
    let edge_ratio = binary32_at(c.at(weight.next)).after(weight);
    edge_ratio.with(
        VertexView {
            position: position.value(),
            normal: normal.value(),
            uv: uv.value(),
            extended_uv: extended_uv.value(),
            weight: weight.value(),
            edge_ratio: edge_ratio.value(),
        },
    )
}

pub open spec fn vertex_items() -> spec_fn(Cursor) -> Step<VertexView> {
    |c: Cursor| vertex_at(c)
}

#[verifier::opaque]
pub open spec fn vertices_at(c: Cursor) -> Step<Seq<VertexView>> {
    counted(c, vertex_items())
}

pub open spec fn u32_items() -> spec_fn(Cursor) -> Step<u32> {
    |c: Cursor| u32_at(c)
}

#[verifier::opaque]
pub open spec fn faces_at(c: Cursor) -> Step<Seq<u32>> {
    counted(c, u32_items())
}

pub open spec fn text_items() -> spec_fn(Cursor) -> Step<Seq<char>> {
    |c: Cursor| text_at(c)
}

#[verifier::opaque]
pub open spec fn textures_at(c: Cursor) -> Step<Seq<Seq<char>>> {
    counted(c, text_items())
}

#[verifier::opaque]
pub open spec fn sphere_mode_at(c: Cursor) -> Step<SphereMode> {
    let tag = u8_at(c);
    let tag = tag.check(tag.value() <= 3, "material::sphere_mode");
    tag.with(
        if tag.value() == 0 {
            SphereMode::Off
        } else if tag.value() == 1 {
            SphereMode::Mul
        } else if tag.value() == 2 {
            SphereMode::Add
        } else {
            SphereMode::SubTexture
        },
    )
}

#[verifier::opaque]
pub open spec fn toon_texture_at(c: Cursor) -> Step<Toon> {
    let texture = texture_index_at(c);
    texture.with(Toon::Texture(texture.value()))
}

#[verifier::opaque]
pub open spec fn toon_shared_at(c: Cursor) -> Step<Toon> {
    let number = u8_at(c);
    number.with(Toon::Shared(number.value() as usize))
}

/// A tag byte, then a reference to a texture after 0 and the number of a
/// shared toon after 1.
#[verifier::opaque]
pub open spec fn toon_at(c: Cursor) -> Step<Toon> {
    let tag = u8_at(c);
    let tag = tag.check(tag.value() <= 1, "material::toon");
    let body = c.at(tag.next);
    (if tag.value() == 0 {
        toon_texture_at(body)
    } else {
        toon_shared_at(body)
    }).after(tag)
}

/// The fields of a material, whatever its index count.
#[verifier::opaque]
pub open spec fn material_fields_at(c: Cursor) -> Step<MaterialView> {
    let name = text_at(c);
    let name_en = text_at(c.at(name.next)).after(name);
    let diffuse = vec4_at(c.at(name_en.next)).after(name_en);
    let specular = vec3_at(c.at(diffuse.next)).after(diffuse);
    let specular_power = binary32_at(c.at(specular.next)).after(specular);
    let ambient = vec3_at(c.at(specular_power.next)).after(specular_power);
    let flags = u8_at(c.at(ambient.next)).after(ambient);
    let edge_color = vec4_at(c.at(flags.next)).after(flags);
    let edge_size = binary32_at(c.at(edge_color.next)).after(edge_color);
    let texture = texture_index_at(c.at(edge_size.next)).after(edge_size);
    let sphere = texture_index_at(c.at(texture.next)).after(texture);
    let sphere_mode = sphere_mode_at(c.at(sphere.next)).after(sphere);
    let toon = toon_at(c.at(sphere_mode.next)).after(sphere_mode);
    let memo = text_at(c.at(toon.next)).after(toon);
    let index_count = u32_at(c.at(memo.next)).after(memo);
    index_count.with(
        MaterialView {
            name: name.value(),
            name_en: name_en.value(),
            diffuse: diffuse.value(),
            specular: specular.value(),
            specular_power: specular_power.value(),
            ambient: ambient.value(),
            both: has_bit(flags.value(), BOTH),
            ground_shadow: has_bit(flags.value(), GROUND_SHADOW),
            self_shadow_map: has_bit(flags.value(), SELF_SHADOW_MAP),
            self_shadow: has_bit(flags.value(), SELF_SHADOW),
            edge: has_bit(flags.value(), EDGE),
            vertex_color: has_bit(flags.value(), VERTEX_COLOR),
            point_draw: has_bit(flags.value(), POINT_DRAW),
            line_draw: has_bit(flags.value(), LINE_DRAW),
            edge_color: edge_color.value(),
            edge_size: edge_size.value(),
            texture: texture.value(),
            sphere: sphere.value(),
            sphere_mode: sphere_mode.value(),
            toon: toon.value(),
            memo: memo.value(),
            index_count: index_count.value(),
        },
    )
}

/// A material: its fields, refused unless the index count is a multiple of 3.
#[verifier::opaque]
pub open spec fn material_at(c: Cursor) -> Step<MaterialView> {
    let fields = material_fields_at(c);
    fields.check(fields.value().index_count % 3 == 0, "material::index_count")
}

pub open spec fn material_items() -> spec_fn(Cursor) -> Step<MaterialView> {
    |c: Cursor| material_at(c)
}

#[verifier::opaque]
pub open spec fn materials_at(c: Cursor) -> Step<Seq<MaterialView>> {
    counted(c, material_items())
}

/// Where the bone's tip points: a reference to a bone where the flag word
/// says so, else an offset.
#[verifier::opaque]
pub open spec fn connected_to_at(c: Cursor, flags: u16) -> Step<ConnectedTo> {
    if has_flag(flags, CONNECTED) {
        let bone = bone_index_at(c);
        bone.with(ConnectedTo::Bone(bone.value()))
    } else {
        let offset = vec3_at(c);
        offset.with(ConnectedTo::Offset(offset.value()))
    }
}

/// Whether the flag word of a bone announces what the bone takes over from
/// another.
pub open spec fn has_addition(flags: u16) -> bool {
    has_flag(flags, ADD_ROTATION) || has_flag(flags, ADD_TRANSLATION)
}

/// What the bone takes over from another bone: the bone and how much of it.
#[verifier::opaque]
pub open spec fn inherited_at(c: Cursor, flags: u16) -> Step<Addition> {
    let bone = bone_index_at(c);
    let ratio = binary32_at(c.at(bone.next)).after(bone);
    ratio.with(
        Addition {
            rotation: has_flag(flags, ADD_ROTATION),
            translation: has_flag(flags, ADD_TRANSLATION),
            local: has_flag(flags, LOCAL_ADDITION),
            bone: bone.value(),
            ratio: ratio.value(),
        },
    )
}

#[verifier::opaque]
pub open spec fn addition_at(c: Cursor, flags: u16) -> Step<Option<Addition>> {
    optional(has_addition(flags), inherited_at(c, flags), c.pos)
}

#[verifier::opaque]
pub open spec fn fixed_pole_at(c: Cursor, flags: u16) -> Step<Option<Vec3>> {
    optional(has_flag(flags, FIXED_POLE), vec3_at(c), c.pos)
}

#[verifier::opaque]
pub open spec fn axes_at(c: Cursor) -> Step<LocalPole> {
    let x = vec3_at(c);
    let z = vec3_at(c.at(x.next)).after(x);
    z.with(LocalPole { x: x.value(), z: z.value() })
}

#[verifier::opaque]
pub open spec fn local_pole_at(c: Cursor, flags: u16) -> Step<Option<LocalPole>> {
    optional(has_flag(flags, LOCAL_POLE), axes_at(c), c.pos)
}

/// The key of a parent outside the model: a signed 32-bit number where the
/// flag word announces one. A negative key stands for no parent.
#[verifier::opaque]
pub open spec fn external_parent_at(c: Cursor, flags: u16) -> Step<Option<usize>> {
    let key = optional(has_flag(flags, EXTERNAL_PARENT), i32_at(c), c.pos);
    key.with(
        match key.value() {
            Some(key) => if key >= 0 {
                Some(key as usize)
            } else {
                None
            },
            None => None,
        },
    )
}

#[verifier::opaque]
pub open spec fn angle_limit_at(c: Cursor) -> Step<AngleLimit> {
    let lower = vec3_at(c);
    let upper = vec3_at(c.at(lower.next)).after(lower);
    upper.with(AngleLimit { lower: lower.value(), upper: upper.value() })
}

/// A link of an IK chain: a bone, a byte, and after the byte 1 its limits.
#[verifier::opaque]
pub open spec fn ik_link_at(c: Cursor) -> Step<IkLink> {
    let bone = bone_index_at(c);
    let limited = u8_at(c.at(bone.next)).after(bone);
    let limits = optional(limited.value() == 1, angle_limit_at(c.at(limited.next)), limited.next)
        .after(limited);
    limits.with(IkLink { bone: bone.value(), limits: limits.value() })
}

pub open spec fn ik_link_items() -> spec_fn(Cursor) -> Step<IkLink> {
    |c: Cursor| ik_link_at(c)
}

#[verifier::opaque]
pub open spec fn ik_at(c: Cursor) -> Step<IkView> {
    let bone = bone_index_at(c);
    let loop_count = u32_at(c.at(bone.next)).after(bone);
    let angle = binary32_at(c.at(loop_count.next)).after(loop_count);
    let links = counted(c.at(angle.next), ik_link_items()).after(angle);
    links.with(
        IkView {
            bone: bone.value(),
            loop_count: loop_count.value(),
            angle: angle.value(),
            links: links.value(),
        },
    )
}

#[verifier::opaque]
pub open spec fn ik_part_at(c: Cursor, flags: u16) -> Step<Option<IkView>> {
    optional(has_flag(flags, IK), ik_at(c), c.pos)
}

/// What follows the flag word of a bone: where its tip points, and then each
/// part that the flag word announces, in this order. A part that it does not
/// announce takes no byte.
#[verifier::opaque]
pub open spec fn bone_parts_at(c: Cursor, flags: u16) -> Step<BoneParts> {
    let connected_to = connected_to_at(c, flags);
    let addition = addition_at(c.at(connected_to.next), flags).after(connected_to);
    let fixed_pole = fixed_pole_at(c.at(addition.next), flags).after(addition);
    let local_pole = local_pole_at(c.at(fixed_pole.next), flags).after(fixed_pole);
    let external_parent = external_parent_at(c.at(local_pole.next), flags).after(local_pole);
    let ik = ik_part_at(c.at(external_parent.next), flags).after(external_parent);
    ik.with(
        BoneParts {
            connected_to: connected_to.value(),
            addition: addition.value(),
            fixed_pole: fixed_pole.value(),
            local_pole: local_pole.value(),
            external_parent: external_parent.value(),
            ik: ik.value(),
        },
    )
}

/// The flag word of the bone at `c`; it follows the bone's names, position,
/// parent and place in the order of deformation.
#[verifier::opaque]
pub open spec fn bone_flags_at(c: Cursor) -> Step<u16> {
    let name = text_at(c);
    let name_en = text_at(c.at(name.next)).after(name);
    let position = vec3_at(c.at(name_en.next)).after(name_en);
    let parent = bone_index_at(c.at(position.next)).after(position);
    let deform_hierarchy = i32_at(c.at(parent.next)).after(parent);
    u16_at(c.at(deform_hierarchy.next)).after(deform_hierarchy)
}

#[verifier::opaque]
pub open spec fn bone_at(c: Cursor) -> Step<BoneView> {
    let name = text_at(c);
    let name_en = text_at(c.at(name.next)).after(name);
    let position = vec3_at(c.at(name_en.next)).after(name_en);
    let parent = bone_index_at(c.at(position.next)).after(position);
    let deform_hierarchy = i32_at(c.at(parent.next)).after(parent);
    let flags = u16_at(c.at(deform_hierarchy.next)).after(deform_hierarchy);
    let parts = bone_parts_at(c.at(flags.next), flags.value()).after(flags);
    parts.with(
        BoneView {
            name: name.value(),
            name_en: name_en.value(),
            position: position.value(),
            parent: parent.value(),
            deform_hierarchy: deform_hierarchy.value(),
            connected_to: parts.value().connected_to,
            rotatable: has_flag(flags.value(), ROTATABLE),
            translatable: has_flag(flags.value(), TRANSLATABLE),
            visibility: has_flag(flags.value(), VISIBLE),
            operable: has_flag(flags.value(), OPERABLE),
            ik: parts.value().ik,
            addition: parts.value().addition,
            after_physics: has_flag(flags.value(), AFTER_PHYSICS),
            fixed_pole: parts.value().fixed_pole,
            local_pole: parts.value().local_pole,
            external_parent: parts.value().external_parent,
        },
    )
}

pub open spec fn bone_items() -> spec_fn(Cursor) -> Step<BoneView> {
    |c: Cursor| bone_at(c)
}

#[verifier::opaque]
pub open spec fn bones_at(c: Cursor) -> Step<Seq<BoneView>> {
    counted(c, bone_items())
}

#[verifier::opaque]
pub open spec fn panel_at(c: Cursor) -> Step<Panel> {
    let tag = u8_at(c);
    let tag = tag.check(tag.value() <= 4, "morph::panel");
    tag.with(
        if tag.value() == 0 {
            Panel::Reserved
        } else if tag.value() == 1 {
            Panel::Eyebrow
        } else if tag.value() == 2 {
            Panel::Eye
        } else if tag.value() == 3 {
            Panel::Mouth
        } else {
            Panel::Other
        },
    )
}

#[verifier::opaque]
pub open spec fn morph_group_at(c: Cursor) -> Step<Group> {
    let morph = morph_index_at(c);
    let ratio = binary32_at(c.at(morph.next)).after(morph);
    ratio.with(Group { morph: morph.value(), ratio: ratio.value() })
}

#[verifier::opaque]
pub open spec fn morph_vertex_at(c: Cursor) -> Step<Vertex> {
    let vertex = vertex_index_at(c);
    let offset = vec3_at(c.at(vertex.next)).after(vertex);
    offset.with(Vertex { vertex: vertex.value(), offset: offset.value() })
}

#[verifier::opaque]
pub open spec fn morph_bone_at(c: Cursor) -> Step<Bone> {
    let bone = bone_index_at(c);
    let offset = vec3_at(c.at(bone.next)).after(bone);
    let rotation = vec4_at(c.at(offset.next)).after(offset);
    rotation.with(Bone { bone: bone.value(), offset: offset.value(), rotation: rotation.value() })
}

#[verifier::opaque]
pub open spec fn morph_uv_at(c: Cursor) -> Step<Uv> {
    let vertex = vertex_index_at(c);
    let offset = vec4_at(c.at(vertex.next)).after(vertex);
    offset.with(Uv { vertex: vertex.value(), offset: offset.value() })
}

#[verifier::opaque]
pub open spec fn material_op_at(c: Cursor) -> Step<MaterialOp> {
    let tag = u8_at(c);
    let tag = tag.check(tag.value() <= 1, "morph::Material::op");
    tag.with(
        if tag.value() == 0 {
            MaterialOp::Mul
        } else {
            MaterialOp::Add
        },
    )
}

#[verifier::opaque]
pub open spec fn morph_material_at(c: Cursor) -> Step<Material> {
    let material = material_index_at(c);
    let op = material_op_at(c.at(material.next)).after(material);
    let diffuse = vec4_at(c.at(op.next)).after(op);
    let specular = vec3_at(c.at(diffuse.next)).after(diffuse);
    let specular_power = binary32_at(c.at(specular.next)).after(specular);
    let ambient = vec3_at(c.at(specular_power.next)).after(specular_power);
    let edge_color = vec4_at(c.at(ambient.next)).after(ambient);
    let edge_size = binary32_at(c.at(edge_color.next)).after(edge_color);
    let texture = vec4_at(c.at(edge_size.next)).after(edge_size);
    let sphere = vec4_at(c.at(texture.next)).after(texture);
    let toon = vec4_at(c.at(sphere.next)).after(sphere);
    toon.with(
        Material {
            material: material.value(),
            op: op.value(),
            diffuse: diffuse.value(),
            specular: specular.value(),
            specular_power: specular_power.value(),
            ambient: ambient.value(),
            edge_color: edge_color.value(),
            edge_size: edge_size.value(),
            texture: texture.value(),
            sphere: sphere.value(),
            toon: toon.value(),
        },
    )
}

pub open spec fn morph_group_items() -> spec_fn(Cursor) -> Step<Group> {
    |c: Cursor| morph_group_at(c)
}

pub open spec fn morph_vertex_items() -> spec_fn(Cursor) -> Step<Vertex> {
    |c: Cursor| morph_vertex_at(c)
}

pub open spec fn morph_bone_items() -> spec_fn(Cursor) -> Step<Bone> {
    |c: Cursor| morph_bone_at(c)
}

pub open spec fn morph_uv_items() -> spec_fn(Cursor) -> Step<Uv> {
    |c: Cursor| morph_uv_at(c)
}

pub open spec fn morph_material_items() -> spec_fn(Cursor) -> Step<Material> {
    |c: Cursor| morph_material_at(c)
}

/// The `len` items of a morph whose kind byte is `tag`: 0 to 8 name a kind,
/// no other byte does.
#[verifier::opaque]
pub open spec fn kind_at(c: Cursor, tag: u8, len: u32) -> Step<KindView> {
    if tag == 0 {
        let items = repeat(morph_group_items(), c, len as nat);
        items.with(KindView::Group(items.value()))
    } else if tag == 1 {
        let items = repeat(morph_vertex_items(), c, len as nat);
        items.with(KindView::Vertex(items.value()))
    } else if tag == 2 {
        let items = repeat(morph_bone_items(), c, len as nat);
        items.with(KindView::Bone(items.value()))
    } else if tag == 3 {
        let items = repeat(morph_uv_items(), c, len as nat);
        items.with(KindView::Uv(items.value()))
    } else if tag <= 7 {
        let items = repeat(morph_uv_items(), c, len as nat);
        items.with(KindView::ExtendedUv((tag - 4) as usize, items.value()))
    } else if tag == 8 {
        let items = repeat(morph_material_items(), c, len as nat);
        items.with(KindView::Material(items.value()))
    } else {
        Step::fail(Error::InvalidData("morph::kind"), c.pos)
    }
}

#[verifier::opaque]
pub open spec fn morph_at(c: Cursor) -> Step<MorphView> {
    let name = text_at(c);
    let name_en = text_at(c.at(name.next)).after(name);
    let panel = panel_at(c.at(name_en.next)).after(name_en);
    let tag = u8_at(c.at(panel.next)).after(panel);
    let len = u32_at(c.at(tag.next)).after(tag);
    let kind = kind_at(c.at(len.next), tag.value(), len.value()).after(len);
    kind.with(
        MorphView {
            name: name.value(),
            name_en: name_en.value(),
            panel: panel.value(),
            kind: kind.value(),
        },
    )
}

pub open spec fn morph_items() -> spec_fn(Cursor) -> Step<MorphView> {
    |c: Cursor| morph_at(c)
}

#[verifier::opaque]
pub open spec fn morphs_at(c: Cursor) -> Step<Seq<MorphView>> {
    counted(c, morph_items())
}

#[verifier::opaque]
pub open spec fn display_bone_at(c: Cursor) -> Step<DisplayElement> {
    let bone = bone_index_at(c);
    bone.with(DisplayElement::Bone(bone.value()))
}

#[verifier::opaque]
pub open spec fn display_morph_at(c: Cursor) -> Step<DisplayElement> {
    let morph = morph_index_at(c);
    morph.with(DisplayElement::Morph(morph.value()))
}

/// A tag byte, then a reference to a bone after 0 and to a morph after 1.
#[verifier::opaque]
pub open spec fn display_element_at(c: Cursor) -> Step<DisplayElement> {
    let tag = u8_at(c);
    let tag = tag.check(tag.value() <= 1, "display_group::elements");
    let body = c.at(tag.next);
    (if tag.value() == 0 {
        display_bone_at(body)
    } else {
        display_morph_at(body)
    }).after(tag)
}

pub open spec fn display_element_items() -> spec_fn(Cursor) -> Step<DisplayElement> {
    |c: Cursor| display_element_at(c)
}

#[verifier::opaque]
pub open spec fn display_group_at(c: Cursor) -> Step<DisplayGroupView> {
    let name = text_at(c);
    let name_en = text_at(c.at(name.next)).after(name);
    let special = u8_at(c.at(name_en.next)).after(name_en);
    let elements = counted(c.at(special.next), display_element_items()).after(special);
    elements.with(
        DisplayGroupView {
            name: name.value(),
            name_en: name_en.value(),
            special: special.value() == 1,
            elements: elements.value(),
        },
    )
}

pub open spec fn display_group_items() -> spec_fn(Cursor) -> Step<DisplayGroupView> {
    |c: Cursor| display_group_at(c)
}

#[verifier::opaque]
pub open spec fn display_groups_at(c: Cursor) -> Step<Seq<DisplayGroupView>> {
    counted(c, display_group_items())
}

#[verifier::opaque]
pub open spec fn shape_at(c: Cursor) -> Step<Shape> {
    let tag = u8_at(c);
    let tag = tag.check(tag.value() <= 2, "rigid::shape");
    tag.with(
        if tag.value() == 0 {
            Shape::Sphere
        } else if tag.value() == 1 {
            Shape::Box
        } else {
            Shape::Capsule
        },
    )
}

#[verifier::opaque]
pub open spec fn method_at(c: Cursor) -> Step<Method> {
    let tag = u8_at(c);
    let tag = tag.check(tag.value() <= 2, "rigid::method");
    tag.with(
        if tag.value() == 0 {
            Method::Static
        } else if tag.value() == 1 {
            Method::Dynamic
        } else {
            Method::DynamicWithBone
        },
    )
}

#[verifier::opaque]
pub open spec fn rigid_at(c: Cursor) -> Step<RigidView> {
    let name = text_at(c);
    let name_en = text_at(c.at(name.next)).after(name);
    let bone = bone_index_at(c.at(name_en.next)).after(name_en);
    let group = u8_at(c.at(bone.next)).after(bone);
    let non_collision_groups = u16_at(c.at(group.next)).after(group);
    let shape = shape_at(c.at(non_collision_groups.next)).after(non_collision_groups);
    let size = vec3_at(c.at(shape.next)).after(shape);
    let position = vec3_at(c.at(size.next)).after(size);
    let rotation = vec3_at(c.at(position.next)).after(position);
    let mass = binary32_at(c.at(rotation.next)).after(rotation);
    let dump_translation = binary32_at(c.at(mass.next)).after(mass);
    let dump_rotation = binary32_at(c.at(dump_translation.next)).after(dump_translation);
    let repulsive = binary32_at(c.at(dump_rotation.next)).after(dump_rotation);
    let friction = binary32_at(c.at(repulsive.next)).after(repulsive);
    let method = method_at(c.at(friction.next)).after(friction);
    method.with(
        RigidView {
            name: name.value(),
            name_en: name_en.value(),
            bone: bone.value(),
            group: group.value(),
            non_collision_groups: non_collision_groups.value(),
            shape: shape.value(),
            size: size.value(),
            position: position.value(),
            rotation: rotation.value(),
            mass: mass.value(),
            dump_translation: dump_translation.value(),
            dump_rotation: dump_rotation.value(),
            repulsive: repulsive.value(),
            friction: friction.value(),
            method: method.value(),
        },
    )
}

pub open spec fn rigid_items() -> spec_fn(Cursor) -> Step<RigidView> {
    |c: Cursor| rigid_at(c)
}

#[verifier::opaque]
pub open spec fn rigids_at(c: Cursor) -> Step<Seq<RigidView>> {
    counted(c, rigid_items())
}

#[verifier::opaque]
pub open spec fn joint_at(c: Cursor) -> Step<JointView> {
    let name = text_at(c);
    let name_en = text_at(c.at(name.next)).after(name);
    let kind = u8_at(c.at(name_en.next)).after(name_en);
    let kind = kind.check(kind.value() == 0, "joint::type");
    let first = rigid_index_at(c.at(kind.next)).after(kind);
    let second = rigid_index_at(c.at(first.next)).after(first);
    let position = vec3_at(c.at(second.next)).after(second);
    let rotation = vec3_at(c.at(position.next)).after(position);
    let limit_translation = angle_limit_at(c.at(rotation.next)).after(rotation);
    let limit_rotation = angle_limit_at(c.at(limit_translation.next)).after(limit_translation);
    let spring_translation = vec3_at(c.at(limit_rotation.next)).after(limit_rotation);
    let spring_rotation = vec3_at(c.at(spring_translation.next)).after(spring_translation);
    spring_rotation.with(
        JointView {
            name: name.value(),
            name_en: name_en.value(),
            rigids: [first.value(), second.value()],
            position: position.value(),
            rotation: rotation.value(),
            limit_translation: limit_translation.value(),
            limit_rotation: limit_rotation.value(),
            spring_translation: spring_translation.value(),
            spring_rotation: spring_rotation.value(),
        },
    )
}

pub open spec fn joint_items() -> spec_fn(Cursor) -> Step<JointView> {
    |c: Cursor| joint_at(c)
}

#[verifier::opaque]
pub open spec fn joints_at(c: Cursor) -> Step<Seq<JointView>> {
    counted(c, joint_items())
}

/// The layout that holds once the header at `c` has been read: the header's
/// own, or where there is no header, the one that held before.
pub open spec fn layout_after_header(c: Cursor) -> Layout {
    match header_at(c).result {
        Ok(header) => header.layout(),
        Err(_) => c.layout,
    }
}

/// A whole model: the header, then every section in the order that the
/// format lays down, each laid out as the header says.
#[verifier::opaque]
pub open spec fn pmx_at(c: Cursor) -> Step<PmxView> {
    let header = header_at(c);
    let body = c.laid_out(header.value().layout());
    let model_info = model_info_at(body.at(header.next)).after(header);
    let vertices = vertices_at(body.at(model_info.next)).after(model_info);
    let faces = faces_at(body.at(vertices.next)).after(vertices);
    let textures = textures_at(body.at(faces.next)).after(faces);
    let materials = materials_at(body.at(textures.next)).after(textures);
    let bones = bones_at(body.at(materials.next)).after(materials);
    let morphs = morphs_at(body.at(bones.next)).after(bones);
    let display_groups = display_groups_at(body.at(morphs.next)).after(morphs);
    let rigids = rigids_at(body.at(display_groups.next)).after(display_groups);
    let joints = joints_at(body.at(rigids.next)).after(rigids);
    joints.with(
        PmxView {
            header: header.value(),
            model_info: model_info.value(),
            vertices: vertices.value(),
            faces: faces.value(),
            textures: textures.value(),
            materials: materials.value(),
            bones: bones.value(),
            morphs: morphs.value(),
            display_groups: display_groups.value(),
            rigids: rigids.value(),
            joints: joints.value(),
        },
    )
}

/// What decoding makes of an input.
pub open spec fn decoded_model(bytes: Seq<u8>) -> Result<PmxView, Error> {
    pmx_at(Cursor { layout: Layout::initial(), bytes, pos: 0 }).result
}

} // verus!
