//! What holds of the format, whatever the input.

use crate::error::Error;
use crate::format::{
    addition_at, bone_at, bone_flags_at, bone_parts_at, bones_at, connected_to_at, decoded_model,
    display_element_at, encoding_at, external_parent_at, faces_at, fixed_pole_at, has_addition,
    has_flag, header_at, ik_part_at, index_size_at, joint_at, kind_at, local_pole_at, magic,
    material_at, material_fields_at, material_items, material_op_at, materials_at, method_at,
    model_info_at, morph_at, morph_items, morphs_at, panel_at, pmx_at, shape_at, sphere_mode_at,
    textures_at, toon_at, vec4_items, vertex_at, vertex_items, vertices_at, weight_at,
    EXTERNAL_PARENT, FIXED_POLE, HEADER_SETTINGS, IK, LOCAL_POLE,
};
use crate::model::{index_width, Layout, MaterialView, MorphView, VertexView};
use crate::step::{
    bin_at, binary32_at, binary32_items, i32_at, lemma_repeat_each, repeat, signed_index_at,
    text_at, u16_at, u32_at, u8_at, vec2_at, vec3_at, vec4_at, vector_at, vertex_index_at, Cursor,
    Step,
};
use crate::wire::{
    binary32_bytes, i32_bytes, le_signed, le_unsigned, lemma_binary32_round_trip,
    lemma_i32_round_trip, lemma_signed_index, lemma_u16_round_trip, lemma_u32_round_trip,
    lemma_vector_bytes_len, lemma_vertex_index, u16_bytes, u32_bytes, vector_bytes, Binary32,
    Vec2, Vec3, Vec4,
};
use vstd::prelude::*;

verus! {

/// Whether the input holds `bytes` where the cursor stands.
pub open spec fn holds(c: Cursor, bytes: Seq<u8>) -> bool {
    &&& 0 <= c.pos
    &&& c.pos + bytes.len() <= c.bytes.len()
    &&& c.bytes.subrange(c.pos, c.pos + bytes.len()) == bytes
}

/// A signed reference of 1, 2 or 4 bytes refers to nothing exactly where the
/// bytes spell a negative number in two's complement, and else to the number
/// that they spell.
pub proof fn lemma_signed_index_at(c: Cursor, width: u8)
    requires
        index_width(width),
        0 <= c.pos,
        c.pos + width <= c.bytes.len(),
    ensures
        ({
            let spelt = le_signed(c.bytes.subrange(c.pos, c.pos + width));
            let step = signed_index_at(c, width);
            &&& step.ok()
            &&& step.next == c.pos + width
            &&& step.value() is None <==> spelt < 0
            &&& spelt >= 0 ==> step.value() == Some(spelt as usize) && spelt as usize == spelt
        }),
{
    reveal(signed_index_at);
    reveal(bin_at);
    lemma_signed_index(c.bytes.subrange(c.pos, c.pos + width));
}

/// A reference to a vertex of one or two bytes always refers to something,
/// to the unsigned number that the bytes spell. One of four bytes follows the
/// rule of the signed references.
pub proof fn lemma_vertex_index_at(c: Cursor)
    requires
        index_width(c.layout.vertex),
        0 <= c.pos,
        c.pos + c.layout.vertex <= c.bytes.len(),
    ensures
        ({
            let width = c.layout.vertex;
            let raw = c.bytes.subrange(c.pos, c.pos + width);
            let step = vertex_index_at(c);
            &&& step.ok()
            &&& step.next == c.pos + width
            &&& width != 4 ==> step.value() == Some(le_unsigned(raw) as usize)
            &&& width != 4 ==> le_unsigned(raw) as usize == le_unsigned(raw)
            &&& width == 4 ==> step == signed_index_at(c, width)
        }),
{
    reveal(vertex_index_at);
    reveal(signed_index_at);
    reveal(bin_at);
    lemma_vertex_index(c.bytes.subrange(c.pos, c.pos + c.layout.vertex));
}

/// Reading a byte gives the byte that is there.
pub proof fn lemma_u8_round_trip(c: Cursor, v: u8)
    requires
        holds(c, seq![v]),
    ensures
        u8_at(c) == Step::done(v, c.pos + 1),
{
    reveal(u8_at);
    reveal(bin_at);
    assert(seq![v][0] == v);
}

/// Reading where the bytes of a 16-bit number stand gives the number.
pub proof fn lemma_u16_at_round_trip(c: Cursor, v: u16)
    requires
        holds(c, u16_bytes(v)),
    ensures
        u16_at(c) == Step::done(v, c.pos + 2),
{
    reveal(u16_at);
    reveal(bin_at);
    lemma_u16_round_trip(v);
}

/// Reading where the bytes of a 32-bit number stand gives the number.
pub proof fn lemma_u32_at_round_trip(c: Cursor, v: u32)
    requires
        holds(c, u32_bytes(v)),
    ensures
        u32_at(c) == Step::done(v, c.pos + 4),
{
    reveal(u32_at);
    reveal(bin_at);
    lemma_u32_round_trip(v);
}

/// Reading where the bytes of a signed 32-bit number stand gives the number.
pub proof fn lemma_i32_at_round_trip(c: Cursor, v: i32)
    requires
        holds(c, i32_bytes(v)),
    ensures
        i32_at(c) == Step::done(v, c.pos + 4),
{
    reveal(i32_at);
    reveal(bin_at);
    lemma_i32_round_trip(v);
}

/// Reading where the bytes of a binary32 number stand gives the number, bit
/// for bit.
pub proof fn lemma_binary32_at_round_trip(c: Cursor, v: Binary32)
    requires
        holds(c, binary32_bytes(v)),
    ensures
        binary32_at(c) == Step::done(v, c.pos + 4),
{
    reveal(binary32_at);
    reveal(bin_at);
    lemma_binary32_round_trip(v);
}

/// Reading where the bytes of a row of numbers stand gives the row.
pub proof fn lemma_vector_at_round_trip(c: Cursor, v: Seq<Binary32>)
    requires
        holds(c, vector_bytes(v)),
    ensures
        vector_at(c, v.len()) == Step::done(v, c.pos + 4 * v.len()),
    decreases v.len(),
{
    reveal(vector_at);
    lemma_vector_bytes_len(v);
    if v.len() > 0 {
        let front = v.drop_last();
        let cut: int = 4 * (front.len() as int);
        let end: int = 4 * (v.len() as int);
        lemma_vector_bytes_len(front);
        lemma_binary32_round_trip(v.last());
        let all = vector_bytes(v);
        assert(all.subrange(0, cut) =~= vector_bytes(front));
        assert(all.subrange(cut, end) =~= binary32_bytes(v.last()));
        assert(c.bytes.subrange(c.pos, c.pos + cut) =~= all.subrange(0, cut));
        lemma_vector_at_round_trip(c, front);
        let last = c.at(c.pos + cut);
        assert(last.bytes.subrange(last.pos, last.pos + 4) =~= all.subrange(cut, end));
        lemma_binary32_at_round_trip(last, v.last());
        assert(front.push(v.last()) =~= v);
        assert(front.len() == (v.len() - 1) as nat);
        let run = repeat(binary32_items(), c, front.len());
        assert(run == Step::done(front, c.pos + cut));
        assert(binary32_items()(c.at(run.next)) == Step::done(v.last(), c.pos + end));
        assert(repeat(binary32_items(), c, v.len()) == Step::done(v, c.pos + end));
    } else {
        assert(v =~= Seq::empty());
    }
}

/// Reading where the bytes of two numbers stand gives the two.
pub proof fn lemma_vec2_round_trip(c: Cursor, v: Vec2)
    requires
        holds(c, vector_bytes(v@)),
    ensures
        vec2_at(c) == Step::done(v, c.pos + 8),
{
    reveal(vec2_at);
    lemma_vector_at_round_trip(c, v@);
    assert(v =~= vec2_at(c).value());
}

/// Reading where the bytes of three numbers stand gives the three.
pub proof fn lemma_vec3_round_trip(c: Cursor, v: Vec3)
    requires
        holds(c, vector_bytes(v@)),
    ensures
        vec3_at(c) == Step::done(v, c.pos + 12),
{
    reveal(vec3_at);
    lemma_vector_at_round_trip(c, v@);
    assert(v =~= vec3_at(c).value());
}

/// Reading where the bytes of four numbers stand gives the four.
pub proof fn lemma_vec4_round_trip(c: Cursor, v: Vec4)
    requires
        holds(c, vector_bytes(v@)),
    ensures
        vec4_at(c) == Step::done(v, c.pos + 16),
{
    reveal(vec4_at);
    lemma_vector_at_round_trip(c, v@);
    assert(v =~= vec4_at(c).value());
}

/// A material is decoded exactly where its fields are and the index count
/// among them is a multiple of 3. Where the fields are there and the count is
/// no such multiple, the material is refused for the sake of the count, just
/// behind it.
pub proof fn lemma_material_index_count(c: Cursor)
    ensures
        material_at(c).ok() <==> material_fields_at(c).ok() && material_fields_at(
            c,
        ).value().index_count % 3 == 0,
        material_at(c).ok() ==> material_at(c) == material_fields_at(c),
        material_fields_at(c).ok() && material_fields_at(c).value().index_count % 3 != 0
            ==> material_at(c) == Step::<crate::model::MaterialView>::fail(
            Error::InvalidData("material::index_count"),
            material_fields_at(c).next,
        ),
        !material_fields_at(c).ok() ==> material_at(c) == material_fields_at(c),
{
    reveal(material_at);
}

/// A header is refused for the sake of its first four bytes unless they are
/// the magic bytes.
pub proof fn lemma_magic_refused(c: Cursor)
    requires
        bin_at(c, 4).ok(),
        bin_at(c, 4).value() != magic(),
    ensures
        header_at(c) == Step::<crate::model::Header>::fail(
            Error::InvalidData("magic number"),
            bin_at(c, 4).next,
        ),
{
    reveal(header_at);
}

/// A header that announces any number of setting bytes but 8 is refused.
pub proof fn lemma_header_settings_refused(c: Cursor)
    requires
        bin_at(c, 4).ok(),
        bin_at(c, 4).value() == magic(),
        binary32_at(c.at(c.pos + 4)).ok(),
        u8_at(c.at(c.pos + 8)).ok(),
        u8_at(c.at(c.pos + 8)).value() != HEADER_SETTINGS,
    ensures
        header_at(c) == Step::<crate::model::Header>::fail(
            Error::InvalidData("header::bytes"),
            u8_at(c.at(c.pos + 8)).next,
        ),
{
    reveal(header_at);
    reveal(bin_at);
    reveal(binary32_at);
}

/// A tag byte that names no variant is refused for the sake of its field,
/// just behind the byte, whatever follows it.
pub proof fn lemma_unknown_tag_refused(c: Cursor)
    requires
        u8_at(c).ok(),
    ensures
        ({
            let tag = u8_at(c);
            &&& tag.value() > 1 ==> encoding_at(c) == Step::<crate::model::Encoding>::fail(
                Error::InvalidData("header::encoding"),
                tag.next,
            )
            &&& !index_width(tag.value()) ==> index_size_at(c) == Step::<u8>::fail(
                Error::InvalidData("read_index_size"),
                tag.next,
            )
            &&& tag.value() > 3 ==> weight_at(c) == Step::<crate::model::Weight>::fail(
                Error::InvalidData("vertex::weight"),
                tag.next,
            )
            &&& tag.value() > 3 ==> sphere_mode_at(c) == Step::<crate::model::SphereMode>::fail(
                Error::InvalidData("material::sphere_mode"),
                tag.next,
            )
            &&& tag.value() > 1 ==> toon_at(c) == Step::<crate::model::Toon>::fail(
                Error::InvalidData("material::toon"),
                tag.next,
            )
            &&& tag.value() > 4 ==> panel_at(c) == Step::<crate::model::Panel>::fail(
                Error::InvalidData("morph::panel"),
                tag.next,
            )
            &&& tag.value() > 1 ==> material_op_at(c) == Step::<crate::morph::MaterialOp>::fail(
                Error::InvalidData("morph::Material::op"),
                tag.next,
            )
            &&& tag.value() > 1 ==> display_element_at(c) == Step::<
                crate::model::DisplayElement,
            >::fail(Error::InvalidData("display_group::elements"), tag.next)
            &&& tag.value() > 2 ==> shape_at(c) == Step::<crate::rigid::Shape>::fail(
                Error::InvalidData("rigid::shape"),
                tag.next,
            )
            &&& tag.value() > 2 ==> method_at(c) == Step::<crate::rigid::Method>::fail(
                Error::InvalidData("rigid::method"),
                tag.next,
            )
        }),
{
    reveal(encoding_at);
    reveal(index_size_at);
    reveal(weight_at);
    reveal(sphere_mode_at);
    reveal(toon_at);
    reveal(panel_at);
    reveal(material_op_at);
    reveal(display_element_at);
    reveal(shape_at);
    reveal(method_at);
}

/// A kind byte above 8 names no kind of morph: the morph is refused where its
/// items would begin, and none is read.
pub proof fn lemma_unknown_morph_kind_refused(c: Cursor, tag: u8, len: u32)
    requires
        tag > 8,
    ensures
        kind_at(c, tag, len) == Step::<crate::morph::KindView>::fail(
            Error::InvalidData("morph::kind"),
            c.pos,
        ),
{
    reveal(kind_at);
}

/// A joint of any type but 0 is refused just behind its type byte.
pub proof fn lemma_unknown_joint_type_refused(c: Cursor)
    requires
        text_at(c).ok(),
        text_at(c.at(text_at(c).next)).ok(),
        u8_at(c.at(text_at(c.at(text_at(c).next)).next)).ok(),
        u8_at(c.at(text_at(c.at(text_at(c).next)).next)).value() != 0,
    ensures
        joint_at(c) == Step::<crate::model::JointView>::fail(
            Error::InvalidData("joint::type"),
            u8_at(c.at(text_at(c.at(text_at(c).next)).next)).next,
        ),
{
    reveal(joint_at);
}

/// A part of a bone that the flag word does not announce is nothing, and is
/// made of no byte at all.
pub proof fn lemma_unannounced_part(c: Cursor, flags: u16)
    ensures
        !has_addition(flags) ==> addition_at(c, flags) == Step::<
            Option<crate::model::Addition>,
        >::done(None, c.pos),
        !has_flag(flags, FIXED_POLE) ==> fixed_pole_at(c, flags) == Step::<Option<Vec3>>::done(
            None,
            c.pos,
        ),
        !has_flag(flags, LOCAL_POLE) ==> local_pole_at(c, flags) == Step::<
            Option<crate::model::LocalPole>,
        >::done(None, c.pos),
        !has_flag(flags, EXTERNAL_PARENT) ==> external_parent_at(c, flags) == Step::<
            Option<usize>,
        >::done(None, c.pos),
        !has_flag(flags, IK) ==> ik_part_at(c, flags) == Step::<
            Option<crate::model::IkView>,
        >::done(None, c.pos),
{
    reveal(addition_at);
    reveal(fixed_pole_at);
    reveal(local_pole_at);
    reveal(external_parent_at);
    reveal(ik_part_at);
}

/// What a bone that was decoded holds behind its flag word is what the word
/// announces: each part is there exactly where its flag is set. The key of an
/// outside parent is the one exception: a set flag may announce a negative
/// key, which stands for no parent.
pub proof fn lemma_bone_parts_follow_flags(c: Cursor, flags: u16)
    requires
        bone_parts_at(c, flags).ok(),
    ensures
        ({
            let parts = bone_parts_at(c, flags).value();
            &&& parts.addition is Some <==> has_addition(flags)
            &&& parts.fixed_pole is Some <==> has_flag(flags, FIXED_POLE)
            &&& parts.local_pole is Some <==> has_flag(flags, LOCAL_POLE)
            &&& parts.ik is Some <==> has_flag(flags, IK)
            &&& parts.external_parent is Some ==> has_flag(flags, EXTERNAL_PARENT)
        }),
{
    reveal(bone_parts_at);
    reveal(addition_at);
    reveal(fixed_pole_at);
    reveal(local_pole_at);
    reveal(external_parent_at);
    reveal(ik_part_at);
}

/// Where the flag word announces none of the parts, a bone ends where the
/// pointer of its tip ends.
pub proof fn lemma_bare_bone_parts(c: Cursor, flags: u16)
    requires
        !has_addition(flags),
        !has_flag(flags, FIXED_POLE),
        !has_flag(flags, LOCAL_POLE),
        !has_flag(flags, EXTERNAL_PARENT),
        !has_flag(flags, IK),
    ensures
        bone_parts_at(c, flags).next == connected_to_at(c, flags).next,
        bone_parts_at(c, flags).ok() <==> connected_to_at(c, flags).ok(),
{
    reveal(bone_parts_at);
    lemma_unannounced_part(c.at(connected_to_at(c, flags).next), flags);
}

/// In a bone that was decoded, each part that a flag announces is there
/// exactly where the flag is set in the bone's own flag word (the key of an
/// outside parent: only where it is set), and the bone ends where its parts
/// end.
pub proof fn lemma_bone_follows_flags(c: Cursor)
    requires
        bone_at(c).ok(),
    ensures
        ({
            let flags = bone_flags_at(c);
            let bone = bone_at(c).value();
            &&& flags.ok()
            &&& bone.addition is Some <==> has_addition(flags.value())
            &&& bone.fixed_pole is Some <==> has_flag(flags.value(), FIXED_POLE)
            &&& bone.local_pole is Some <==> has_flag(flags.value(), LOCAL_POLE)
            &&& bone.ik is Some <==> has_flag(flags.value(), IK)
            &&& bone.external_parent is Some ==> has_flag(flags.value(), EXTERNAL_PARENT)
            &&& bone_at(c).next == bone_parts_at(c.at(flags.next), flags.value()).next
        }),
{
    reveal(bone_at);
    reveal(bone_flags_at);
    let flags = bone_flags_at(c);
    lemma_bone_parts_follow_flags(c.at(flags.next), flags.value());
}

/// A header that was decoded gives every kind of reference a width that the
/// format allows.
pub proof fn lemma_header_widths(c: Cursor)
    requires
        header_at(c).ok(),
    ensures
        header_at(c).value().layout().valid(),
{
    reveal(header_at);
    reveal(index_size_at);
}

/// A vertex that was decoded has as many additional UV channels as the
/// layout says.
pub proof fn lemma_vertex_channels(c: Cursor)
    requires
        vertex_at(c).ok(),
    ensures
        vertex_at(c).value().extended_uv.len() == c.layout.extended_uv,
{
    reveal(vertex_at);
    let position = vec3_at(c);
    let normal = vec3_at(c.at(position.next)).after(position);
    let uv = vec2_at(c.at(normal.next)).after(normal);
    lemma_repeat_each(
        vec4_items(),
        c.at(uv.next),
        c.layout.extended_uv as nat,
        |v: Vec4| true,
    );
}

/// A morph of additional UV coordinates that was decoded names one of the
/// four channels.
pub proof fn lemma_morph_channel(c: Cursor)
    requires
        morph_at(c).ok(),
    ensures
        morph_at(c).value().kind.wf(),
{
    reveal(morph_at);
    reveal(kind_at);
}

/// A model that was decoded is well formed.
pub proof fn lemma_model_wf(c: Cursor)
    requires
        pmx_at(c).ok(),
    ensures
        pmx_at(c).value().wf(),
{
    reveal(pmx_at);
    reveal(vertices_at);
    reveal(materials_at);
    reveal(morphs_at);
    lemma_header_widths(c);
    let header = header_at(c);
    let body = c.laid_out(header.value().layout());
    let model_info = model_info_at(body.at(header.next)).after(header);
    let vertices = vertices_at(body.at(model_info.next)).after(model_info);
    let faces = faces_at(body.at(vertices.next)).after(vertices);
    let textures = textures_at(body.at(faces.next)).after(faces);
    let materials = materials_at(body.at(textures.next)).after(textures);
    let bones = bones_at(body.at(materials.next)).after(materials);
    let morphs = morphs_at(body.at(bones.next)).after(bones);
    let channels = body.layout.extended_uv;

    let at_vertices = body.at(u32_at(body.at(model_info.next)).next);
    assert forall|pos: int| #[trigger] vertex_items()(at_vertices.at(pos)).ok() implies (
    |v: VertexView| v.extended_uv.len() == channels)(
        vertex_items()(at_vertices.at(pos)).value(),
    ) by {
        lemma_vertex_channels(at_vertices.at(pos));
    }
    lemma_repeat_each(
        vertex_items(),
        at_vertices,
        u32_at(body.at(model_info.next)).value() as nat,
        |v: VertexView| v.extended_uv.len() == channels,
    );

    let at_materials = body.at(u32_at(body.at(textures.next)).next);
    assert forall|pos: int| #[trigger] material_items()(at_materials.at(pos)).ok() implies (
    |m: MaterialView| m.index_count % 3 == 0)(material_items()(at_materials.at(pos)).value()) by {
        lemma_material_index_count(at_materials.at(pos));
        reveal(material_at);
    }
    lemma_repeat_each(
        material_items(),
        at_materials,
        u32_at(body.at(textures.next)).value() as nat,
        |m: MaterialView| m.index_count % 3 == 0,
    );

    let at_morphs = body.at(u32_at(body.at(bones.next)).next);
    assert forall|pos: int| #[trigger] morph_items()(at_morphs.at(pos)).ok() implies (
    |m: MorphView| m.kind.wf())(morph_items()(at_morphs.at(pos)).value()) by {
        lemma_morph_channel(at_morphs.at(pos));
    }
    lemma_repeat_each(
        morph_items(),
        at_morphs,
        u32_at(body.at(bones.next)).value() as nat,
        |m: MorphView| m.kind.wf(),
    );
}

/// Whatever the input, the model that it decodes to is well formed.
pub proof fn lemma_decoded_model_wf(bytes: Seq<u8>)
    ensures
        decoded_model(bytes) matches Ok(model) ==> model.wf(),
{
    if decoded_model(bytes) is Ok {
        lemma_model_wf(Cursor { layout: Layout::initial(), bytes, pos: 0 });
    }
}

} // verus!
