//! What becomes of decoding when the input is cut short.
//!
//! Every decoder reads forwards and looks at no byte before it needs it. So
//! the bytes behind the place where a decoder stopped do not matter, and a
//! decoder that would have gone on behind the cut runs out of input on the
//! cut one: it fails with an error of the input, never with one of structure.

use crate::error::Error;
use crate::format::{
    addition_at, angle_limit_at, axes_at, bdef1_at, bdef2_at, bdef4_at, bone_at, bone_items,
    bone_parts_at, bones_at, connected_to_at, counted, decoded_model, display_bone_at,
    display_element_at, display_element_items, display_group_at, display_group_items,
    display_groups_at, display_morph_at, encoding_at, external_parent_at, faces_at,
    fixed_pole_at, header_at, ik_at, ik_link_at, ik_link_items, ik_part_at, index_size_at,
    inherited_at, joint_at, joint_items, joints_at, kind_at, local_pole_at, magic, material_at,
    material_fields_at, material_items, material_op_at, materials_at, method_at, model_info_at,
    morph_at, morph_bone_at, morph_bone_items, morph_group_at, morph_group_items, morph_items,
    morph_material_at, morph_material_items, morph_uv_at, morph_uv_items, morph_vertex_at,
    morph_vertex_items, morphs_at, panel_at, pmx_at, rigid_at, rigid_items, rigids_at, sdef_at,
    shape_at, sphere_mode_at, text_items, textures_at, toon_at, toon_shared_at, toon_texture_at,
    u32_items, vec4_items, vertex_at, vertex_items, vertices_at, weight_at, HEADER_SETTINGS,
};
use crate::model::Layout;
use crate::step::{
    bin_at, binary32_at, binary32_items, bone_index_at, i32_at, material_index_at,
    morph_index_at, repeat, rigid_index_at, signed_index_at, text_at, texture_index_at, u16_at,
    u32_at, u8_at, vec2_at, vec3_at, vec4_at, vector_at, vertex_index_at, Cursor, Step,
};
use vstd::prelude::*;

verus! {

/// The input of `c` with only its first `keep` bytes left, read from the
/// same place.
pub open spec fn cut(c: Cursor, keep: int) -> Cursor {
    Cursor { layout: c.layout, bytes: c.bytes.take(keep), pos: c.pos }
}

/// How a step on an input cut behind `keep` bytes (`part`) relates to the
/// same step on the whole input (`full`), both taken from `c`:
/// - the step does not go backwards and, begun within the input, stops
///   within it; if it fails, then for the sake of a field or because the
///   input ended;
/// - begun in front of the cut, it is the same on both inputs where it stops
///   in front of the cut; where it goes on behind the cut, the cut input ends
///   too early for it.
pub open spec fn survives<T>(c: Cursor, keep: int, full: Step<T>, part: Step<T>) -> bool {
    &&& c.pos <= full.next
    &&& c.pos <= c.bytes.len() ==> full.next <= c.bytes.len()
    &&& full.result matches Err(error) ==> error is InvalidData || error == Error::end_of_input()
    &&& 0 <= c.pos <= keep <= c.bytes.len() ==> {
        &&& full.next <= keep ==> part == full
        &&& full.next > keep ==> part.result == Err::<T, Error>(Error::end_of_input())
            && c.pos <= part.next <= keep
    }
}

/// Whether every step that `item` takes survives a cut behind `keep` bytes.
pub open spec fn cut_safe<T>(item: spec_fn(Cursor) -> Step<T>, keep: int) -> bool {
    forall|d: Cursor| #[trigger] survives(d, keep, item(d), item(cut(d, keep)))
}

proof fn lemma_bin_cut(c: Cursor, len: int, keep: int)
    ensures
        len >= 0 ==> survives(c, keep, bin_at(c, len), bin_at(cut(c, keep), len)),
{
    reveal(bin_at);
    if 0 <= c.pos <= keep <= c.bytes.len() && 0 <= len && c.pos + len <= keep {
        assert(c.bytes.take(keep).subrange(c.pos, c.pos + len) =~= c.bytes.subrange(
            c.pos,
            c.pos + len,
        ));
    }
}

proof fn lemma_repeat_cut<T>(item: spec_fn(Cursor) -> Step<T>, c: Cursor, n: nat, keep: int)
    requires
        cut_safe(item, keep),
    ensures
        survives(c, keep, repeat(item, c, n), repeat(item, cut(c, keep), n)),
    decreases n,
{
    if n > 0 {
        lemma_repeat_cut(item, c, (n - 1) as nat, keep);
        let front = repeat(item, c, (n - 1) as nat);
        let d = c.at(front.next);
        assert(survives(d, keep, item(d), item(cut(d, keep))));
        assert(cut(d, keep) == cut(c, keep).at(front.next));
    }
}

proof fn lemma_counted_cut<T>(c: Cursor, item: spec_fn(Cursor) -> Step<T>, keep: int)
    requires
        cut_safe(item, keep),
    ensures
        survives(c, keep, counted(c, item), counted(cut(c, keep), item)),
{
    lemma_u32_cut(c, keep);
    let count = u32_at(c);
    lemma_repeat_cut(item, c.at(count.next), count.value() as nat, keep);
}

proof fn lemma_u8_cut(c: Cursor, keep: int)
    ensures
        survives(c, keep, u8_at(c), u8_at(cut(c, keep))),
{
    reveal(u8_at);
    lemma_bin_cut(c, 1, keep);
}

proof fn lemma_u16_cut(c: Cursor, keep: int)
    ensures
        survives(c, keep, u16_at(c), u16_at(cut(c, keep))),
{
    reveal(u16_at);
    lemma_bin_cut(c, 2, keep);
}

proof fn lemma_u32_cut(c: Cursor, keep: int)
    ensures
        survives(c, keep, u32_at(c), u32_at(cut(c, keep))),
{
    reveal(u32_at);
    lemma_bin_cut(c, 4, keep);
}

proof fn lemma_u32_items_cut(keep: int)
    ensures
        cut_safe(u32_items(), keep),
{
    assert forall|d: Cursor| #[trigger] survives(
        d,
        keep,
        u32_items()(d),
        u32_items()(cut(d, keep)),
    ) by {
        lemma_u32_cut(d, keep);
    }
}

proof fn lemma_i32_cut(c: Cursor, keep: int)
    ensures
        survives(c, keep, i32_at(c), i32_at(cut(c, keep))),
{
    reveal(i32_at);
    lemma_bin_cut(c, 4, keep);
}

proof fn lemma_binary32_cut(c: Cursor, keep: int)
    ensures
        survives(c, keep, binary32_at(c), binary32_at(cut(c, keep))),
{
    reveal(binary32_at);
    lemma_bin_cut(c, 4, keep);
}

proof fn lemma_binary32_items_cut(keep: int)
    ensures
        cut_safe(binary32_items(), keep),
{
    assert forall|d: Cursor| #[trigger] survives(
        d,
        keep,
        binary32_items()(d),
        binary32_items()(cut(d, keep)),
    ) by {
        lemma_binary32_cut(d, keep);
    }
}

proof fn lemma_vector_cut(c: Cursor, n: nat, keep: int)
    ensures
        survives(c, keep, vector_at(c, n), vector_at(cut(c, keep), n)),
{
    reveal(vector_at);
    lemma_binary32_items_cut(keep);
    lemma_repeat_cut(binary32_items(), c, n, keep);
}

proof fn lemma_vec2_cut(c: Cursor, keep: int)
    ensures
        survives(c, keep, vec2_at(c), vec2_at(cut(c, keep))),
{
    reveal(vec2_at);
    lemma_vector_cut(c, 2, keep);
}

proof fn lemma_vec3_cut(c: Cursor, keep: int)
    ensures
        survives(c, keep, vec3_at(c), vec3_at(cut(c, keep))),
{
    reveal(vec3_at);
    lemma_vector_cut(c, 3, keep);
}

proof fn lemma_vec4_cut(c: Cursor, keep: int)
    ensures
        survives(c, keep, vec4_at(c), vec4_at(cut(c, keep))),
{
    reveal(vec4_at);
    lemma_vector_cut(c, 4, keep);
}

proof fn lemma_vec4_items_cut(keep: int)
    ensures
        cut_safe(vec4_items(), keep),
{
    assert forall|d: Cursor| #[trigger] survives(
        d,
        keep,
        vec4_items()(d),
        vec4_items()(cut(d, keep)),
    ) by {
        lemma_vec4_cut(d, keep);
    }
}

proof fn lemma_text_cut(c: Cursor, keep: int)
    ensures
        survives(c, keep, text_at(c), text_at(cut(c, keep))),
{
    reveal(text_at);
    let len = u32_at(c);
    lemma_u32_cut(c, keep);
    lemma_bin_cut(c.at(len.next), len.value() as int, keep);
}

proof fn lemma_text_items_cut(keep: int)
    ensures
        cut_safe(text_items(), keep),
{
    assert forall|d: Cursor| #[trigger] survives(
        d,
        keep,
        text_items()(d),
        text_items()(cut(d, keep)),
    ) by {
        lemma_text_cut(d, keep);
    }
}

proof fn lemma_signed_index_cut(c: Cursor, width: u8, keep: int)
    ensures
        survives(c, keep, signed_index_at(c, width), signed_index_at(cut(c, keep), width)),
{
    reveal(signed_index_at);
    lemma_bin_cut(c, width as int, keep);
}

proof fn lemma_vertex_index_cut(c: Cursor, keep: int)
    ensures
        survives(c, keep, vertex_index_at(c), vertex_index_at(cut(c, keep))),
{
    reveal(vertex_index_at);
    lemma_bin_cut(c, c.layout.vertex as int, keep);
}

proof fn lemma_texture_index_cut(c: Cursor, keep: int)
    ensures
        survives(c, keep, texture_index_at(c), texture_index_at(cut(c, keep))),
{
    reveal(texture_index_at);
    lemma_signed_index_cut(c, c.layout.texture, keep);
}

proof fn lemma_material_index_cut(c: Cursor, keep: int)
    ensures
        survives(c, keep, material_index_at(c), material_index_at(cut(c, keep))),
{
    reveal(material_index_at);
    lemma_signed_index_cut(c, c.layout.material, keep);
}

proof fn lemma_bone_index_cut(c: Cursor, keep: int)
    ensures
        survives(c, keep, bone_index_at(c), bone_index_at(cut(c, keep))),
{
    reveal(bone_index_at);
    lemma_signed_index_cut(c, c.layout.bone, keep);
}

proof fn lemma_morph_index_cut(c: Cursor, keep: int)
    ensures
        survives(c, keep, morph_index_at(c), morph_index_at(cut(c, keep))),
{
    reveal(morph_index_at);
    lemma_signed_index_cut(c, c.layout.morph, keep);
}

proof fn lemma_rigid_index_cut(c: Cursor, keep: int)
    ensures
        survives(c, keep, rigid_index_at(c), rigid_index_at(cut(c, keep))),
{
    reveal(rigid_index_at);
    lemma_signed_index_cut(c, c.layout.rigid, keep);
}

proof fn lemma_encoding_cut(c: Cursor, keep: int)
    ensures
        survives(c, keep, encoding_at(c), encoding_at(cut(c, keep))),
{
    reveal(encoding_at);
    lemma_u8_cut(c, keep);
}

proof fn lemma_index_size_cut(c: Cursor, keep: int)
    ensures
        survives(c, keep, index_size_at(c), index_size_at(cut(c, keep))),
{
    reveal(index_size_at);
    lemma_u8_cut(c, keep);
}

proof fn lemma_header_cut(c: Cursor, keep: int)
    ensures
        survives(c, keep, header_at(c), header_at(cut(c, keep))),
{
    reveal(header_at);
    let tag = bin_at(c, 4);
    lemma_bin_cut(c, 4, keep);
    let tag = tag.check(tag.value() == magic(), "magic number");
    let version = binary32_at(c.at(tag.next)).after(tag);
    lemma_binary32_cut(c.at(tag.next), keep);
    let settings = u8_at(c.at(version.next)).after(version);
    lemma_u8_cut(c.at(version.next), keep);
    let settings = settings.check(settings.value() == HEADER_SETTINGS, "header::bytes");
    let encoding = encoding_at(c.at(settings.next)).after(settings);
    lemma_encoding_cut(c.at(settings.next), keep);
    let extended_uv = u8_at(c.at(encoding.next)).after(encoding);
    lemma_u8_cut(c.at(encoding.next), keep);
    let vertex = index_size_at(c.at(extended_uv.next)).after(extended_uv);
    lemma_index_size_cut(c.at(extended_uv.next), keep);
    let texture = index_size_at(c.at(vertex.next)).after(vertex);
    lemma_index_size_cut(c.at(vertex.next), keep);
    let material = index_size_at(c.at(texture.next)).after(texture);
    lemma_index_size_cut(c.at(texture.next), keep);
    let bone = index_size_at(c.at(material.next)).after(material);
    lemma_index_size_cut(c.at(material.next), keep);
    let morph = index_size_at(c.at(bone.next)).after(bone);
    lemma_index_size_cut(c.at(bone.next), keep);
    lemma_index_size_cut(c.at(morph.next), keep);
}

proof fn lemma_model_info_cut(c: Cursor, keep: int)
    ensures
        survives(c, keep, model_info_at(c), model_info_at(cut(c, keep))),
{
    reveal(model_info_at);
    let name = text_at(c);
    lemma_text_cut(c, keep);
    let name_en = text_at(c.at(name.next)).after(name);
    lemma_text_cut(c.at(name.next), keep);
    let comment = text_at(c.at(name_en.next)).after(name_en);
    lemma_text_cut(c.at(name_en.next), keep);
    lemma_text_cut(c.at(comment.next), keep);
}

proof fn lemma_bdef1_cut(c: Cursor, keep: int)
    ensures
        survives(c, keep, bdef1_at(c), bdef1_at(cut(c, keep))),
{
    reveal(bdef1_at);
    lemma_bone_index_cut(c, keep);
}

proof fn lemma_bdef2_cut(c: Cursor, keep: int)
    ensures
        survives(c, keep, bdef2_at(c), bdef2_at(cut(c, keep))),
{
    reveal(bdef2_at);
    let first = bone_index_at(c);
    lemma_bone_index_cut(c, keep);
    let second = bone_index_at(c.at(first.next)).after(first);
    lemma_bone_index_cut(c.at(first.next), keep);
    lemma_binary32_cut(c.at(second.next), keep);
}

proof fn lemma_bdef4_cut(c: Cursor, keep: int)
    ensures
        survives(c, keep, bdef4_at(c), bdef4_at(cut(c, keep))),
{
    reveal(bdef4_at);
    let first = bone_index_at(c);
    lemma_bone_index_cut(c, keep);
    let second = bone_index_at(c.at(first.next)).after(first);
    lemma_bone_index_cut(c.at(first.next), keep);
    let third = bone_index_at(c.at(second.next)).after(second);
    lemma_bone_index_cut(c.at(second.next), keep);
    let fourth = bone_index_at(c.at(third.next)).after(third);
    lemma_bone_index_cut(c.at(third.next), keep);
    lemma_vec4_cut(c.at(fourth.next), keep);
}

proof fn lemma_sdef_cut(c: Cursor, keep: int)
    ensures
        survives(c, keep, sdef_at(c), sdef_at(cut(c, keep))),
{
    reveal(sdef_at);
    let first = bone_index_at(c);
    lemma_bone_index_cut(c, keep);
    let second = bone_index_at(c.at(first.next)).after(first);
    lemma_bone_index_cut(c.at(first.next), keep);
    let weight = binary32_at(c.at(second.next)).after(second);
    lemma_binary32_cut(c.at(second.next), keep);
    let center = vec3_at(c.at(weight.next)).after(weight);
    lemma_vec3_cut(c.at(weight.next), keep);
    let r0 = vec3_at(c.at(center.next)).after(center);
    lemma_vec3_cut(c.at(center.next), keep);
    lemma_vec3_cut(c.at(r0.next), keep);
}

proof fn lemma_weight_cut(c: Cursor, keep: int)
    ensures
        survives(c, keep, weight_at(c), weight_at(cut(c, keep))),
{
    reveal(weight_at);
    let tag = u8_at(c);
    lemma_u8_cut(c, keep);
    let tag = tag.check(tag.value() <= 3, "vertex::weight");
    let body = c.at(tag.next);
    lemma_bdef1_cut(body, keep);
    lemma_bdef2_cut(body, keep);
    lemma_bdef4_cut(body, keep);
    lemma_sdef_cut(body, keep);
}

proof fn lemma_vertex_cut(c: Cursor, keep: int)
    ensures
        survives(c, keep, vertex_at(c), vertex_at(cut(c, keep))),
{
    reveal(vertex_at);
    let position = vec3_at(c);
    lemma_vec3_cut(c, keep);
    let normal = vec3_at(c.at(position.next)).after(position);
    lemma_vec3_cut(c.at(position.next), keep);
    let uv = vec2_at(c.at(normal.next)).after(normal);
    lemma_vec2_cut(c.at(normal.next), keep);
    let extended_uv = repeat(vec4_items(), c.at(uv.next), c.layout.extended_uv as nat).after(uv);
    lemma_vec4_items_cut(keep);
    lemma_repeat_cut(vec4_items(), c.at(uv.next), c.layout.extended_uv as nat, keep);
    let weight = weight_at(c.at(extended_uv.next)).after(extended_uv);
    lemma_weight_cut(c.at(extended_uv.next), keep);
    lemma_binary32_cut(c.at(weight.next), keep);
}

proof fn lemma_vertex_items_cut(keep: int)
    ensures
        cut_safe(vertex_items(), keep),
{
    assert forall|d: Cursor| #[trigger] survives(
        d,
        keep,
        vertex_items()(d),
        vertex_items()(cut(d, keep)),
    ) by {
        lemma_vertex_cut(d, keep);
    }
}

proof fn lemma_vertices_cut(c: Cursor, keep: int)
    ensures
        survives(c, keep, vertices_at(c), vertices_at(cut(c, keep))),
{
    reveal(vertices_at);
    lemma_vertex_items_cut(keep);
    lemma_counted_cut(c, vertex_items(), keep);
}

proof fn lemma_faces_cut(c: Cursor, keep: int)
    ensures
        survives(c, keep, faces_at(c), faces_at(cut(c, keep))),
{
    reveal(faces_at);
    lemma_u32_items_cut(keep);
    lemma_counted_cut(c, u32_items(), keep);
}

proof fn lemma_textures_cut(c: Cursor, keep: int)
    ensures
        survives(c, keep, textures_at(c), textures_at(cut(c, keep))),
{
    reveal(textures_at);
    lemma_text_items_cut(keep);
    lemma_counted_cut(c, text_items(), keep);
}

proof fn lemma_sphere_mode_cut(c: Cursor, keep: int)
    ensures
        survives(c, keep, sphere_mode_at(c), sphere_mode_at(cut(c, keep))),
{
    reveal(sphere_mode_at);
    lemma_u8_cut(c, keep);
}

proof fn lemma_toon_texture_cut(c: Cursor, keep: int)
    ensures
        survives(c, keep, toon_texture_at(c), toon_texture_at(cut(c, keep))),
{
    reveal(toon_texture_at);
    lemma_texture_index_cut(c, keep);
}

proof fn lemma_toon_shared_cut(c: Cursor, keep: int)
    ensures
        survives(c, keep, toon_shared_at(c), toon_shared_at(cut(c, keep))),
{
    reveal(toon_shared_at);
    lemma_u8_cut(c, keep);
}

proof fn lemma_toon_cut(c: Cursor, keep: int)
    ensures
        survives(c, keep, toon_at(c), toon_at(cut(c, keep))),
{
    reveal(toon_at);
    let tag = u8_at(c);
    lemma_u8_cut(c, keep);
    let tag = tag.check(tag.value() <= 1, "material::toon");
    let body = c.at(tag.next);
    lemma_toon_texture_cut(body, keep);
    lemma_toon_shared_cut(body, keep);
}

proof fn lemma_material_fields_cut(c: Cursor, keep: int)
    ensures
        survives(c, keep, material_fields_at(c), material_fields_at(cut(c, keep))),
{
    reveal(material_fields_at);
    let name = text_at(c);
    lemma_text_cut(c, keep);
    let name_en = text_at(c.at(name.next)).after(name);
    lemma_text_cut(c.at(name.next), keep);
    let diffuse = vec4_at(c.at(name_en.next)).after(name_en);
    lemma_vec4_cut(c.at(name_en.next), keep);
    let specular = vec3_at(c.at(diffuse.next)).after(diffuse);
    lemma_vec3_cut(c.at(diffuse.next), keep);
    let specular_power = binary32_at(c.at(specular.next)).after(specular);
    lemma_binary32_cut(c.at(specular.next), keep);
    let ambient = vec3_at(c.at(specular_power.next)).after(specular_power);
    lemma_vec3_cut(c.at(specular_power.next), keep);
    let flags = u8_at(c.at(ambient.next)).after(ambient);
    lemma_u8_cut(c.at(ambient.next), keep);
    let edge_color = vec4_at(c.at(flags.next)).after(flags);
    lemma_vec4_cut(c.at(flags.next), keep);
    let edge_size = binary32_at(c.at(edge_color.next)).after(edge_color);
    lemma_binary32_cut(c.at(edge_color.next), keep);
    let texture = texture_index_at(c.at(edge_size.next)).after(edge_size);
    lemma_texture_index_cut(c.at(edge_size.next), keep);
    let sphere = texture_index_at(c.at(texture.next)).after(texture);
    lemma_texture_index_cut(c.at(texture.next), keep);
    let sphere_mode = sphere_mode_at(c.at(sphere.next)).after(sphere);
    lemma_sphere_mode_cut(c.at(sphere.next), keep);
    let toon = toon_at(c.at(sphere_mode.next)).after(sphere_mode);
    lemma_toon_cut(c.at(sphere_mode.next), keep);
    let memo = text_at(c.at(toon.next)).after(toon);
    lemma_text_cut(c.at(toon.next), keep);
    lemma_u32_cut(c.at(memo.next), keep);
}

proof fn lemma_material_cut(c: Cursor, keep: int)
    ensures
        survives(c, keep, material_at(c), material_at(cut(c, keep))),
{
    reveal(material_at);
    lemma_material_fields_cut(c, keep);
}

proof fn lemma_material_items_cut(keep: int)
    ensures
        cut_safe(material_items(), keep),
{
    assert forall|d: Cursor| #[trigger] survives(
        d,
        keep,
        material_items()(d),
        material_items()(cut(d, keep)),
    ) by {
        lemma_material_cut(d, keep);
    }
}

proof fn lemma_materials_cut(c: Cursor, keep: int)
    ensures
        survives(c, keep, materials_at(c), materials_at(cut(c, keep))),
{
    reveal(materials_at);
    lemma_material_items_cut(keep);
    lemma_counted_cut(c, material_items(), keep);
}

proof fn lemma_connected_to_cut(c: Cursor, flags: u16, keep: int)
    ensures
        survives(c, keep, connected_to_at(c, flags), connected_to_at(cut(c, keep), flags)),
{
    reveal(connected_to_at);
    lemma_bone_index_cut(c, keep);
    lemma_vec3_cut(c, keep);
}

proof fn lemma_inherited_cut(c: Cursor, flags: u16, keep: int)
    ensures
        survives(c, keep, inherited_at(c, flags), inherited_at(cut(c, keep), flags)),
{
    reveal(inherited_at);
    let bone = bone_index_at(c);
    lemma_bone_index_cut(c, keep);
    lemma_binary32_cut(c.at(bone.next), keep);
}

proof fn lemma_addition_cut(c: Cursor, flags: u16, keep: int)
    ensures
        survives(c, keep, addition_at(c, flags), addition_at(cut(c, keep), flags)),
{
    reveal(addition_at);
    lemma_inherited_cut(c, flags, keep);
}

proof fn lemma_fixed_pole_cut(c: Cursor, flags: u16, keep: int)
    ensures
        survives(c, keep, fixed_pole_at(c, flags), fixed_pole_at(cut(c, keep), flags)),
{
    reveal(fixed_pole_at);
    lemma_vec3_cut(c, keep);
}

proof fn lemma_axes_cut(c: Cursor, keep: int)
    ensures
        survives(c, keep, axes_at(c), axes_at(cut(c, keep))),
{
    reveal(axes_at);
    let x = vec3_at(c);
    lemma_vec3_cut(c, keep);
    lemma_vec3_cut(c.at(x.next), keep);
}

proof fn lemma_local_pole_cut(c: Cursor, flags: u16, keep: int)
    ensures
        survives(c, keep, local_pole_at(c, flags), local_pole_at(cut(c, keep), flags)),
{
    reveal(local_pole_at);
    lemma_axes_cut(c, keep);
}

proof fn lemma_external_parent_cut(c: Cursor, flags: u16, keep: int)
    ensures
        survives(c, keep, external_parent_at(c, flags), external_parent_at(cut(c, keep), flags)),
{
    reveal(external_parent_at);
    lemma_i32_cut(c, keep);
}

proof fn lemma_angle_limit_cut(c: Cursor, keep: int)
    ensures
        survives(c, keep, angle_limit_at(c), angle_limit_at(cut(c, keep))),
{
    reveal(angle_limit_at);
    let lower = vec3_at(c);
    lemma_vec3_cut(c, keep);
    lemma_vec3_cut(c.at(lower.next), keep);
}

proof fn lemma_ik_link_cut(c: Cursor, keep: int)
    ensures
        survives(c, keep, ik_link_at(c), ik_link_at(cut(c, keep))),
{
    reveal(ik_link_at);
    let bone = bone_index_at(c);
    lemma_bone_index_cut(c, keep);
    let limited = u8_at(c.at(bone.next)).after(bone);
    lemma_u8_cut(c.at(bone.next), keep);
    lemma_angle_limit_cut(c.at(limited.next), keep);
}

proof fn lemma_ik_link_items_cut(keep: int)
    ensures
        cut_safe(ik_link_items(), keep),
{
    assert forall|d: Cursor| #[trigger] survives(
        d,
        keep,
        ik_link_items()(d),
        ik_link_items()(cut(d, keep)),
    ) by {
        lemma_ik_link_cut(d, keep);
    }
}

proof fn lemma_ik_cut(c: Cursor, keep: int)
    ensures
        survives(c, keep, ik_at(c), ik_at(cut(c, keep))),
{
    reveal(ik_at);
    let bone = bone_index_at(c);
    lemma_bone_index_cut(c, keep);
    let loop_count = u32_at(c.at(bone.next)).after(bone);
    lemma_u32_cut(c.at(bone.next), keep);
    let angle = binary32_at(c.at(loop_count.next)).after(loop_count);
    lemma_binary32_cut(c.at(loop_count.next), keep);
    lemma_ik_link_items_cut(keep);
    lemma_counted_cut(c.at(angle.next), ik_link_items(), keep);
}

proof fn lemma_ik_part_cut(c: Cursor, flags: u16, keep: int)
    ensures
        survives(c, keep, ik_part_at(c, flags), ik_part_at(cut(c, keep), flags)),
{
    reveal(ik_part_at);
    lemma_ik_cut(c, keep);
}

proof fn lemma_bone_parts_cut(c: Cursor, flags: u16, keep: int)
    ensures
        survives(c, keep, bone_parts_at(c, flags), bone_parts_at(cut(c, keep), flags)),
{
    reveal(bone_parts_at);
    let connected_to = connected_to_at(c, flags);
    lemma_connected_to_cut(c, flags, keep);
    let addition = addition_at(c.at(connected_to.next), flags).after(connected_to);
    lemma_addition_cut(c.at(connected_to.next), flags, keep);
    let fixed_pole = fixed_pole_at(c.at(addition.next), flags).after(addition);
    lemma_fixed_pole_cut(c.at(addition.next), flags, keep);
    let local_pole = local_pole_at(c.at(fixed_pole.next), flags).after(fixed_pole);
    lemma_local_pole_cut(c.at(fixed_pole.next), flags, keep);
    let external_parent = external_parent_at(c.at(local_pole.next), flags).after(local_pole);
    lemma_external_parent_cut(c.at(local_pole.next), flags, keep);
    lemma_ik_part_cut(c.at(external_parent.next), flags, keep);
}

proof fn lemma_bone_cut(c: Cursor, keep: int)
    ensures
        survives(c, keep, bone_at(c), bone_at(cut(c, keep))),
{
    reveal(bone_at);
    let name = text_at(c);
    lemma_text_cut(c, keep);
    let name_en = text_at(c.at(name.next)).after(name);
    lemma_text_cut(c.at(name.next), keep);
    let position = vec3_at(c.at(name_en.next)).after(name_en);
    lemma_vec3_cut(c.at(name_en.next), keep);
    let parent = bone_index_at(c.at(position.next)).after(position);
    lemma_bone_index_cut(c.at(position.next), keep);
    let deform_hierarchy = i32_at(c.at(parent.next)).after(parent);
    lemma_i32_cut(c.at(parent.next), keep);
    let flags = u16_at(c.at(deform_hierarchy.next)).after(deform_hierarchy);
    lemma_u16_cut(c.at(deform_hierarchy.next), keep);
    lemma_bone_parts_cut(c.at(flags.next), flags.value(), keep);
}

proof fn lemma_bone_items_cut(keep: int)
    ensures
        cut_safe(bone_items(), keep),
{
    assert forall|d: Cursor| #[trigger] survives(
        d,
        keep,
        bone_items()(d),
        bone_items()(cut(d, keep)),
    ) by {
        lemma_bone_cut(d, keep);
    }
}

proof fn lemma_bones_cut(c: Cursor, keep: int)
    ensures
        survives(c, keep, bones_at(c), bones_at(cut(c, keep))),
{
    reveal(bones_at);
    lemma_bone_items_cut(keep);
    lemma_counted_cut(c, bone_items(), keep);
}

proof fn lemma_panel_cut(c: Cursor, keep: int)
    ensures
        survives(c, keep, panel_at(c), panel_at(cut(c, keep))),
{
    reveal(panel_at);
    lemma_u8_cut(c, keep);
}

proof fn lemma_morph_group_cut(c: Cursor, keep: int)
    ensures
        survives(c, keep, morph_group_at(c), morph_group_at(cut(c, keep))),
{
    reveal(morph_group_at);
    let morph = morph_index_at(c);
    lemma_morph_index_cut(c, keep);
    lemma_binary32_cut(c.at(morph.next), keep);
}

proof fn lemma_morph_group_items_cut(keep: int)
    ensures
        cut_safe(morph_group_items(), keep),
{
    assert forall|d: Cursor| #[trigger] survives(
        d,
        keep,
        morph_group_items()(d),
        morph_group_items()(cut(d, keep)),
    ) by {
        lemma_morph_group_cut(d, keep);
    }
}

proof fn lemma_morph_vertex_cut(c: Cursor, keep: int)
    ensures
        survives(c, keep, morph_vertex_at(c), morph_vertex_at(cut(c, keep))),
{
    reveal(morph_vertex_at);
    let vertex = vertex_index_at(c);
    lemma_vertex_index_cut(c, keep);
    lemma_vec3_cut(c.at(vertex.next), keep);
}

proof fn lemma_morph_vertex_items_cut(keep: int)
    ensures
        cut_safe(morph_vertex_items(), keep),
{
    assert forall|d: Cursor| #[trigger] survives(
        d,
        keep,
        morph_vertex_items()(d),
        morph_vertex_items()(cut(d, keep)),
    ) by {
        lemma_morph_vertex_cut(d, keep);
    }
}

proof fn lemma_morph_bone_cut(c: Cursor, keep: int)
    ensures
        survives(c, keep, morph_bone_at(c), morph_bone_at(cut(c, keep))),
{
    reveal(morph_bone_at);
    let bone = bone_index_at(c);
    lemma_bone_index_cut(c, keep);
    let offset = vec3_at(c.at(bone.next)).after(bone);
    lemma_vec3_cut(c.at(bone.next), keep);
    lemma_vec4_cut(c.at(offset.next), keep);
}

proof fn lemma_morph_bone_items_cut(keep: int)
    ensures
        cut_safe(morph_bone_items(), keep),
{
    assert forall|d: Cursor| #[trigger] survives(
        d,
        keep,
        morph_bone_items()(d),
        morph_bone_items()(cut(d, keep)),
    ) by {
        lemma_morph_bone_cut(d, keep);
    }
}

proof fn lemma_morph_uv_cut(c: Cursor, keep: int)
    ensures
        survives(c, keep, morph_uv_at(c), morph_uv_at(cut(c, keep))),
{
    reveal(morph_uv_at);
    let vertex = vertex_index_at(c);
    lemma_vertex_index_cut(c, keep);
    lemma_vec4_cut(c.at(vertex.next), keep);
}

proof fn lemma_morph_uv_items_cut(keep: int)
    ensures
        cut_safe(morph_uv_items(), keep),
{
    assert forall|d: Cursor| #[trigger] survives(
        d,
        keep,
        morph_uv_items()(d),
        morph_uv_items()(cut(d, keep)),
    ) by {
        lemma_morph_uv_cut(d, keep);
    }
}

proof fn lemma_material_op_cut(c: Cursor, keep: int)
    ensures
        survives(c, keep, material_op_at(c), material_op_at(cut(c, keep))),
{
    reveal(material_op_at);
    lemma_u8_cut(c, keep);
}

proof fn lemma_morph_material_cut(c: Cursor, keep: int)
    ensures
        survives(c, keep, morph_material_at(c), morph_material_at(cut(c, keep))),
{
    reveal(morph_material_at);
    let material = material_index_at(c);
    lemma_material_index_cut(c, keep);
    let op = material_op_at(c.at(material.next)).after(material);
    lemma_material_op_cut(c.at(material.next), keep);
    let diffuse = vec4_at(c.at(op.next)).after(op);
    lemma_vec4_cut(c.at(op.next), keep);
    let specular = vec3_at(c.at(diffuse.next)).after(diffuse);
    lemma_vec3_cut(c.at(diffuse.next), keep);
    let specular_power = binary32_at(c.at(specular.next)).after(specular);
    lemma_binary32_cut(c.at(specular.next), keep);
    let ambient = vec3_at(c.at(specular_power.next)).after(specular_power);
    lemma_vec3_cut(c.at(specular_power.next), keep);
    let edge_color = vec4_at(c.at(ambient.next)).after(ambient);
    lemma_vec4_cut(c.at(ambient.next), keep);
    let edge_size = binary32_at(c.at(edge_color.next)).after(edge_color);
    lemma_binary32_cut(c.at(edge_color.next), keep);
    let texture = vec4_at(c.at(edge_size.next)).after(edge_size);
    lemma_vec4_cut(c.at(edge_size.next), keep);
    let sphere = vec4_at(c.at(texture.next)).after(texture);
    lemma_vec4_cut(c.at(texture.next), keep);
    lemma_vec4_cut(c.at(sphere.next), keep);
}

proof fn lemma_morph_material_items_cut(keep: int)
    ensures
        cut_safe(morph_material_items(), keep),
{
    assert forall|d: Cursor| #[trigger] survives(
        d,
        keep,
        morph_material_items()(d),
        morph_material_items()(cut(d, keep)),
    ) by {
        lemma_morph_material_cut(d, keep);
    }
}

proof fn lemma_kind_cut(c: Cursor, tag: u8, len: u32, keep: int)
    ensures
        survives(c, keep, kind_at(c, tag, len), kind_at(cut(c, keep), tag, len)),
{
    reveal(kind_at);
    lemma_morph_group_items_cut(keep);
    lemma_repeat_cut(morph_group_items(), c, len as nat, keep);
    lemma_morph_vertex_items_cut(keep);
    lemma_repeat_cut(morph_vertex_items(), c, len as nat, keep);
    lemma_morph_bone_items_cut(keep);
    lemma_repeat_cut(morph_bone_items(), c, len as nat, keep);
    lemma_morph_uv_items_cut(keep);
    lemma_repeat_cut(morph_uv_items(), c, len as nat, keep);
    lemma_morph_material_items_cut(keep);
    lemma_repeat_cut(morph_material_items(), c, len as nat, keep);
}

proof fn lemma_morph_cut(c: Cursor, keep: int)
    ensures
        survives(c, keep, morph_at(c), morph_at(cut(c, keep))),
{
    reveal(morph_at);
    let name = text_at(c);
    lemma_text_cut(c, keep);
    let name_en = text_at(c.at(name.next)).after(name);
    lemma_text_cut(c.at(name.next), keep);
    let panel = panel_at(c.at(name_en.next)).after(name_en);
    lemma_panel_cut(c.at(name_en.next), keep);
    let tag = u8_at(c.at(panel.next)).after(panel);
    lemma_u8_cut(c.at(panel.next), keep);
    let len = u32_at(c.at(tag.next)).after(tag);
    lemma_u32_cut(c.at(tag.next), keep);
    lemma_kind_cut(c.at(len.next), tag.value(), len.value(), keep);
}

proof fn lemma_morph_items_cut(keep: int)
    ensures
        cut_safe(morph_items(), keep),
{
    assert forall|d: Cursor| #[trigger] survives(
        d,
        keep,
        morph_items()(d),
        morph_items()(cut(d, keep)),
    ) by {
        lemma_morph_cut(d, keep);
    }
}

proof fn lemma_morphs_cut(c: Cursor, keep: int)
    ensures
        survives(c, keep, morphs_at(c), morphs_at(cut(c, keep))),
{
    reveal(morphs_at);
    lemma_morph_items_cut(keep);
    lemma_counted_cut(c, morph_items(), keep);
}

proof fn lemma_display_bone_cut(c: Cursor, keep: int)
    ensures
        survives(c, keep, display_bone_at(c), display_bone_at(cut(c, keep))),
{
    reveal(display_bone_at);
    lemma_bone_index_cut(c, keep);
}

proof fn lemma_display_morph_cut(c: Cursor, keep: int)
    ensures
        survives(c, keep, display_morph_at(c), display_morph_at(cut(c, keep))),
{
    reveal(display_morph_at);
    lemma_morph_index_cut(c, keep);
}

proof fn lemma_display_element_cut(c: Cursor, keep: int)
    ensures
        survives(c, keep, display_element_at(c), display_element_at(cut(c, keep))),
{
    reveal(display_element_at);
    let tag = u8_at(c);
    lemma_u8_cut(c, keep);
    let tag = tag.check(tag.value() <= 1, "display_group::elements");
    let body = c.at(tag.next);
    lemma_display_bone_cut(body, keep);
    lemma_display_morph_cut(body, keep);
}

proof fn lemma_display_element_items_cut(keep: int)
    ensures
        cut_safe(display_element_items(), keep),
{
    assert forall|d: Cursor| #[trigger] survives(
        d,
        keep,
        display_element_items()(d),
        display_element_items()(cut(d, keep)),
    ) by {
        lemma_display_element_cut(d, keep);
    }
}

proof fn lemma_display_group_cut(c: Cursor, keep: int)
    ensures
        survives(c, keep, display_group_at(c), display_group_at(cut(c, keep))),
{
    reveal(display_group_at);
    let name = text_at(c);
    lemma_text_cut(c, keep);
    let name_en = text_at(c.at(name.next)).after(name);
    lemma_text_cut(c.at(name.next), keep);
    let special = u8_at(c.at(name_en.next)).after(name_en);
    lemma_u8_cut(c.at(name_en.next), keep);
    lemma_display_element_items_cut(keep);
    lemma_counted_cut(c.at(special.next), display_element_items(), keep);
}

proof fn lemma_display_group_items_cut(keep: int)
    ensures
        cut_safe(display_group_items(), keep),
{
    assert forall|d: Cursor| #[trigger] survives(
        d,
        keep,
        display_group_items()(d),
        display_group_items()(cut(d, keep)),
    ) by {
        lemma_display_group_cut(d, keep);
    }
}

proof fn lemma_display_groups_cut(c: Cursor, keep: int)
    ensures
        survives(c, keep, display_groups_at(c), display_groups_at(cut(c, keep))),
{
    reveal(display_groups_at);
    lemma_display_group_items_cut(keep);
    lemma_counted_cut(c, display_group_items(), keep);
}

proof fn lemma_shape_cut(c: Cursor, keep: int)
    ensures
        survives(c, keep, shape_at(c), shape_at(cut(c, keep))),
{
    reveal(shape_at);
    lemma_u8_cut(c, keep);
}

proof fn lemma_method_cut(c: Cursor, keep: int)
    ensures
        survives(c, keep, method_at(c), method_at(cut(c, keep))),
{
    reveal(method_at);
    lemma_u8_cut(c, keep);
}

proof fn lemma_rigid_cut(c: Cursor, keep: int)
    ensures
        survives(c, keep, rigid_at(c), rigid_at(cut(c, keep))),
{
    reveal(rigid_at);
    let name = text_at(c);
    lemma_text_cut(c, keep);
    let name_en = text_at(c.at(name.next)).after(name);
    lemma_text_cut(c.at(name.next), keep);
    let bone = bone_index_at(c.at(name_en.next)).after(name_en);
    lemma_bone_index_cut(c.at(name_en.next), keep);
    let group = u8_at(c.at(bone.next)).after(bone);
    lemma_u8_cut(c.at(bone.next), keep);
    let non_collision_groups = u16_at(c.at(group.next)).after(group);
    lemma_u16_cut(c.at(group.next), keep);
    let shape = shape_at(c.at(non_collision_groups.next)).after(non_collision_groups);
    lemma_shape_cut(c.at(non_collision_groups.next), keep);
    let size = vec3_at(c.at(shape.next)).after(shape);
    lemma_vec3_cut(c.at(shape.next), keep);
    let position = vec3_at(c.at(size.next)).after(size);
    lemma_vec3_cut(c.at(size.next), keep);
    let rotation = vec3_at(c.at(position.next)).after(position);
    lemma_vec3_cut(c.at(position.next), keep);
    let mass = binary32_at(c.at(rotation.next)).after(rotation);
    lemma_binary32_cut(c.at(rotation.next), keep);
    let dump_translation = binary32_at(c.at(mass.next)).after(mass);
    lemma_binary32_cut(c.at(mass.next), keep);
    let dump_rotation = binary32_at(c.at(dump_translation.next)).after(dump_translation);
    lemma_binary32_cut(c.at(dump_translation.next), keep);
    let repulsive = binary32_at(c.at(dump_rotation.next)).after(dump_rotation);
    lemma_binary32_cut(c.at(dump_rotation.next), keep);
    let friction = binary32_at(c.at(repulsive.next)).after(repulsive);
    lemma_binary32_cut(c.at(repulsive.next), keep);
    lemma_method_cut(c.at(friction.next), keep);
}

proof fn lemma_rigid_items_cut(keep: int)
    ensures
        cut_safe(rigid_items(), keep),
{
    assert forall|d: Cursor| #[trigger] survives(
        d,
        keep,
        rigid_items()(d),
        rigid_items()(cut(d, keep)),
    ) by {
        lemma_rigid_cut(d, keep);
    }
}

proof fn lemma_rigids_cut(c: Cursor, keep: int)
    ensures
        survives(c, keep, rigids_at(c), rigids_at(cut(c, keep))),
{
    reveal(rigids_at);
    lemma_rigid_items_cut(keep);
    lemma_counted_cut(c, rigid_items(), keep);
}

proof fn lemma_joint_cut(c: Cursor, keep: int)
    ensures
        survives(c, keep, joint_at(c), joint_at(cut(c, keep))),
{
    reveal(joint_at);
    let name = text_at(c);
    lemma_text_cut(c, keep);
    let name_en = text_at(c.at(name.next)).after(name);
    lemma_text_cut(c.at(name.next), keep);
    let kind = u8_at(c.at(name_en.next)).after(name_en);
    lemma_u8_cut(c.at(name_en.next), keep);
    let kind = kind.check(kind.value() == 0, "joint::type");
    let first = rigid_index_at(c.at(kind.next)).after(kind);
    lemma_rigid_index_cut(c.at(kind.next), keep);
    let second = rigid_index_at(c.at(first.next)).after(first);
    lemma_rigid_index_cut(c.at(first.next), keep);
    let position = vec3_at(c.at(second.next)).after(second);
    lemma_vec3_cut(c.at(second.next), keep);
    let rotation = vec3_at(c.at(position.next)).after(position);
    lemma_vec3_cut(c.at(position.next), keep);
    let limit_translation = angle_limit_at(c.at(rotation.next)).after(rotation);
    lemma_angle_limit_cut(c.at(rotation.next), keep);
    let limit_rotation = angle_limit_at(c.at(limit_translation.next)).after(limit_translation);
    lemma_angle_limit_cut(c.at(limit_translation.next), keep);
    let spring_translation = vec3_at(c.at(limit_rotation.next)).after(limit_rotation);
    lemma_vec3_cut(c.at(limit_rotation.next), keep);
    lemma_vec3_cut(c.at(spring_translation.next), keep);
}

proof fn lemma_joint_items_cut(keep: int)
    ensures
        cut_safe(joint_items(), keep),
{
    assert forall|d: Cursor| #[trigger] survives(
        d,
        keep,
        joint_items()(d),
        joint_items()(cut(d, keep)),
    ) by {
        lemma_joint_cut(d, keep);
    }
}

proof fn lemma_joints_cut(c: Cursor, keep: int)
    ensures
        survives(c, keep, joints_at(c), joints_at(cut(c, keep))),
{
    reveal(joints_at);
    lemma_joint_items_cut(keep);
    lemma_counted_cut(c, joint_items(), keep);
}

proof fn lemma_pmx_cut(c: Cursor, keep: int)
    ensures
        survives(c, keep, pmx_at(c), pmx_at(cut(c, keep))),
{
    reveal(pmx_at);
    let header = header_at(c);
    lemma_header_cut(c, keep);
    let body = c.laid_out(header.value().layout());
    let model_info = model_info_at(body.at(header.next)).after(header);
    lemma_model_info_cut(body.at(header.next), keep);
    let vertices = vertices_at(body.at(model_info.next)).after(model_info);
    lemma_vertices_cut(body.at(model_info.next), keep);
    let faces = faces_at(body.at(vertices.next)).after(vertices);
    lemma_faces_cut(body.at(vertices.next), keep);
    let textures = textures_at(body.at(faces.next)).after(faces);
    lemma_textures_cut(body.at(faces.next), keep);
    let materials = materials_at(body.at(textures.next)).after(textures);
    lemma_materials_cut(body.at(textures.next), keep);
    let bones = bones_at(body.at(materials.next)).after(materials);
    lemma_bones_cut(body.at(materials.next), keep);
    let morphs = morphs_at(body.at(bones.next)).after(bones);
    lemma_morphs_cut(body.at(bones.next), keep);
    let display_groups = display_groups_at(body.at(morphs.next)).after(morphs);
    lemma_display_groups_cut(body.at(morphs.next), keep);
    let rigids = rigids_at(body.at(display_groups.next)).after(display_groups);
    lemma_rigids_cut(body.at(display_groups.next), keep);
    lemma_joints_cut(body.at(rigids.next), keep);
}

/// Decoding a model survives a cut of the input, wherever decoding starts.
pub proof fn lemma_model_survives_cut(c: Cursor, keep: int)
    ensures
        survives(c, keep, pmx_at(c), pmx_at(cut(c, keep))),
{
    lemma_pmx_cut(c, keep);
}

/// An input that is cut short anywhere in front of the place where its model
/// ends gives no model, and the error is one of the input: no cut makes an
/// error of structure out of a model that decodes.
pub proof fn lemma_truncated_model(bytes: Seq<u8>, keep: int)
    requires
        decoded_model(bytes) is Ok,
        0 <= keep < pmx_at(Cursor { layout: Layout::initial(), bytes, pos: 0 }).next,
    ensures
        decoded_model(bytes.take(keep)) == Err::<crate::model::PmxView, Error>(
            Error::end_of_input(),
        ),
{
    let c = Cursor { layout: Layout::initial(), bytes, pos: 0 };
    lemma_pmx_cut(c, keep);
    lemma_pmx_cut(c, bytes.len() as int);
    assert(bytes.take(bytes.len() as int) =~= bytes);
}

/// What stands in the input behind the place where decoding stopped has no
/// part in the outcome.
pub proof fn lemma_rest_of_input_ignored(bytes: Seq<u8>, keep: int)
    requires
        pmx_at(Cursor { layout: Layout::initial(), bytes, pos: 0 }).next <= keep <= bytes.len(),
    ensures
        decoded_model(bytes.take(keep)) == decoded_model(bytes),
{
    lemma_pmx_cut(Cursor { layout: Layout::initial(), bytes, pos: 0 }, keep);
}

/// Decoding stops within the input, at or behind the place where it began.
pub proof fn lemma_stops_within_input(c: Cursor)
    requires
        c.valid(),
    ensures
        c.pos <= pmx_at(c).next <= c.bytes.len(),
{
    lemma_pmx_cut(c, c.bytes.len() as int);
}

/// Decoding fails for the sake of a field or because the input ended, and
/// for no other reason: no input is refused for its version.
pub proof fn lemma_errors_of_decoding(bytes: Seq<u8>)
    ensures
        decoded_model(bytes) matches Err(error) ==> error is InvalidData || error
            == Error::end_of_input(),
        decoded_model(bytes) != Err::<crate::model::PmxView, Error>(Error::UnsupportedVersion),
{
    lemma_pmx_cut(Cursor { layout: Layout::initial(), bytes, pos: 0 }, bytes.len() as int);
}

} // verus!
