//! The decoder.
//!
//! A [`Reader`] holds the input and a place in it. Each of its methods
//! decodes one part of the format from that place and leaves the reader
//! where the part ended; its contract says so by the function of
//! [`crate::format`] or [`crate::step`] for that part. A method that fails
//! leaves the reader where decoding stopped.

use crate::error::{Error, IoError};
use crate::format::{
    addition_at, angle_limit_at, axes_at, bdef1_at, bdef2_at, bdef4_at, bone_at, bone_items,
    bone_parts_at, bones_at, connected_to_at,  display_bone_at, display_element_at,
    display_element_items, display_group_at, display_group_items, display_groups_at,
    display_morph_at, encoding_at, external_parent_at, faces_at, fixed_pole_at, header_at, ik_at,
    ik_link_at, ik_link_items, ik_part_at, index_size_at, inherited_at, joint_at, joint_items,
    joints_at, kind_at, layout_after_header, local_pole_at, magic, material_at,
    material_fields_at, material_items,
    material_op_at, materials_at, method_at, model_info_at, morph_at, morph_bone_at,
    morph_bone_items, morph_group_at, morph_group_items, morph_items, morph_material_at,
    morph_material_items, morph_uv_at, morph_uv_items, morph_vertex_at, morph_vertex_items,
    morphs_at, panel_at, pmx_at, rigid_at, rigid_items, rigids_at, sdef_at, shape_at,
    sphere_mode_at, text_items, textures_at, toon_at, toon_shared_at, toon_texture_at, u32_items,
    vec4_items, vertex_at, vertex_items, vertices_at, weight_at, decoded_model, ADD_ROTATION,
    ADD_TRANSLATION, AFTER_PHYSICS, BOTH, CONNECTED, EDGE, EXTERNAL_PARENT, FIXED_POLE,
    GROUND_SHADOW, HEADER_SETTINGS, IK, LINE_DRAW, LOCAL_ADDITION, LOCAL_POLE, OPERABLE,
    POINT_DRAW, ROTATABLE, SELF_SHADOW, SELF_SHADOW_MAP, TRANSLATABLE, VERTEX_COLOR, VISIBLE,
};
use crate::laws::lemma_model_wf;
use crate::model::{
    index_width, views, Addition, AngleLimit, Bdef1, Bdef2, Bdef4, Bone, ConnectedTo,
    DisplayElement, DisplayGroup, Encoding, Header, Ik, IkLink, Joint, Layout, LocalPole,
    Material, ModelInfo, Morph, Panel, Pmx, Rigid, Sdef, SphereMode, Toon, Vertex, Weight,
};
use crate::morph::{Kind, MaterialOp};
use crate::rigid::{Method, Shape};
use crate::step::{
    bin_at, binary32_at, binary32_items, bone_index_at, i32_at, lemma_repeat_failure,
    material_index_at, morph_index_at, repeat, rigid_index_at, signed_index_at, text_at,
    texture_index_at, u16_at, u32_at, u8_at, vec2_at, vec3_at, vec4_at, vector_at,
    vertex_index_at, Cursor, Step,
};
use crate::text::decode;
use crate::wire::{
    i32_from_le, signed_index_from_le, u16_from_le, u32_from_le, vertex_index_from_le, Binary32,
    Vec2, Vec3, Vec4,
};
use vstd::prelude::*;
use vstd::slice::slice_subrange;

verus! {

/// A decoder over an input that it holds whole.
pub struct Reader {
    data: Vec<u8>,
    pos: usize,
    layout: Layout,
}

impl View for Reader {
    type V = Cursor;

    closed spec fn view(&self) -> Cursor {
        Cursor { layout: self.layout, bytes: self.data@, pos: self.pos as int }
    }
}

impl Reader {
    #[verifier::type_invariant]
    spec fn within_input(&self) -> bool {
        self.pos <= self.data.len()
    }

    /// A reader at the start of `data`. Until a header says otherwise it takes
    /// texts for UTF-16 and vertices to have no additional UV channels; the
    /// widths of the references are not set.
    pub fn new(data: Vec<u8>) -> (reader: Reader)
        ensures
            reader@ == (Cursor { layout: Layout::initial(), bytes: data@, pos: 0 }),
    {
        Reader { data, pos: 0, layout: Layout::initial() }
    }

    /// Lays the rest of the input out as `header` says.
    pub fn configure(&mut self, header: &Header)
        ensures
            final(self)@ == old(self)@.laid_out(header.layout()),
    {
        proof {
            use_type_invariant(&*self);
        }
        self.layout = header.layout();
    }

    /// How many bytes have been read.
    pub fn position(&self) -> (pos: usize)
        ensures
            pos == self@.pos,
            self@.valid(),
    {
        proof {
            use_type_invariant(self);
        }
        self.pos
    }

    /// Takes the next `N` bytes.
    pub fn read_bin<const N: usize>(&mut self) -> (r: Result<[u8; N], Error>)
        ensures
            bin_at(old(self)@, N as int).yields(r),
            final(self)@ == old(self)@.at(bin_at(old(self)@, N as int).next),
    {
        proof {
            reveal(bin_at);
            use_type_invariant(&*self);
        }
        if N > self.data.len() - self.pos {
            return Err(Error::Io(IoError::UnexpectedEof));
        }
        let mut buffer = [0u8; N];
        let mut i: usize = 0;
        while i < N
            invariant
                i <= N,
                self.pos + N <= self.data.len(),
                forall|j: int| 0 <= j < i ==> buffer[j] == self.data[self.pos + j],
            decreases N - i,
        {
            buffer[i] = self.data[self.pos + i];
            i += 1;
        }
        assert(buffer@ =~= self.data@.subrange(self.pos as int, self.pos + N));
        self.pos = self.pos + N;
        Ok(buffer)
    }

    /// Reads one byte.
    pub fn read_u8(&mut self) -> (r: Result<u8, Error>)
        ensures
            r == u8_at(old(self)@).result,
            final(self)@ == old(self)@.at(u8_at(old(self)@).next),
    {
        proof {
            reveal(u8_at);
        }
        Ok(self.read_bin::<1>()?[0])
    }

    /// Reads an unsigned 16-bit number, least significant byte first.
    pub fn read_u16(&mut self) -> (r: Result<u16, Error>)
        ensures
            r == u16_at(old(self)@).result,
            final(self)@ == old(self)@.at(u16_at(old(self)@).next),
    {
        proof {
            reveal(u16_at);
        }
        Ok(u16_from_le(self.read_bin::<2>()?))
    }

    /// Reads an unsigned 32-bit number, least significant byte first.
    pub fn read_u32(&mut self) -> (r: Result<u32, Error>)
        ensures
            r == u32_at(old(self)@).result,
            final(self)@ == old(self)@.at(u32_at(old(self)@).next),
    {
        proof {
            reveal(u32_at);
        }
        Ok(u32_from_le(self.read_bin::<4>()?))
    }

    /// Reads a signed 32-bit number in two's complement, least significant
    /// byte first.
    pub fn read_i32(&mut self) -> (r: Result<i32, Error>)
        ensures
            r == i32_at(old(self)@).result,
            final(self)@ == old(self)@.at(i32_at(old(self)@).next),
    {
        proof {
            reveal(i32_at);
        }
        Ok(i32_from_le(self.read_bin::<4>()?))
    }

    /// Reads a binary32 number: the four bytes of its bit pattern, least
    /// significant byte first.
    pub fn read_f32(&mut self) -> (r: Result<Binary32, Error>)
        ensures
            r == binary32_at(old(self)@).result,
            final(self)@ == old(self)@.at(binary32_at(old(self)@).next),
    {
        proof {
            reveal(binary32_at);
        }
        Ok(Binary32 { bits: u32_from_le(self.read_bin::<4>()?) })
    }

    /// Reads `N` numbers in a row.
    #[verifier::loop_isolation(false)]
    pub fn read_vec<const N: usize>(&mut self) -> (r: Result<[Binary32; N], Error>)
        ensures
            vector_at(old(self)@, N as nat).yields(r),
            final(self)@ == old(self)@.at(vector_at(old(self)@, N as nat).next),
    {
        proof {
            reveal(vector_at);
        }
        let zero = Binary32 { bits: 0 };
        let mut buffer = [zero; N];
        let ghost mut got: Seq<Binary32> = Seq::empty();
        let mut i: usize = 0;
        while i < N
            invariant
                i <= N,
                self@ == old(self)@.at(self@.pos),
                repeat(binary32_items(), old(self)@, i as nat) == Step::done(got, self@.pos),
                got.len() == i,
                forall|j: int| 0 <= j < i ==> buffer[j] == got[j],
            decreases N - i,
        {
            match self.read_f32() {
                Ok(v) => {
                    buffer[i] = v;
                    proof {
                        got = got.push(v);
                    }
                },
                Err(e) => {
                    proof {
                        lemma_repeat_failure(
                            binary32_items(),
                            old(self)@,
                            (i + 1) as nat,
                            N as nat,
                        );
                    }
                    return Err(e);
                },
            }
            i += 1;
        }
        assert(buffer@ =~= got);
        Ok(buffer)
    }

    /// Reads two numbers in a row.
    pub fn read_vec2(&mut self) -> (r: Result<Vec2, Error>)
        ensures
            r == vec2_at(old(self)@).result,
            final(self)@ == old(self)@.at(vec2_at(old(self)@).next),
    {
        proof {
            reveal(vec2_at);
        }
        let v = self.read_vec::<2>()?;
        assert(v =~= vec2_at(old(self)@).value());
        Ok(v)
    }

    /// Reads three numbers in a row.
    pub fn read_vec3(&mut self) -> (r: Result<Vec3, Error>)
        ensures
            r == vec3_at(old(self)@).result,
            final(self)@ == old(self)@.at(vec3_at(old(self)@).next),
    {
        proof {
            reveal(vec3_at);
        }
        let v = self.read_vec::<3>()?;
        assert(v =~= vec3_at(old(self)@).value());
        Ok(v)
    }

    /// Reads four numbers in a row.
    pub fn read_vec4(&mut self) -> (r: Result<Vec4, Error>)
        ensures
            r == vec4_at(old(self)@).result,
            final(self)@ == old(self)@.at(vec4_at(old(self)@).next),
    {
        proof {
            reveal(vec4_at);
        }
        let v = self.read_vec::<4>()?;
        assert(v =~= vec4_at(old(self)@).value());
        Ok(v)
    }

    /// Reads a text: the number of its bytes, then the bytes.
    pub fn read_string(&mut self) -> (r: Result<String, Error>)
        ensures
            text_at(old(self)@).yields(r),
            final(self)@ == old(self)@.at(text_at(old(self)@).next),
    {
        proof {
            reveal(text_at);
            reveal(bin_at);
        }
        let len = self.read_u32()? as usize;
        proof {
            use_type_invariant(&*self);
        }
        if len > self.data.len() - self.pos {
            return Err(Error::Io(IoError::UnexpectedEof));
        }
        let raw = slice_subrange(self.data.as_slice(), self.pos, self.pos + len);
        let text = decode(self.layout.encoding, raw);
        self.pos = self.pos + len;
        Ok(text)
    }

    /// Reads a reference of `width` bytes as a signed number: a negative one
    /// refers to nothing.
    pub fn read_signed_index(&mut self, width: u8) -> (r: Result<Option<usize>, Error>)
        requires
            index_width(width),
        ensures
            r == signed_index_at(old(self)@, width).result,
            final(self)@ == old(self)@.at(signed_index_at(old(self)@, width).next),
    {
        proof {
            reveal(signed_index_at);
        }
        if width == 1 {
            Ok(signed_index_from_le(self.read_bin::<1>()?))
        } else if width == 2 {
            Ok(signed_index_from_le(self.read_bin::<2>()?))
        } else {
            Ok(signed_index_from_le(self.read_bin::<4>()?))
        }
    }

    /// Reads a reference to a vertex: in one or two bytes it is unsigned and
    /// always refers to something, in four it is signed.
    pub fn read_vertex_index(&mut self) -> (r: Result<Option<usize>, Error>)
        requires
            index_width(old(self)@.layout.vertex),
        ensures
            r == vertex_index_at(old(self)@).result,
            final(self)@ == old(self)@.at(vertex_index_at(old(self)@).next),
    {
        proof {
            reveal(vertex_index_at);
        }
        let width = self.layout.vertex;
        if width == 1 {
            Ok(vertex_index_from_le(self.read_bin::<1>()?))
        } else if width == 2 {
            Ok(vertex_index_from_le(self.read_bin::<2>()?))
        } else {
            Ok(vertex_index_from_le(self.read_bin::<4>()?))
        }
    }

    /// Reads a reference to a texture.
    pub fn read_texture_index(&mut self) -> (r: Result<Option<usize>, Error>)
        requires
            index_width(old(self)@.layout.texture),
        ensures
            r == texture_index_at(old(self)@).result,
            final(self)@ == old(self)@.at(texture_index_at(old(self)@).next),
    {
        proof {
            reveal(texture_index_at);
        }
        let width = self.layout.texture;
        self.read_signed_index(width)
    }

    /// Reads a reference to a material.
    pub fn read_material_index(&mut self) -> (r: Result<Option<usize>, Error>)
        requires
            index_width(old(self)@.layout.material),
        ensures
            r == material_index_at(old(self)@).result,
            final(self)@ == old(self)@.at(material_index_at(old(self)@).next),
    {
        proof {
            reveal(material_index_at);
        }
        let width = self.layout.material;
        self.read_signed_index(width)
    }

    /// Reads a reference to a bone.
    pub fn read_bone_index(&mut self) -> (r: Result<Option<usize>, Error>)
        requires
            index_width(old(self)@.layout.bone),
        ensures
            r == bone_index_at(old(self)@).result,
            final(self)@ == old(self)@.at(bone_index_at(old(self)@).next),
    {
        proof {
            reveal(bone_index_at);
        }
        let width = self.layout.bone;
        self.read_signed_index(width)
    }

    /// Reads a reference to a morph.
    pub fn read_morph_index(&mut self) -> (r: Result<Option<usize>, Error>)
        requires
            index_width(old(self)@.layout.morph),
        ensures
            r == morph_index_at(old(self)@).result,
            final(self)@ == old(self)@.at(morph_index_at(old(self)@).next),
    {
        proof {
            reveal(morph_index_at);
        }
        let width = self.layout.morph;
        self.read_signed_index(width)
    }

    /// Reads a reference to a physics body.
    pub fn read_rigid_index(&mut self) -> (r: Result<Option<usize>, Error>)
        requires
            index_width(old(self)@.layout.rigid),
        ensures
            r == rigid_index_at(old(self)@).result,
            final(self)@ == old(self)@.at(rigid_index_at(old(self)@).next),
    {
        proof {
            reveal(rigid_index_at);
        }
        let width = self.layout.rigid;
        self.read_signed_index(width)
    }

    /// Reads the width of one kind of reference and refuses any but 1, 2, 4.
    pub fn read_index_size(&mut self) -> (r: Result<u8, Error>)
        ensures
            r == index_size_at(old(self)@).result,
            final(self)@ == old(self)@.at(index_size_at(old(self)@).next),
            r matches Ok(width) ==> index_width(width),
    {
        proof {
            reveal(index_size_at);
        }
        let v = self.read_u8()?;
        if v == 1 || v == 2 || v == 4 {
            Ok(v)
        } else {
            Err(Error::InvalidData("read_index_size"))
        }
    }

    /// Reads a lower and an upper bound.
    pub fn angle_limit(&mut self) -> (r: Result<AngleLimit, Error>)
        ensures
            r == angle_limit_at(old(self)@).result,
            final(self)@ == old(self)@.at(angle_limit_at(old(self)@).next),
    {
        proof {
            reveal(angle_limit_at);
        }
        let lower = self.read_vec3()?;
        let upper = self.read_vec3()?;
        Ok(AngleLimit { lower, upper })
    }

    /// Reads how the input spells its texts: 0 stands for UTF-16, 1 for UTF-8.
    pub fn encoding(&mut self) -> (r: Result<Encoding, Error>)
        ensures
            r == encoding_at(old(self)@).result,
            final(self)@ == old(self)@.at(encoding_at(old(self)@).next),
    {
        proof {
            reveal(encoding_at);
        }
        match self.read_u8()? {
            0 => Ok(Encoding::Utf16),
            1 => Ok(Encoding::Utf8),
            _ => Err(Error::InvalidData("header::encoding")),
        }
    }

    /// Reads the head of the input: the magic bytes, the version, and how the
    /// rest is laid out. The version is taken as it comes.
    pub fn header(&mut self) -> (r: Result<Header, Error>)
        ensures
            r == header_at(old(self)@).result,
            final(self)@ == old(self)@.at(header_at(old(self)@).next),
            r matches Ok(header) ==> header.layout().valid(),
    {
        proof {
            reveal(header_at);
        }
        let tag = self.read_bin::<4>()?;
        if tag[0] != 0x50 || tag[1] != 0x4d || tag[2] != 0x58 || tag[3] != 0x20 {
            assert(tag@ != magic()) by {
                assert(magic()[0] == 0x50 && magic()[1] == 0x4d && magic()[2] == 0x58 && magic()[3]
                    == 0x20);
            }
            return Err(Error::InvalidData("magic number"));
        }
        assert(tag@ =~= magic());
        let version = self.read_f32()?;
        let settings = self.read_u8()?;
        if settings != HEADER_SETTINGS {
            return Err(Error::InvalidData("header::bytes"));
        }
        let encoding = self.encoding()?;
        let extended_uv = self.read_u8()?;
        let vertex_index_size = self.read_index_size()?;
        let texture_index_size = self.read_index_size()?;
        let material_index_size = self.read_index_size()?;
        let bone_index_size = self.read_index_size()?;
        let morph_index_size = self.read_index_size()?;
        let rigid_index_size = self.read_index_size()?;
        Ok(
            Header {
                version,
                encoding,
                extended_uv,
                vertex_index_size,
                texture_index_size,
                material_index_size,
                bone_index_size,
                morph_index_size,
                rigid_index_size,
            },
        )
    }

    /// Reads the model's names and comments.
    pub fn model_info(&mut self) -> (r: Result<ModelInfo, Error>)
        ensures
            model_info_at(old(self)@).yields(r),
            final(self)@ == old(self)@.at(model_info_at(old(self)@).next),
    {
        proof {
            reveal(model_info_at);
        }
        let name = self.read_string()?;
        let name_en = self.read_string()?;
        let comment = self.read_string()?;
        let comment_en = self.read_string()?;
        Ok(ModelInfo { name, name_en, comment, comment_en })
    }

    /// Reads how a vertex follows the skeleton: a tag from 0 to 3, then the
    /// weight of the kind that the tag names.
    pub fn weight(&mut self) -> (r: Result<Weight, Error>)
        requires
            index_width(old(self)@.layout.bone),
        ensures
            r == weight_at(old(self)@).result,
            final(self)@ == old(self)@.at(weight_at(old(self)@).next),
    {
        proof {
            reveal(weight_at);
            reveal(bdef1_at);
            reveal(bdef2_at);
            reveal(bdef4_at);
            reveal(sdef_at);
        }
        match self.read_u8()? {
            0 => Ok(Weight::Bdef1(Bdef1 { bone: self.read_bone_index()? })),
            1 => {
                let first = self.read_bone_index()?;
                let second = self.read_bone_index()?;
                let weight = self.read_f32()?;
                Ok(Weight::Bdef2(Bdef2 { bones: [first, second], weight }))
            },
            2 => {
                let first = self.read_bone_index()?;
                let second = self.read_bone_index()?;
                let third = self.read_bone_index()?;
                let fourth = self.read_bone_index()?;
                let weights = self.read_vec4()?;
                Ok(Weight::Bdef4(Bdef4 { bones: [first, second, third, fourth], weights }))
            },
            3 => {
                let first = self.read_bone_index()?;
                let second = self.read_bone_index()?;
                let weight = self.read_f32()?;
                let c = self.read_vec3()?;
                let r0 = self.read_vec3()?;
                let r1 = self.read_vec3()?;
                Ok(Weight::Sdef(Sdef { bones: [first, second], weight, c, r0, r1 }))
            },
            _ => Err(Error::InvalidData("vertex::weight")),
        }
    }

    /// Reads `len` vectors of four numbers.
    #[verifier::loop_isolation(false)]
    fn vec4_run(&mut self, len: u32) -> (r: Result<Vec<Vec4>, Error>)
        ensures
            repeat(vec4_items(), old(self)@, len as nat).yields(r),
            final(self)@ == old(self)@.at(repeat(vec4_items(), old(self)@, len as nat).next),
    {
        let mut items: Vec<Vec4> = Vec::new();
        let mut i: u32 = 0;
        while i < len
            invariant
                i <= len,
                self@ == old(self)@.at(self@.pos),
                repeat(vec4_items(), old(self)@, i as nat) == Step::done(items@, self@.pos),
            decreases len - i,
        {
            match self.read_vec4() {
                Ok(item) => {
                    items.push(item);
                },
                Err(e) => {
                    proof {
                        lemma_repeat_failure(vec4_items(), old(self)@, (i + 1) as nat, len as nat);
                    }
                    return Err(e);
                },
            }
            i += 1;
        }
        Ok(items)
    }

    /// Reads a vertex, with as many additional UV channels as the layout says.
    pub fn vertex(&mut self) -> (r: Result<Vertex, Error>)
        requires
            index_width(old(self)@.layout.bone),
        ensures
            vertex_at(old(self)@).yields(r),
            final(self)@ == old(self)@.at(vertex_at(old(self)@).next),
    {
        proof {
            reveal(vertex_at);
        }
        let position = self.read_vec3()?;
        let normal = self.read_vec3()?;
        let uv = self.read_vec2()?;
        let channels = self.layout.extended_uv;
        let extended_uv = self.vec4_run(channels as u32)?;
        let weight = self.weight()?;
        let edge_ratio = self.read_f32()?;
        Ok(Vertex { position, normal, uv, extended_uv, weight, edge_ratio })
    }

    /// Reads `len` vertices.
    #[verifier::loop_isolation(false)]
    fn vertex_run(&mut self, len: u32) -> (r: Result<Vec<Vertex>, Error>)
        requires
            index_width(old(self)@.layout.bone),
        ensures
            repeat(vertex_items(), old(self)@, len as nat).yields_each(r),
            final(self)@ == old(self)@.at(repeat(vertex_items(), old(self)@, len as nat).next),
    {
        let mut items: Vec<Vertex> = Vec::new();
        assert(views(items@) =~= Seq::empty());
        let mut i: u32 = 0;
        while i < len
            invariant
                i <= len,
                self@ == old(self)@.at(self@.pos),
                repeat(vertex_items(), old(self)@, i as nat) == Step::done(
                    views(items@),
                    self@.pos,
                ),
            decreases len - i,
        {
            match self.vertex() {
                Ok(item) => {
                    assert(views(items@.push(item)) =~= views(items@).push(item@));
                    items.push(item);
                },
                Err(e) => {
                    proof {
                        lemma_repeat_failure(
                            vertex_items(),
                            old(self)@,
                            (i + 1) as nat,
                            len as nat,
                        );
                    }
                    return Err(e);
                },
            }
            i += 1;
        }
        Ok(items)
    }

    /// Reads the vertices: their number, then each.
    pub fn vertices(&mut self) -> (r: Result<Vec<Vertex>, Error>)
        requires
            index_width(old(self)@.layout.bone),
        ensures
            vertices_at(old(self)@).yields_each(r),
            final(self)@ == old(self)@.at(vertices_at(old(self)@).next),
    {
        proof {
            reveal(vertices_at);
        }
        let len = self.read_u32()?;
        self.vertex_run(len)
    }

    /// Reads `len` entries of the face list.
    #[verifier::loop_isolation(false)]
    fn face_run(&mut self, len: u32) -> (r: Result<Vec<u32>, Error>)
        ensures
            repeat(u32_items(), old(self)@, len as nat).yields(r),
            final(self)@ == old(self)@.at(repeat(u32_items(), old(self)@, len as nat).next),
    {
        let mut items: Vec<u32> = Vec::new();
        let mut i: u32 = 0;
        while i < len
            invariant
                i <= len,
                self@ == old(self)@.at(self@.pos),
                repeat(u32_items(), old(self)@, i as nat) == Step::done(items@, self@.pos),
            decreases len - i,
        {
            match self.read_u32() {
                Ok(item) => {
                    items.push(item);
                },
                Err(e) => {
                    proof {
                        lemma_repeat_failure(u32_items(), old(self)@, (i + 1) as nat, len as nat);
                    }
                    return Err(e);
                },
            }
            i += 1;
        }
        Ok(items)
    }

    /// Reads the face list: the number of its entries, then each. Every three
    /// entries are one triangle.
    pub fn faces(&mut self) -> (r: Result<Vec<u32>, Error>)
        ensures
            faces_at(old(self)@).yields(r),
            final(self)@ == old(self)@.at(faces_at(old(self)@).next),
    {
        proof {
            reveal(faces_at);
        }
        let len = self.read_u32()?;
        self.face_run(len)
    }

    /// Reads `len` texture paths.
    #[verifier::loop_isolation(false)]
    fn texture_run(&mut self, len: u32) -> (r: Result<Vec<String>, Error>)
        ensures
            repeat(text_items(), old(self)@, len as nat).yields_each(r),
            final(self)@ == old(self)@.at(repeat(text_items(), old(self)@, len as nat).next),
    {
        let mut items: Vec<String> = Vec::new();
        assert(views(items@) =~= Seq::empty());
        let mut i: u32 = 0;
        while i < len
            invariant
                i <= len,
                self@ == old(self)@.at(self@.pos),
                repeat(text_items(), old(self)@, i as nat) == Step::done(views(items@), self@.pos),
            decreases len - i,
        {
            match self.read_string() {
                Ok(item) => {
                    assert(views(items@.push(item)) =~= views(items@).push(item@));
                    items.push(item);
                },
                Err(e) => {
                    proof {
                        lemma_repeat_failure(text_items(), old(self)@, (i + 1) as nat, len as nat);
                    }
                    return Err(e);
                },
            }
            i += 1;
        }
        Ok(items)
    }

    /// Reads the paths of the texture files: their number, then each.
    pub fn textures(&mut self) -> (r: Result<Vec<String>, Error>)
        ensures
            textures_at(old(self)@).yields_each(r),
            final(self)@ == old(self)@.at(textures_at(old(self)@).next),
    {
        proof {
            reveal(textures_at);
        }
        let len = self.read_u32()?;
        self.texture_run(len)
    }

    /// Reads how a sphere map is laid over a material: a tag from 0 to 3.
    pub fn sphere_mode(&mut self) -> (r: Result<SphereMode, Error>)
        ensures
            r == sphere_mode_at(old(self)@).result,
            final(self)@ == old(self)@.at(sphere_mode_at(old(self)@).next),
    {
        proof {
            reveal(sphere_mode_at);
        }
        match self.read_u8()? {
            0 => Ok(SphereMode::Off),
            1 => Ok(SphereMode::Mul),
            2 => Ok(SphereMode::Add),
            3 => Ok(SphereMode::SubTexture),
            _ => Err(Error::InvalidData("material::sphere_mode")),
        }
    }

    /// Reads where a material takes its toon shading from: a tag, then a
    /// reference to a texture after 0 and the number of a shared toon after 1.
    pub fn toon(&mut self) -> (r: Result<Toon, Error>)
        requires
            index_width(old(self)@.layout.texture),
        ensures
            r == toon_at(old(self)@).result,
            final(self)@ == old(self)@.at(toon_at(old(self)@).next),
    {
        proof {
            reveal(toon_at);
            reveal(toon_texture_at);
            reveal(toon_shared_at);
        }
        match self.read_u8()? {
            0 => Ok(Toon::Texture(self.read_texture_index()?)),
            1 => Ok(Toon::Shared(self.read_u8()? as usize)),
            _ => Err(Error::InvalidData("material::toon")),
        }
    }

    /// Reads a material. One whose index count is no multiple of 3 is refused.
    pub fn material(&mut self) -> (r: Result<Material, Error>)
        requires
            index_width(old(self)@.layout.texture),
        ensures
            material_at(old(self)@).yields(r),
            final(self)@ == old(self)@.at(material_at(old(self)@).next),
            r matches Ok(material) ==> material.index_count % 3 == 0,
    {
        proof {
            reveal(material_at);
            reveal(material_fields_at);
        }
        let name = self.read_string()?;
        let name_en = self.read_string()?;
        let diffuse = self.read_vec4()?;
        let specular = self.read_vec3()?;
        let specular_power = self.read_f32()?;
        let ambient = self.read_vec3()?;
        let flags = self.read_u8()?;
        let both = flags & BOTH == BOTH;
        let ground_shadow = flags & GROUND_SHADOW == GROUND_SHADOW;
        let self_shadow_map = flags & SELF_SHADOW_MAP == SELF_SHADOW_MAP;
        let self_shadow = flags & SELF_SHADOW == SELF_SHADOW;
        let edge = flags & EDGE == EDGE;
        let vertex_color = flags & VERTEX_COLOR == VERTEX_COLOR;
        let point_draw = flags & POINT_DRAW == POINT_DRAW;
        let line_draw = flags & LINE_DRAW == LINE_DRAW;
        let edge_color = self.read_vec4()?;
        let edge_size = self.read_f32()?;
        let texture = self.read_texture_index()?;
        let sphere = self.read_texture_index()?;
        let sphere_mode = self.sphere_mode()?;
        let toon = self.toon()?;
        let memo = self.read_string()?;
        let index_count = self.read_u32()?;
        if index_count % 3 != 0 {
            return Err(Error::InvalidData("material::index_count"));
        }
        Ok(
            Material {
                name,
                name_en,
                diffuse,
                specular,
                specular_power,
                ambient,
                both,
                ground_shadow,
                self_shadow_map,
                self_shadow,
                edge,
                vertex_color,
                point_draw,
                line_draw,
                edge_color,
                edge_size,
                texture,
                sphere,
                sphere_mode,
                toon,
                memo,
                index_count,
            },
        )
    }

    /// Reads `len` materials.
    #[verifier::loop_isolation(false)]
    fn material_run(&mut self, len: u32) -> (r: Result<Vec<Material>, Error>)
        requires
            index_width(old(self)@.layout.texture),
        ensures
            repeat(material_items(), old(self)@, len as nat).yields_each(r),
            final(self)@ == old(self)@.at(repeat(material_items(), old(self)@, len as nat).next),
    {
        let mut items: Vec<Material> = Vec::new();
        assert(views(items@) =~= Seq::empty());
        let mut i: u32 = 0;
        while i < len
            invariant
                i <= len,
                self@ == old(self)@.at(self@.pos),
                repeat(material_items(), old(self)@, i as nat) == Step::done(
                    views(items@),
                    self@.pos,
                ),
            decreases len - i,
        {
            match self.material() {
                Ok(item) => {
                    assert(views(items@.push(item)) =~= views(items@).push(item@));
                    items.push(item);
                },
                Err(e) => {
                    proof {
                        lemma_repeat_failure(
                            material_items(),
                            old(self)@,
                            (i + 1) as nat,
                            len as nat,
                        );
                    }
                    return Err(e);
                },
            }
            i += 1;
        }
        Ok(items)
    }

    /// Reads the materials: their number, then each.
    pub fn materials(&mut self) -> (r: Result<Vec<Material>, Error>)
        requires
            index_width(old(self)@.layout.texture),
        ensures
            materials_at(old(self)@).yields_each(r),
            final(self)@ == old(self)@.at(materials_at(old(self)@).next),
    {
        proof {
            reveal(materials_at);
        }
        let len = self.read_u32()?;
        self.material_run(len)
    }

    /// Reads one link of an IK chain: a bone, a byte, and after the byte 1 the
    /// limits of the link.
    pub fn ik_link(&mut self) -> (r: Result<IkLink, Error>)
        requires
            index_width(old(self)@.layout.bone),
        ensures
            r == ik_link_at(old(self)@).result,
            final(self)@ == old(self)@.at(ik_link_at(old(self)@).next),
    {
        proof {
            reveal(ik_link_at);
        }
        let bone = self.read_bone_index()?;
        let limits = if self.read_u8()? == 1 {
            Some(self.angle_limit()?)
        } else {
            None
        };
        Ok(IkLink { bone, limits })
    }

    /// Reads `len` links of an IK chain.
    #[verifier::loop_isolation(false)]
    fn ik_link_run(&mut self, len: u32) -> (r: Result<Vec<IkLink>, Error>)
        requires
            index_width(old(self)@.layout.bone),
        ensures
            repeat(ik_link_items(), old(self)@, len as nat).yields(r),
            final(self)@ == old(self)@.at(repeat(ik_link_items(), old(self)@, len as nat).next),
    {
        let mut items: Vec<IkLink> = Vec::new();
        let mut i: u32 = 0;
        while i < len
            invariant
                i <= len,
                self@ == old(self)@.at(self@.pos),
                repeat(ik_link_items(), old(self)@, i as nat) == Step::done(items@, self@.pos),
            decreases len - i,
        {
            match self.ik_link() {
                Ok(item) => {
                    items.push(item);
                },
                Err(e) => {
                    proof {
                        lemma_repeat_failure(
                            ik_link_items(),
                            old(self)@,
                            (i + 1) as nat,
                            len as nat,
                        );
                    }
                    return Err(e);
                },
            }
            i += 1;
        }
        Ok(items)
    }

    /// Reads what an IK solver needs to know of a bone: the target, the bounds
    /// on the solver's work, and the chain.
    pub fn ik(&mut self) -> (r: Result<Ik, Error>)
        requires
            index_width(old(self)@.layout.bone),
        ensures
            ik_at(old(self)@).yields(r),
            final(self)@ == old(self)@.at(ik_at(old(self)@).next),
    {
        proof {
            reveal(ik_at);
        }
        let bone = self.read_bone_index()?;
        let loop_count = self.read_u32()?;
        let angle = self.read_f32()?;
        let link_len = self.read_u32()?;
        let links = self.ik_link_run(link_len)?;
        Ok(Ik { bone, loop_count, angle, links })
    }

    /// Reads where a bone's tip points: a reference to a bone where the flag
    /// word says so, else an offset.
    pub fn connected_to(&mut self, flags: u16) -> (r: Result<ConnectedTo, Error>)
        requires
            index_width(old(self)@.layout.bone),
        ensures
            r == connected_to_at(old(self)@, flags).result,
            final(self)@ == old(self)@.at(connected_to_at(old(self)@, flags).next),
    {
        proof {
            reveal(connected_to_at);
        }
        if flags & CONNECTED == CONNECTED {
            Ok(ConnectedTo::Bone(self.read_bone_index()?))
        } else {
            Ok(ConnectedTo::Offset(self.read_vec3()?))
        }
    }

    /// Reads what a bone takes over from another, where the flag word says
    /// that it takes over rotation or translation.
    pub fn addition(&mut self, flags: u16) -> (r: Result<Option<Addition>, Error>)
        requires
            index_width(old(self)@.layout.bone),
        ensures
            r == addition_at(old(self)@, flags).result,
            final(self)@ == old(self)@.at(addition_at(old(self)@, flags).next),
    {
        proof {
            reveal(addition_at);
            reveal(inherited_at);
        }
        let rotation = flags & ADD_ROTATION == ADD_ROTATION;
        let translation = flags & ADD_TRANSLATION == ADD_TRANSLATION;
        if !(rotation || translation) {
            Ok(None)
        } else {
            let local = flags & LOCAL_ADDITION == LOCAL_ADDITION;
            let bone = self.read_bone_index()?;
            let ratio = self.read_f32()?;
            Ok(Some(Addition { rotation, translation, local, bone, ratio }))
        }
    }

    /// Reads the axis that a bone turns about, where the flag word announces
    /// one.
    pub fn fixed_pole(&mut self, flags: u16) -> (r: Result<Option<Vec3>, Error>)
        ensures
            r == fixed_pole_at(old(self)@, flags).result,
            final(self)@ == old(self)@.at(fixed_pole_at(old(self)@, flags).next),
    {
        proof {
            reveal(fixed_pole_at);
        }
        if flags & FIXED_POLE == FIXED_POLE {
            Ok(Some(self.read_vec3()?))
        } else {
            Ok(None)
        }
    }

    /// Reads a bone's own axes, where the flag word announces them.
    pub fn local_pole(&mut self, flags: u16) -> (r: Result<Option<LocalPole>, Error>)
        ensures
            r == local_pole_at(old(self)@, flags).result,
            final(self)@ == old(self)@.at(local_pole_at(old(self)@, flags).next),
    {
        proof {
            reveal(local_pole_at);
            reveal(axes_at);
        }
        if flags & LOCAL_POLE == LOCAL_POLE {
            let x = self.read_vec3()?;
            let z = self.read_vec3()?;
            Ok(Some(LocalPole { x, z }))
        } else {
            Ok(None)
        }
    }

    /// Reads the key of a parent outside the model, where the flag word
    /// announces one. A negative key stands for no parent.
    pub fn external_parent(&mut self, flags: u16) -> (r: Result<Option<usize>, Error>)
        ensures
            r == external_parent_at(old(self)@, flags).result,
            final(self)@ == old(self)@.at(external_parent_at(old(self)@, flags).next),
    {
        proof {
            reveal(external_parent_at);
        }
        if flags & EXTERNAL_PARENT == EXTERNAL_PARENT {
            let key = self.read_i32()?;
            if key >= 0 {
                Ok(Some(key as usize))
            } else {
                Ok(None)
            }
        } else {
            Ok(None)
        }
    }

    /// Reads a bone. Of the parts that its flag word can announce, it reads
    /// those that the word does announce, and no byte for the others.
    pub fn bone(&mut self) -> (r: Result<Bone, Error>)
        requires
            index_width(old(self)@.layout.bone),
        ensures
            bone_at(old(self)@).yields(r),
            final(self)@ == old(self)@.at(bone_at(old(self)@).next),
    {
        proof {
            reveal(bone_at);
            reveal(bone_parts_at);
            reveal(ik_part_at);
        }
        let name = self.read_string()?;
        let name_en = self.read_string()?;
        let position = self.read_vec3()?;
        let parent = self.read_bone_index()?;
        let deform_hierarchy = self.read_i32()?;
        let flags = self.read_u16()?;
        let connected_to = self.connected_to(flags)?;
        let rotatable = flags & ROTATABLE == ROTATABLE;
        let translatable = flags & TRANSLATABLE == TRANSLATABLE;
        let visibility = flags & VISIBLE == VISIBLE;
        let operable = flags & OPERABLE == OPERABLE;
        let addition = self.addition(flags)?;
        let fixed_pole = self.fixed_pole(flags)?;
        let local_pole = self.local_pole(flags)?;
        let after_physics = flags & AFTER_PHYSICS == AFTER_PHYSICS;
        let external_parent = self.external_parent(flags)?;
        let ik = if flags & IK == IK {
            Some(self.ik()?)
        } else {
            None
        };
        Ok(
            Bone {
                name,
                name_en,
                position,
                parent,
                deform_hierarchy,
                connected_to,
                rotatable,
                translatable,
                visibility,
                operable,
                ik,
                addition,
                after_physics,
                fixed_pole,
                local_pole,
                external_parent,
            },
        )
    }

    /// Reads `len` bones.
    #[verifier::loop_isolation(false)]
    fn bone_run(&mut self, len: u32) -> (r: Result<Vec<Bone>, Error>)
        requires
            index_width(old(self)@.layout.bone),
        ensures
            repeat(bone_items(), old(self)@, len as nat).yields_each(r),
            final(self)@ == old(self)@.at(repeat(bone_items(), old(self)@, len as nat).next),
    {
        let mut items: Vec<Bone> = Vec::new();
        assert(views(items@) =~= Seq::empty());
        let mut i: u32 = 0;
        while i < len
            invariant
                i <= len,
                self@ == old(self)@.at(self@.pos),
                repeat(bone_items(), old(self)@, i as nat) == Step::done(views(items@), self@.pos),
            decreases len - i,
        {
            match self.bone() {
                Ok(item) => {
                    assert(views(items@.push(item)) =~= views(items@).push(item@));
                    items.push(item);
                },
                Err(e) => {
                    proof {
                        lemma_repeat_failure(bone_items(), old(self)@, (i + 1) as nat, len as nat);
                    }
                    return Err(e);
                },
            }
            i += 1;
        }
        Ok(items)
    }

    /// Reads the bones: their number, then each.
    pub fn bones(&mut self) -> (r: Result<Vec<Bone>, Error>)
        requires
            index_width(old(self)@.layout.bone),
        ensures
            bones_at(old(self)@).yields_each(r),
            final(self)@ == old(self)@.at(bones_at(old(self)@).next),
    {
        proof {
            reveal(bones_at);
        }
        let len = self.read_u32()?;
        self.bone_run(len)
    }

    /// Reads the part of the face that a morph is listed under: a tag from 0 to 4.
    pub fn panel(&mut self) -> (r: Result<Panel, Error>)
        ensures
            r == panel_at(old(self)@).result,
            final(self)@ == old(self)@.at(panel_at(old(self)@).next),
    {
        proof {
            reveal(panel_at);
        }
        match self.read_u8()? {
            0 => Ok(Panel::Reserved),
            1 => Ok(Panel::Eyebrow),
            2 => Ok(Panel::Eye),
            3 => Ok(Panel::Mouth),
            4 => Ok(Panel::Other),
            _ => Err(Error::InvalidData("morph::panel")),
        }
    }

    /// Reads a share of another morph.
    pub fn morph_group(&mut self) -> (r: Result<crate::morph::Group, Error>)
        requires
            index_width(old(self)@.layout.morph),
        ensures
            r == morph_group_at(old(self)@).result,
            final(self)@ == old(self)@.at(morph_group_at(old(self)@).next),
    {
        proof {
            reveal(morph_group_at);
        }
        let morph = self.read_morph_index()?;
        let ratio = self.read_f32()?;
        Ok(crate::morph::Group { morph, ratio })
    }

    /// Reads a displacement of one vertex.
    pub fn morph_vertex(&mut self) -> (r: Result<crate::morph::Vertex, Error>)
        requires
            index_width(old(self)@.layout.vertex),
        ensures
            r == morph_vertex_at(old(self)@).result,
            final(self)@ == old(self)@.at(morph_vertex_at(old(self)@).next),
    {
        proof {
            reveal(morph_vertex_at);
        }
        let vertex = self.read_vertex_index()?;
        let offset = self.read_vec3()?;
        Ok(crate::morph::Vertex { vertex, offset })
    }

    /// Reads a displacement and a turn of one bone.
    pub fn morph_bone(&mut self) -> (r: Result<crate::morph::Bone, Error>)
        requires
            index_width(old(self)@.layout.bone),
        ensures
            r == morph_bone_at(old(self)@).result,
            final(self)@ == old(self)@.at(morph_bone_at(old(self)@).next),
    {
        proof {
            reveal(morph_bone_at);
        }
        let bone = self.read_bone_index()?;
        let offset = self.read_vec3()?;
        let rotation = self.read_vec4()?;
        Ok(crate::morph::Bone { bone, offset, rotation })
    }

    /// Reads a shift of one vertex in a UV channel.
    pub fn morph_uv(&mut self) -> (r: Result<crate::morph::Uv, Error>)
        requires
            index_width(old(self)@.layout.vertex),
        ensures
            r == morph_uv_at(old(self)@).result,
            final(self)@ == old(self)@.at(morph_uv_at(old(self)@).next),
    {
        proof {
            reveal(morph_uv_at);
        }
        let vertex = self.read_vertex_index()?;
        let offset = self.read_vec4()?;
        Ok(crate::morph::Uv { vertex, offset })
    }

    /// Reads how a material morph combines its values: 0 multiplies, 1 adds.
    pub fn material_op(&mut self) -> (r: Result<MaterialOp, Error>)
        ensures
            r == material_op_at(old(self)@).result,
            final(self)@ == old(self)@.at(material_op_at(old(self)@).next),
    {
        proof {
            reveal(material_op_at);
        }
        match self.read_u8()? {
            0 => Ok(MaterialOp::Mul),
            1 => Ok(MaterialOp::Add),
            _ => Err(Error::InvalidData("morph::Material::op")),
        }
    }

    /// Reads a change of one material's properties.
    pub fn morph_material(&mut self) -> (r: Result<crate::morph::Material, Error>)
        requires
            index_width(old(self)@.layout.material),
        ensures
            r == morph_material_at(old(self)@).result,
            final(self)@ == old(self)@.at(morph_material_at(old(self)@).next),
    {
        proof {
            reveal(morph_material_at);
        }
        let material = self.read_material_index()?;
        let op = self.material_op()?;
        let diffuse = self.read_vec4()?;
        let specular = self.read_vec3()?;
        let specular_power = self.read_f32()?;
        let ambient = self.read_vec3()?;
        let edge_color = self.read_vec4()?;
        let edge_size = self.read_f32()?;
        let texture = self.read_vec4()?;
        let sphere = self.read_vec4()?;
        let toon = self.read_vec4()?;
        Ok(
            crate::morph::Material {
                material,
                op,
                diffuse,
                specular,
                specular_power,
                ambient,
                edge_color,
                edge_size,
                texture,
                sphere,
                toon,
            },
        )
    }

    /// Reads `len` shares of other morphs.
    #[verifier::loop_isolation(false)]
    fn morph_group_run(&mut self, len: u32) -> (r: Result<Vec<crate::morph::Group>, Error>)
        requires
            index_width(old(self)@.layout.morph),
        ensures
            repeat(morph_group_items(), old(self)@, len as nat).yields(r),
            final(self)@ == old(self)@.at(repeat(morph_group_items(), old(self)@, len as nat).next),
    {
        let mut items: Vec<crate::morph::Group> = Vec::new();
        let mut i: u32 = 0;
        while i < len
            invariant
                i <= len,
                self@ == old(self)@.at(self@.pos),
                repeat(morph_group_items(), old(self)@, i as nat) == Step::done(items@, self@.pos),
            decreases len - i,
        {
            match self.morph_group() {
                Ok(item) => {
                    items.push(item);
                },
                Err(e) => {
                    proof {
                        lemma_repeat_failure(
                            morph_group_items(),
                            old(self)@,
                            (i + 1) as nat,
                            len as nat,
                        );
                    }
                    return Err(e);
                },
            }
            i += 1;
        }
        Ok(items)
    }

    /// Reads `len` displacements of vertices.
    #[verifier::loop_isolation(false)]
    fn morph_vertex_run(&mut self, len: u32) -> (r: Result<Vec<crate::morph::Vertex>, Error>)
        requires
            index_width(old(self)@.layout.vertex),
        ensures
            repeat(morph_vertex_items(), old(self)@, len as nat).yields(r),
            final(self)@ == old(self)@.at(
                repeat(morph_vertex_items(), old(self)@, len as nat).next,
            ),
    {
        let mut items: Vec<crate::morph::Vertex> = Vec::new();
        let mut i: u32 = 0;
        while i < len
            invariant
                i <= len,
                self@ == old(self)@.at(self@.pos),
                repeat(morph_vertex_items(), old(self)@, i as nat) == Step::done(items@, self@.pos),
            decreases len - i,
        {
            match self.morph_vertex() {
                Ok(item) => {
                    items.push(item);
                },
                Err(e) => {
                    proof {
                        lemma_repeat_failure(
                            morph_vertex_items(),
                            old(self)@,
                            (i + 1) as nat,
                            len as nat,
                        );
                    }
                    return Err(e);
                },
            }
            i += 1;
        }
        Ok(items)
    }

    /// Reads `len` displacements of bones.
    #[verifier::loop_isolation(false)]
    fn morph_bone_run(&mut self, len: u32) -> (r: Result<Vec<crate::morph::Bone>, Error>)
        requires
            index_width(old(self)@.layout.bone),
        ensures
            repeat(morph_bone_items(), old(self)@, len as nat).yields(r),
            final(self)@ == old(self)@.at(repeat(morph_bone_items(), old(self)@, len as nat).next),
    {
        let mut items: Vec<crate::morph::Bone> = Vec::new();
        let mut i: u32 = 0;
        while i < len
            invariant
                i <= len,
                self@ == old(self)@.at(self@.pos),
                repeat(morph_bone_items(), old(self)@, i as nat) == Step::done(items@, self@.pos),
            decreases len - i,
        {
            match self.morph_bone() {
                Ok(item) => {
                    items.push(item);
                },
                Err(e) => {
                    proof {
                        lemma_repeat_failure(
                            morph_bone_items(),
                            old(self)@,
                            (i + 1) as nat,
                            len as nat,
                        );
                    }
                    return Err(e);
                },
            }
            i += 1;
        }
        Ok(items)
    }

    /// Reads `len` shifts in a UV channel.
    #[verifier::loop_isolation(false)]
    fn morph_uv_run(&mut self, len: u32) -> (r: Result<Vec<crate::morph::Uv>, Error>)
        requires
            index_width(old(self)@.layout.vertex),
        ensures
            repeat(morph_uv_items(), old(self)@, len as nat).yields(r),
            final(self)@ == old(self)@.at(repeat(morph_uv_items(), old(self)@, len as nat).next),
    {
        let mut items: Vec<crate::morph::Uv> = Vec::new();
        let mut i: u32 = 0;
        while i < len
            invariant
                i <= len,
                self@ == old(self)@.at(self@.pos),
                repeat(morph_uv_items(), old(self)@, i as nat) == Step::done(items@, self@.pos),
            decreases len - i,
        {
            match self.morph_uv() {
                Ok(item) => {
                    items.push(item);
                },
                Err(e) => {
                    proof {
                        lemma_repeat_failure(
                            morph_uv_items(),
                            old(self)@,
                            (i + 1) as nat,
                            len as nat,
                        );
                    }
                    return Err(e);
                },
            }
            i += 1;
        }
        Ok(items)
    }

    /// Reads `len` changes of materials.
    #[verifier::loop_isolation(false)]
    fn morph_material_run(&mut self, len: u32) -> (r: Result<Vec<crate::morph::Material>, Error>)
        requires
            index_width(old(self)@.layout.material),
        ensures
            repeat(morph_material_items(), old(self)@, len as nat).yields(r),
            final(self)@ == old(self)@.at(
                repeat(morph_material_items(), old(self)@, len as nat).next,
            ),
    {
        let mut items: Vec<crate::morph::Material> = Vec::new();
        let mut i: u32 = 0;
        while i < len
            invariant
                i <= len,
                self@ == old(self)@.at(self@.pos),
                repeat(morph_material_items(), old(self)@, i as nat) == Step::done(
                    items@,
                    self@.pos,
                ),
            decreases len - i,
        {
            match self.morph_material() {
                Ok(item) => {
                    items.push(item);
                },
                Err(e) => {
                    proof {
                        lemma_repeat_failure(
                            morph_material_items(),
                            old(self)@,
                            (i + 1) as nat,
                            len as nat,
                        );
                    }
                    return Err(e);
                },
            }
            i += 1;
        }
        Ok(items)
    }

    /// Reads the `len` items of a morph whose kind byte is `tag`. The bytes 0
    /// to 8 name a kind; any other is refused, and no item is read.
    pub fn morph_kind(&mut self, tag: u8, len: u32) -> (r: Result<Kind, Error>)
        requires
            old(self)@.layout.valid(),
        ensures
            kind_at(old(self)@, tag, len).yields(r),
            final(self)@ == old(self)@.at(kind_at(old(self)@, tag, len).next),
    {
        proof {
            reveal(kind_at);
        }
        if tag == 0 {
            Ok(Kind::Group(self.morph_group_run(len)?))
        } else if tag == 1 {
            Ok(Kind::Vertex(self.morph_vertex_run(len)?))
        } else if tag == 2 {
            Ok(Kind::Bone(self.morph_bone_run(len)?))
        } else if tag == 3 {
            Ok(Kind::Uv(self.morph_uv_run(len)?))
        } else if tag <= 7 {
            Ok(Kind::ExtendedUv((tag - 4) as usize, self.morph_uv_run(len)?))
        } else if tag == 8 {
            Ok(Kind::Material(self.morph_material_run(len)?))
        } else {
            Err(Error::InvalidData("morph::kind"))
        }
    }

    /// Reads a morph: its names, its panel, its kind and the number of its
    /// items, then the items.
    pub fn morph(&mut self) -> (r: Result<Morph, Error>)
        requires
            old(self)@.layout.valid(),
        ensures
            morph_at(old(self)@).yields(r),
            final(self)@ == old(self)@.at(morph_at(old(self)@).next),
    {
        proof {
            reveal(morph_at);
        }
        let name = self.read_string()?;
        let name_en = self.read_string()?;
        let panel = self.panel()?;
        let kind_value = self.read_u8()?;
        let len = self.read_u32()?;
        let kind = self.morph_kind(kind_value, len)?;
        Ok(Morph { name, name_en, panel, kind })
    }

    /// Reads `len` morphs.
    #[verifier::loop_isolation(false)]
    fn morph_run(&mut self, len: u32) -> (r: Result<Vec<Morph>, Error>)
        requires
            old(self)@.layout.valid(),
        ensures
            repeat(morph_items(), old(self)@, len as nat).yields_each(r),
            final(self)@ == old(self)@.at(repeat(morph_items(), old(self)@, len as nat).next),
    {
        let mut items: Vec<Morph> = Vec::new();
        assert(views(items@) =~= Seq::empty());
        let mut i: u32 = 0;
        while i < len
            invariant
                i <= len,
                self@ == old(self)@.at(self@.pos),
                repeat(morph_items(), old(self)@, i as nat) == Step::done(views(items@), self@.pos),
            decreases len - i,
        {
            match self.morph() {
                Ok(item) => {
                    assert(views(items@.push(item)) =~= views(items@).push(item@));
                    items.push(item);
                },
                Err(e) => {
                    proof {
                        lemma_repeat_failure(morph_items(), old(self)@, (i + 1) as nat, len as nat);
                    }
                    return Err(e);
                },
            }
            i += 1;
        }
        Ok(items)
    }

    /// Reads the morphs: their number, then each.
    pub fn morphs(&mut self) -> (r: Result<Vec<Morph>, Error>)
        requires
            old(self)@.layout.valid(),
        ensures
            morphs_at(old(self)@).yields_each(r),
            final(self)@ == old(self)@.at(morphs_at(old(self)@).next),
    {
        proof {
            reveal(morphs_at);
        }
        let len = self.read_u32()?;
        self.morph_run(len)
    }

    /// Reads what a display group lists: a tag, then a reference to a bone
    /// after 0 and to a morph after 1.
    pub fn display_element(&mut self) -> (r: Result<DisplayElement, Error>)
        requires
            index_width(old(self)@.layout.bone),
            index_width(old(self)@.layout.morph),
        ensures
            r == display_element_at(old(self)@).result,
            final(self)@ == old(self)@.at(display_element_at(old(self)@).next),
    {
        proof {
            reveal(display_element_at);
            reveal(display_bone_at);
            reveal(display_morph_at);
        }
        match self.read_u8()? {
            0 => Ok(DisplayElement::Bone(self.read_bone_index()?)),
            1 => Ok(DisplayElement::Morph(self.read_morph_index()?)),
            _ => Err(Error::InvalidData("display_group::elements")),
        }
    }

    /// Reads `len` entries of a display group.
    #[verifier::loop_isolation(false)]
    fn display_element_run(&mut self, len: u32) -> (r: Result<Vec<DisplayElement>, Error>)
        requires
            index_width(old(self)@.layout.bone),
            index_width(old(self)@.layout.morph),
        ensures
            repeat(display_element_items(), old(self)@, len as nat).yields(r),
            final(self)@ == old(self)@.at(
                repeat(display_element_items(), old(self)@, len as nat).next,
            ),
    {
        let mut items: Vec<DisplayElement> = Vec::new();
        let mut i: u32 = 0;
        while i < len
            invariant
                i <= len,
                self@ == old(self)@.at(self@.pos),
                repeat(display_element_items(), old(self)@, i as nat) == Step::done(
                    items@,
                    self@.pos,
                ),
            decreases len - i,
        {
            match self.display_element() {
                Ok(item) => {
                    items.push(item);
                },
                Err(e) => {
                    proof {
                        lemma_repeat_failure(
                            display_element_items(),
                            old(self)@,
                            (i + 1) as nat,
                            len as nat,
                        );
                    }
                    return Err(e);
                },
            }
            i += 1;
        }
        Ok(items)
    }

    /// Reads a display group. It is special where the byte after its names
    /// is 1.
    pub fn display_group(&mut self) -> (r: Result<DisplayGroup, Error>)
        requires
            index_width(old(self)@.layout.bone),
            index_width(old(self)@.layout.morph),
        ensures
            display_group_at(old(self)@).yields(r),
            final(self)@ == old(self)@.at(display_group_at(old(self)@).next),
    {
        proof {
            reveal(display_group_at);
        }
        let name = self.read_string()?;
        let name_en = self.read_string()?;
        let special = self.read_u8()? == 1;
        let len = self.read_u32()?;
        let elements = self.display_element_run(len)?;
        Ok(DisplayGroup { name, name_en, special, elements })
    }

    /// Reads `len` display groups.
    #[verifier::loop_isolation(false)]
    fn display_group_run(&mut self, len: u32) -> (r: Result<Vec<DisplayGroup>, Error>)
        requires
            index_width(old(self)@.layout.bone),
            index_width(old(self)@.layout.morph),
        ensures
            repeat(display_group_items(), old(self)@, len as nat).yields_each(r),
            final(self)@ == old(self)@.at(
                repeat(display_group_items(), old(self)@, len as nat).next,
            ),
    {
        let mut items: Vec<DisplayGroup> = Vec::new();
        assert(views(items@) =~= Seq::empty());
        let mut i: u32 = 0;
        while i < len
            invariant
                i <= len,
                self@ == old(self)@.at(self@.pos),
                repeat(display_group_items(), old(self)@, i as nat) == Step::done(
                    views(items@),
                    self@.pos,
                ),
            decreases len - i,
        {
            match self.display_group() {
                Ok(item) => {
                    assert(views(items@.push(item)) =~= views(items@).push(item@));
                    items.push(item);
                },
                Err(e) => {
                    proof {
                        lemma_repeat_failure(
                            display_group_items(),
                            old(self)@,
                            (i + 1) as nat,
                            len as nat,
                        );
                    }
                    return Err(e);
                },
            }
            i += 1;
        }
        Ok(items)
    }

    /// Reads the display groups: their number, then each.
    pub fn display_groups(&mut self) -> (r: Result<Vec<DisplayGroup>, Error>)
        requires
            index_width(old(self)@.layout.bone),
            index_width(old(self)@.layout.morph),
        ensures
            display_groups_at(old(self)@).yields_each(r),
            final(self)@ == old(self)@.at(display_groups_at(old(self)@).next),
    {
        proof {
            reveal(display_groups_at);
        }
        let len = self.read_u32()?;
        self.display_group_run(len)
    }

    /// Reads the solid that a physics body collides as: a tag from 0 to 2.
    pub fn shape(&mut self) -> (r: Result<Shape, Error>)
        ensures
            r == shape_at(old(self)@).result,
            final(self)@ == old(self)@.at(shape_at(old(self)@).next),
    {
        proof {
            reveal(shape_at);
        }
        match self.read_u8()? {
            0 => Ok(Shape::Sphere),
            1 => Ok(Shape::Box),
            2 => Ok(Shape::Capsule),
            _ => Err(Error::InvalidData("rigid::shape")),
        }
    }

    /// Reads how a physics body is moved: a tag from 0 to 2.
    pub fn method(&mut self) -> (r: Result<Method, Error>)
        ensures
            r == method_at(old(self)@).result,
            final(self)@ == old(self)@.at(method_at(old(self)@).next),
    {
        proof {
            reveal(method_at);
        }
        match self.read_u8()? {
            0 => Ok(Method::Static),
            1 => Ok(Method::Dynamic),
            2 => Ok(Method::DynamicWithBone),
            _ => Err(Error::InvalidData("rigid::method")),
        }
    }

    /// Reads a physics body.
    pub fn rigid(&mut self) -> (r: Result<Rigid, Error>)
        requires
            index_width(old(self)@.layout.bone),
        ensures
            rigid_at(old(self)@).yields(r),
            final(self)@ == old(self)@.at(rigid_at(old(self)@).next),
    {
        proof {
            reveal(rigid_at);
        }
        let name = self.read_string()?;
        let name_en = self.read_string()?;
        let bone = self.read_bone_index()?;
        let group = self.read_u8()?;
        let non_collision_groups = self.read_u16()?;
        let shape = self.shape()?;
        let size = self.read_vec3()?;
        let position = self.read_vec3()?;
        let rotation = self.read_vec3()?;
        let mass = self.read_f32()?;
        let dump_translation = self.read_f32()?;
        let dump_rotation = self.read_f32()?;
        let repulsive = self.read_f32()?;
        let friction = self.read_f32()?;
        let method = self.method()?;
        Ok(
            Rigid {
                name,
                name_en,
                bone,
                group,
                non_collision_groups,
                shape,
                size,
                position,
                rotation,
                mass,
                dump_translation,
                dump_rotation,
                repulsive,
                friction,
                method,
            },
        )
    }

    /// Reads `len` physics bodies.
    #[verifier::loop_isolation(false)]
    fn rigid_run(&mut self, len: u32) -> (r: Result<Vec<Rigid>, Error>)
        requires
            index_width(old(self)@.layout.bone),
        ensures
            repeat(rigid_items(), old(self)@, len as nat).yields_each(r),
            final(self)@ == old(self)@.at(repeat(rigid_items(), old(self)@, len as nat).next),
    {
        let mut items: Vec<Rigid> = Vec::new();
        assert(views(items@) =~= Seq::empty());
        let mut i: u32 = 0;
        while i < len
            invariant
                i <= len,
                self@ == old(self)@.at(self@.pos),
                repeat(rigid_items(), old(self)@, i as nat) == Step::done(views(items@), self@.pos),
            decreases len - i,
        {
            match self.rigid() {
                Ok(item) => {
                    assert(views(items@.push(item)) =~= views(items@).push(item@));
                    items.push(item);
                },
                Err(e) => {
                    proof {
                        lemma_repeat_failure(rigid_items(), old(self)@, (i + 1) as nat, len as nat);
                    }
                    return Err(e);
                },
            }
            i += 1;
        }
        Ok(items)
    }

    /// Reads the physics bodies: their number, then each.
    pub fn rigids(&mut self) -> (r: Result<Vec<Rigid>, Error>)
        requires
            index_width(old(self)@.layout.bone),
        ensures
            rigids_at(old(self)@).yields_each(r),
            final(self)@ == old(self)@.at(rigids_at(old(self)@).next),
    {
        proof {
            reveal(rigids_at);
        }
        let len = self.read_u32()?;
        self.rigid_run(len)
    }

    /// Reads a joint. Only the spring joint with six degrees of freedom, type
    /// 0, is known; any other type is refused.
    pub fn joint(&mut self) -> (r: Result<Joint, Error>)
        requires
            index_width(old(self)@.layout.rigid),
        ensures
            joint_at(old(self)@).yields(r),
            final(self)@ == old(self)@.at(joint_at(old(self)@).next),
    {
        proof {
            reveal(joint_at);
        }
        let name = self.read_string()?;
        let name_en = self.read_string()?;
        let t = self.read_u8()?;
        if t != 0 {
            return Err(Error::InvalidData("joint::type"));
        }
        let first = self.read_rigid_index()?;
        let second = self.read_rigid_index()?;
        let position = self.read_vec3()?;
        let rotation = self.read_vec3()?;
        let limit_translation = self.angle_limit()?;
        let limit_rotation = self.angle_limit()?;
        let spring_translation = self.read_vec3()?;
        let spring_rotation = self.read_vec3()?;
        Ok(
            Joint {
                name,
                name_en,
                rigids: [first, second],
                position,
                rotation,
                limit_translation,
                limit_rotation,
                spring_translation,
                spring_rotation,
            },
        )
    }

    /// Reads `len` joints.
    #[verifier::loop_isolation(false)]
    fn joint_run(&mut self, len: u32) -> (r: Result<Vec<Joint>, Error>)
        requires
            index_width(old(self)@.layout.rigid),
        ensures
            repeat(joint_items(), old(self)@, len as nat).yields_each(r),
            final(self)@ == old(self)@.at(repeat(joint_items(), old(self)@, len as nat).next),
    {
        let mut items: Vec<Joint> = Vec::new();
        assert(views(items@) =~= Seq::empty());
        let mut i: u32 = 0;
        while i < len
            invariant
                i <= len,
                self@ == old(self)@.at(self@.pos),
                repeat(joint_items(), old(self)@, i as nat) == Step::done(views(items@), self@.pos),
            decreases len - i,
        {
            match self.joint() {
                Ok(item) => {
                    assert(views(items@.push(item)) =~= views(items@).push(item@));
                    items.push(item);
                },
                Err(e) => {
                    proof {
                        lemma_repeat_failure(joint_items(), old(self)@, (i + 1) as nat, len as nat);
                    }
                    return Err(e);
                },
            }
            i += 1;
        }
        Ok(items)
    }

    /// Reads the joints: their number, then each.
    pub fn joints(&mut self) -> (r: Result<Vec<Joint>, Error>)
        requires
            index_width(old(self)@.layout.rigid),
        ensures
            joints_at(old(self)@).yields_each(r),
            final(self)@ == old(self)@.at(joints_at(old(self)@).next),
    {
        proof {
            reveal(joints_at);
        }
        let len = self.read_u32()?;
        self.joint_run(len)
    }

    /// Decodes a whole model: the header, which lays the rest out, then every
    /// section in the order that the format lays down. The first failure ends
    /// it, and nothing of the model is handed out.
    pub fn read(&mut self) -> (r: Result<Pmx, Error>)
        ensures
            pmx_at(old(self)@).yields(r),
            final(self)@ == old(self)@.laid_out(layout_after_header(old(self)@)).at(
                pmx_at(old(self)@).next,
            ),
            r matches Ok(pmx) ==> pmx@.wf(),
    {
        proof {
            reveal(pmx_at);
            if pmx_at(old(self)@).ok() {
                lemma_model_wf(old(self)@);
            }
        }
        let header = self.header()?;
        self.configure(&header);
        let model_info = self.model_info()?;
        let vertices = self.vertices()?;
        let faces = self.faces()?;
        let textures = self.textures()?;
        let materials = self.materials()?;
        let bones = self.bones()?;
        let morphs = self.morphs()?;
        let display_groups = self.display_groups()?;
        let rigids = self.rigids()?;
        let joints = self.joints()?;
        Ok(
            Pmx {
                header,
                model_info,
                vertices,
                faces,
                textures,
                materials,
                bones,
                morphs,
                display_groups,
                rigids,
                joints,
            },
        )
    }
}

/// Decodes the model that `data` holds.
pub fn read(data: Vec<u8>) -> (r: Result<Pmx, Error>)
    ensures
        match r {
            Ok(pmx) => decoded_model(data@) == Ok::<crate::model::PmxView, Error>(pmx@),
            Err(error) => decoded_model(data@) == Err::<crate::model::PmxView, Error>(error),
        },
        r matches Ok(pmx) ==> pmx@.wf(),
{
    let mut reader = Reader::new(data);
    reader.read()
}

} // verus!
