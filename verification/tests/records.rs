use pmx::morph::{Kind, MaterialOp};
use pmx::rigid::{Method, Shape};
use pmx::{
    Addition, AngleLimit, Bdef1, Bdef2, Bdef4, Binary32, ConnectedTo, DisplayElement, Encoding,
    Error, Header, IkLink, IoError, LocalPole, Panel, Reader, Sdef, SphereMode, Toon, Vec3, Weight,
};

const EOF: Error = Error::Io(IoError::UnexpectedEof);

/// A file under construction.
struct Bytes(Vec<u8>);

impl Bytes {
    fn new() -> Bytes {
        Bytes(Vec::new())
    }

    fn u8(mut self, v: u8) -> Bytes {
        self.0.push(v);
        self
    }

    fn u16(mut self, v: u16) -> Bytes {
        self.0.extend_from_slice(&v.to_le_bytes());
        self
    }

    fn u32(mut self, v: u32) -> Bytes {
        self.0.extend_from_slice(&v.to_le_bytes());
        self
    }

    fn i32(mut self, v: i32) -> Bytes {
        self.0.extend_from_slice(&v.to_le_bytes());
        self
    }

    fn f32(mut self, v: f32) -> Bytes {
        self.0.extend_from_slice(&v.to_le_bytes());
        self
    }

    fn vec(mut self, v: &[f32]) -> Bytes {
        for x in v {
            self.0.extend_from_slice(&x.to_le_bytes());
        }
        self
    }

    fn text(mut self, s: &str) -> Bytes {
        self.0.extend_from_slice(&(s.len() as u32).to_le_bytes());
        self.0.extend_from_slice(s.as_bytes());
        self
    }

    fn reader(self, extended_uv: u8, width: u8) -> Reader {
        let mut reader = Reader::new(self.0);
        reader.configure(&Header {
            version: Binary32 { bits: 2.0f32.to_bits() },
            encoding: Encoding::Utf8,
            extended_uv,
            vertex_index_size: width,
            texture_index_size: width,
            material_index_size: width,
            bone_index_size: width,
            morph_index_size: width,
            rigid_index_size: width,
        });
        reader
    }
}

fn b(v: f32) -> Binary32 {
    Binary32 { bits: v.to_bits() }
}

fn v3(x: f32, y: f32, z: f32) -> Vec3 {
    [b(x), b(y), b(z)]
}

fn bare_vertex() -> Bytes {
    Bytes::new().vec(&[1.0, 2.0, 3.0]).vec(&[0.0, 1.0, 0.0]).vec(&[0.25, 0.75])
}

#[test]
fn vertex_with_bdef1_bone_five() {
    let mut reader = bare_vertex().u8(0).u8(5).f32(1.5).reader(0, 1);
    let vertex = reader.vertex().unwrap();
    assert_eq!(vertex.position, v3(1.0, 2.0, 3.0));
    assert_eq!(vertex.normal, v3(0.0, 1.0, 0.0));
    assert_eq!(vertex.uv, [b(0.25), b(0.75)]);
    assert!(vertex.extended_uv.is_empty());
    assert_eq!(vertex.weight, Weight::Bdef1(Bdef1 { bone: Some(5) }));
    assert_eq!(vertex.edge_ratio, b(1.5));
    assert_eq!(reader.position(), 38);
}

#[test]
fn vertex_with_bdef1_bone_high_bit_is_unbound() {
    let mut reader = bare_vertex().u8(0).u8(0x85).f32(1.5).reader(0, 1);
    assert_eq!(reader.vertex().unwrap().weight, Weight::Bdef1(Bdef1 { bone: None }));
}

#[test]
fn vertex_carries_the_additional_uv_channels_of_the_layout() {
    let mut reader = bare_vertex()
        .vec(&[1.0, 2.0, 3.0, 4.0])
        .vec(&[5.0, 6.0, 7.0, 8.0])
        .u8(0)
        .u16(300)
        .f32(0.5)
        .reader(2, 2);
    let vertex = reader.vertex().unwrap();
    assert_eq!(
        vertex.extended_uv,
        vec![[b(1.0), b(2.0), b(3.0), b(4.0)], [b(5.0), b(6.0), b(7.0), b(8.0)]]
    );
    assert_eq!(vertex.weight, Weight::Bdef1(Bdef1 { bone: Some(300) }));
    assert_eq!(reader.position(), 32 + 32 + 1 + 2 + 4);
}

#[test]
fn weight_kinds() {
    let mut reader = Bytes::new().u8(1).u8(1).u8(2).f32(0.25).reader(0, 1);
    assert_eq!(
        reader.weight(),
        Ok(Weight::Bdef2(Bdef2 { bones: [Some(1), Some(2)], weight: b(0.25) }))
    );
    let mut reader =
        Bytes::new().u8(2).u8(1).u8(0xff).u8(3).u8(4).vec(&[0.1, 0.2, 0.3, 0.4]).reader(0, 1);
    assert_eq!(
        reader.weight(),
        Ok(Weight::Bdef4(Bdef4 {
            bones: [Some(1), None, Some(3), Some(4)],
            weights: [b(0.1), b(0.2), b(0.3), b(0.4)],
        }))
    );
    let mut reader = Bytes::new()
        .u8(3)
        .u8(7)
        .u8(8)
        .f32(0.5)
        .vec(&[1.0, 2.0, 3.0])
        .vec(&[4.0, 5.0, 6.0])
        .vec(&[7.0, 8.0, 9.0])
        .reader(0, 1);
    assert_eq!(
        reader.weight(),
        Ok(Weight::Sdef(Sdef {
            bones: [Some(7), Some(8)],
            weight: b(0.5),
            c: v3(1.0, 2.0, 3.0),
            r0: v3(4.0, 5.0, 6.0),
            r1: v3(7.0, 8.0, 9.0),
        }))
    );
    assert_eq!(reader.position(), 43);
}

#[test]
fn unknown_weight_kind_is_refused() {
    for tag in 4u8..=255 {
        let mut reader = Bytes::new().u8(tag).u8(1).f32(1.0).reader(0, 1);
        assert_eq!(reader.weight(), Err(Error::InvalidData("vertex::weight")));
        assert_eq!(reader.position(), 1);
    }
    let mut reader = bare_vertex().u8(4).u8(5).f32(1.5).reader(0, 1);
    assert_eq!(reader.vertex(), Err(Error::InvalidData("vertex::weight")));
}

#[test]
fn vertices_and_faces_and_textures() {
    let mut one = bare_vertex().u8(0).u8(5).f32(1.5).0;
    let mut bytes = 2u32.to_le_bytes().to_vec();
    bytes.extend_from_slice(&one);
    one[33] = 6;
    bytes.extend_from_slice(&one);
    let mut reader = Bytes(bytes).reader(0, 1);
    let vertices = reader.vertices().unwrap();
    assert_eq!(vertices.len(), 2);
    assert_eq!(vertices[0].weight, Weight::Bdef1(Bdef1 { bone: Some(5) }));
    assert_eq!(vertices[1].weight, Weight::Bdef1(Bdef1 { bone: Some(6) }));

    let mut reader = Bytes::new().u32(3).u32(0).u32(2).u32(1).u32(99).reader(0, 1);
    assert_eq!(reader.faces(), Ok(vec![0, 2, 1]));
    assert_eq!(reader.position(), 16);

    let mut reader = Bytes::new().u32(2).text("tex/a.png").text("").reader(0, 1);
    assert_eq!(reader.textures(), Ok(vec!["tex/a.png".to_string(), String::new()]));

    let mut reader = Bytes::new().u32(0).reader(0, 1);
    assert_eq!(reader.vertices(), Ok(vec![]));
    let mut reader = Bytes::new().u32(2).u32(7).reader(0, 1);
    assert_eq!(reader.faces(), Err(EOF));
    assert_eq!(reader.position(), 8);
}

fn material_bytes(flags: u8, sphere_mode: u8, toon_tag: u8, index_count: u32) -> Bytes {
    Bytes::new()
        .text("mat")
        .text("mat_en")
        .vec(&[0.1, 0.2, 0.3, 1.0])
        .vec(&[0.4, 0.5, 0.6])
        .f32(50.0)
        .vec(&[0.7, 0.8, 0.9])
        .u8(flags)
        .vec(&[0.0, 0.0, 0.0, 1.0])
        .f32(1.25)
        .u8(3)
        .u8(0xff)
        .u8(sphere_mode)
        .u8(toon_tag)
        .u8(9)
        .text("memo")
        .u32(index_count)
}

#[test]
fn material_fields() {
    let mut reader = material_bytes(0b0001_0101, 2, 1, 36).reader(0, 1);
    let m = reader.material().unwrap();
    assert_eq!(m.name, "mat");
    assert_eq!(m.name_en, "mat_en");
    assert_eq!(m.diffuse, [b(0.1), b(0.2), b(0.3), b(1.0)]);
    assert_eq!(m.specular, v3(0.4, 0.5, 0.6));
    assert_eq!(m.specular_power, b(50.0));
    assert_eq!(m.ambient, v3(0.7, 0.8, 0.9));
    assert!(m.both && !m.ground_shadow && m.self_shadow_map && !m.self_shadow && m.edge);
    assert!(!m.vertex_color && !m.point_draw && !m.line_draw);
    assert_eq!(m.edge_color, [b(0.0), b(0.0), b(0.0), b(1.0)]);
    assert_eq!(m.edge_size, b(1.25));
    assert_eq!(m.texture, Some(3));
    assert_eq!(m.sphere, None);
    assert_eq!(m.sphere_mode, SphereMode::Add);
    assert_eq!(m.toon, Toon::Shared(9));
    assert_eq!(m.memo, "memo");
    assert_eq!(m.index_count, 36);
}

#[test]
fn material_flags_are_independent() {
    for bit in 0..8 {
        let mut reader = material_bytes(1 << bit, 0, 0, 0).reader(0, 1);
        let m = reader.material().unwrap();
        let flags = [
            m.both,
            m.ground_shadow,
            m.self_shadow_map,
            m.self_shadow,
            m.edge,
            m.vertex_color,
            m.point_draw,
            m.line_draw,
        ];
        for (i, flag) in flags.iter().enumerate() {
            assert_eq!(*flag, i == bit);
        }
        assert_eq!(m.toon, Toon::Texture(Some(9)));
        assert_eq!(m.sphere_mode, SphereMode::Off);
    }
}

#[test]
fn material_index_count_must_be_a_multiple_of_three() {
    for count in [1u32, 2, 4, 5, 100, u32::MAX - 1] {
        let bytes = material_bytes(0, 0, 0, count);
        let len = bytes.0.len();
        let mut reader = bytes.reader(0, 1);
        assert_eq!(reader.material(), Err(Error::InvalidData("material::index_count")));
        assert_eq!(reader.position(), len);
    }
    for count in [0u32, 3, 6, 99, u32::MAX] {
        let mut reader = material_bytes(0, 0, 0, count).reader(0, 1);
        assert_eq!(reader.material().unwrap().index_count, count);
    }
    let mut bytes = 1u32.to_le_bytes().to_vec();
    bytes.extend_from_slice(&material_bytes(0, 0, 0, 4).0);
    let mut reader = Bytes(bytes).reader(0, 1);
    assert_eq!(reader.materials(), Err(Error::InvalidData("material::index_count")));
}

#[test]
fn unknown_sphere_mode_and_toon_are_refused() {
    let mut reader = material_bytes(0, 4, 0, 3).reader(0, 1);
    assert_eq!(reader.material(), Err(Error::InvalidData("material::sphere_mode")));
    let mut reader = material_bytes(0, 3, 2, 3).reader(0, 1);
    assert_eq!(reader.material(), Err(Error::InvalidData("material::toon")));
    let mut reader = material_bytes(0, 3, 0, 3).reader(0, 1);
    assert_eq!(reader.material().unwrap().sphere_mode, SphereMode::SubTexture);
    assert_eq!(Bytes::new().u8(1).reader(0, 1).sphere_mode(), Ok(SphereMode::Mul));
    assert_eq!(Bytes::new().u8(0).u8(0x80).reader(0, 1).toon(), Ok(Toon::Texture(None)));
    assert_eq!(Bytes::new().u8(1).u8(0x80).reader(0, 1).toon(), Ok(Toon::Shared(128)));
}

fn bone_head(flags: u16) -> Bytes {
    Bytes::new().text("bone").text("bone_en").vec(&[1.0, 2.0, 3.0]).u8(0xff).i32(-2).u16(flags)
}

#[test]
fn bone_without_optional_parts() {
    let bytes = bone_head(0x0002 | 0x0008 | 0x1000).vec(&[0.0, 1.0, 0.0]).u8(0xaa);
    let mut reader = bytes.reader(0, 1);
    let bone = reader.bone().unwrap();
    assert_eq!(bone.name, "bone");
    assert_eq!(bone.name_en, "bone_en");
    assert_eq!(bone.position, v3(1.0, 2.0, 3.0));
    assert_eq!(bone.parent, None);
    assert_eq!(bone.deform_hierarchy, -2);
    assert_eq!(bone.connected_to, ConnectedTo::Offset(v3(0.0, 1.0, 0.0)));
    assert!(bone.rotatable && !bone.translatable && bone.visibility && !bone.operable);
    assert!(bone.after_physics);
    assert_eq!(bone.addition, None);
    assert_eq!(bone.fixed_pole, None);
    assert_eq!(bone.local_pole, None);
    assert_eq!(bone.external_parent, None);
    assert!(bone.ik.is_none());
    // Eight bytes of names' lengths, eleven of names, then 12 + 1 + 4 + 2 + 12.
    assert_eq!(reader.position(), 8 + 11 + 31);
    assert_eq!(reader.read_u8(), Ok(0xaa));
}

#[test]
fn bone_with_every_optional_part() {
    let flags = 0x0001 | 0x0004 | 0x0010 | 0x0020 | 0x0080 | 0x0100 | 0x0400 | 0x0800 | 0x2000;
    let bytes = bone_head(flags)
        .u8(7)
        .u8(3)
        .f32(0.5)
        .vec(&[1.0, 0.0, 0.0])
        .vec(&[0.0, 1.0, 0.0])
        .vec(&[0.0, 0.0, 1.0])
        .i32(12)
        .u8(9)
        .u32(40)
        .f32(2.0)
        .u32(2)
        .u8(1)
        .u8(0)
        .u8(2)
        .u8(1)
        .vec(&[-1.0, -2.0, -3.0])
        .vec(&[1.0, 2.0, 3.0]);
    let len = bytes.0.len();
    let mut reader = bytes.reader(0, 1);
    let bone = reader.bone().unwrap();
    assert_eq!(bone.connected_to, ConnectedTo::Bone(Some(7)));
    assert!(!bone.rotatable && bone.translatable && !bone.visibility && bone.operable);
    assert!(!bone.after_physics);
    assert_eq!(
        bone.addition,
        Some(Addition { rotation: true, translation: false, local: true, bone: Some(3), ratio: b(0.5) })
    );
    assert_eq!(bone.fixed_pole, Some(v3(1.0, 0.0, 0.0)));
    assert_eq!(
        bone.local_pole,
        Some(LocalPole { x: v3(0.0, 1.0, 0.0), z: v3(0.0, 0.0, 1.0) })
    );
    assert_eq!(bone.external_parent, Some(12));
    let ik = bone.ik.unwrap();
    assert_eq!(ik.bone, Some(9));
    assert_eq!(ik.loop_count, 40);
    assert_eq!(ik.angle, b(2.0));
    assert_eq!(
        ik.links,
        vec![
            IkLink { bone: Some(1), limits: None },
            IkLink {
                bone: Some(2),
                limits: Some(AngleLimit { lower: v3(-1.0, -2.0, -3.0), upper: v3(1.0, 2.0, 3.0) }),
            },
        ]
    );
    assert_eq!(reader.position(), len);
}

#[test]
fn each_bone_flag_brings_its_own_part_and_no_other() {
    // (flag, the bytes of the part)
    let parts: [(u16, Bytes); 6] = [
        (0x0100, Bytes::new().u8(3).f32(0.5)),
        (0x0200, Bytes::new().u8(3).f32(0.5)),
        (0x0400, Bytes::new().vec(&[1.0, 0.0, 0.0])),
        (0x0800, Bytes::new().vec(&[0.0, 1.0, 0.0, 0.0, 0.0, 1.0])),
        (0x2000, Bytes::new().i32(4)),
        (0x0020, Bytes::new().u8(9).u32(1).f32(2.0).u32(0)),
    ];
    for (flag, part) in parts {
        let mut bytes = bone_head(flag).vec(&[0.0, 0.0, 0.0]).0;
        let bare = bytes.len();
        bytes.extend_from_slice(&part.0);
        bytes.extend_from_slice(&[0xee; 40]);
        let mut reader = Bytes(bytes).reader(0, 1);
        let bone = reader.bone().unwrap();
        assert_eq!(reader.position(), bare + part.0.len());
        assert_eq!(bone.addition.is_some(), flag == 0x0100 || flag == 0x0200);
        if let Some(addition) = bone.addition {
            assert_eq!(addition.rotation, flag == 0x0100);
            assert_eq!(addition.translation, flag == 0x0200);
            assert!(!addition.local);
        }
        assert_eq!(bone.fixed_pole.is_some(), flag == 0x0400);
        assert_eq!(bone.local_pole.is_some(), flag == 0x0800);
        assert_eq!(bone.external_parent, if flag == 0x2000 { Some(4) } else { None });
        assert_eq!(bone.ik.is_some(), flag == 0x0020);
    }
    // The flags that announce nothing bring no byte.
    for flag in [0x0002u16, 0x0004, 0x0008, 0x0010, 0x0040, 0x0080, 0x1000, 0x4000, 0x8000] {
        let bytes = bone_head(flag).vec(&[0.0, 0.0, 0.0]);
        let bare = bytes.0.len();
        let mut reader = Bytes([bytes.0, vec![0xee; 40]].concat()).reader(0, 1);
        let bone = reader.bone().unwrap();
        assert_eq!(reader.position(), bare);
        assert!(bone.addition.is_none() && bone.fixed_pole.is_none() && bone.ik.is_none());
        assert!(bone.local_pole.is_none() && bone.external_parent.is_none());
    }
}

#[test]
fn a_negative_key_of_an_outside_parent_stands_for_none() {
    let mut reader = bone_head(0x2000).vec(&[0.0, 0.0, 0.0]).i32(-1).reader(0, 1);
    let len = reader.position();
    assert_eq!(len, 0);
    let bone = reader.bone().unwrap();
    assert_eq!(bone.external_parent, None);
    assert_eq!(reader.position(), 19 + 31 + 4);
    assert_eq!(Bytes::new().i32(0).reader(0, 1).external_parent(0x2000), Ok(Some(0)));
    assert_eq!(Bytes::new().i32(i32::MIN).reader(0, 1).external_parent(0x2000), Ok(None));
    assert_eq!(Bytes::new().i32(5).reader(0, 1).external_parent(0), Ok(None));
}

#[test]
fn bone_part_readers() {
    assert_eq!(Bytes::new().u8(4).reader(0, 1).connected_to(1), Ok(ConnectedTo::Bone(Some(4))));
    assert_eq!(
        Bytes::new().vec(&[1.0, 2.0, 3.0]).reader(0, 1).connected_to(0xfffe),
        Ok(ConnectedTo::Offset(v3(1.0, 2.0, 3.0)))
    );
    assert_eq!(Bytes::new().u8(4).reader(0, 1).addition(0x0080), Ok(None));
    assert_eq!(
        Bytes::new().u8(4).f32(1.0).reader(0, 1).addition(0x0300),
        Ok(Some(Addition { rotation: true, translation: true, local: false, bone: Some(4), ratio: b(1.0) }))
    );
    assert_eq!(Bytes::new().reader(0, 1).fixed_pole(0), Ok(None));
    assert_eq!(Bytes::new().reader(0, 1).fixed_pole(0x0400), Err(EOF));
    assert_eq!(Bytes::new().reader(0, 1).local_pole(0), Ok(None));
    assert_eq!(Bytes::new().vec(&[1.0, 2.0, 3.0]).reader(0, 1).local_pole(0x0800), Err(EOF));
    assert_eq!(
        Bytes::new().vec(&[1.0, 2.0, 3.0, 4.0, 5.0, 6.0]).reader(0, 1).angle_limit(),
        Ok(AngleLimit { lower: v3(1.0, 2.0, 3.0), upper: v3(4.0, 5.0, 6.0) })
    );
    assert_eq!(
        Bytes::new().u8(1).u8(2).reader(0, 1).ik_link(),
        Ok(IkLink { bone: Some(1), limits: None })
    );
    let ik = Bytes::new().u16(300).u32(7).f32(0.5).u32(0).reader(0, 2).ik().unwrap();
    assert_eq!((ik.bone, ik.loop_count, ik.angle, ik.links.len()), (Some(300), 7, b(0.5), 0));
}

#[test]
fn bones_section() {
    let one = bone_head(0).vec(&[0.0, 0.0, 0.0]).0;
    let mut reader = Bytes([3u32.to_le_bytes().to_vec(), one.clone(), one.clone(), one].concat()).reader(0, 1);
    let bones = reader.bones().unwrap();
    assert_eq!(bones.len(), 3);
    assert_eq!(bones[2].name, "bone");
}

fn morph_head(panel: u8, kind: u8, len: u32) -> Bytes {
    Bytes::new().text("m").text("m_en").u8(panel).u8(kind).u32(len)
}

#[test]
fn morph_kinds() {
    let mut reader = morph_head(1, 0, 2).u8(4).f32(0.5).u8(0xff).f32(1.0).reader(0, 1);
    let morph = reader.morph().unwrap();
    assert_eq!(morph.name, "m");
    assert_eq!(morph.name_en, "m_en");
    assert_eq!(morph.panel, Panel::Eyebrow);
    assert_eq!(
        morph.kind,
        Kind::Group(vec![
            pmx::morph::Group { morph: Some(4), ratio: b(0.5) },
            pmx::morph::Group { morph: None, ratio: b(1.0) },
        ])
    );

    let mut reader = morph_head(2, 1, 1).u8(0xff).vec(&[1.0, 2.0, 3.0]).reader(0, 1);
    assert_eq!(
        reader.morph().unwrap().kind,
        Kind::Vertex(vec![pmx::morph::Vertex { vertex: Some(255), offset: v3(1.0, 2.0, 3.0) }])
    );

    let mut reader =
        morph_head(3, 2, 1).u8(2).vec(&[1.0, 2.0, 3.0]).vec(&[0.0, 0.0, 0.0, 1.0]).reader(0, 1);
    let morph = reader.morph().unwrap();
    assert_eq!(morph.panel, Panel::Mouth);
    assert_eq!(
        morph.kind,
        Kind::Bone(vec![pmx::morph::Bone {
            bone: Some(2),
            offset: v3(1.0, 2.0, 3.0),
            rotation: [b(0.0), b(0.0), b(0.0), b(1.0)],
        }])
    );

    let uv = pmx::morph::Uv { vertex: Some(1), offset: [b(1.0), b(2.0), b(3.0), b(4.0)] };
    let mut reader = morph_head(4, 3, 1).u8(1).vec(&[1.0, 2.0, 3.0, 4.0]).reader(0, 1);
    let morph = reader.morph().unwrap();
    assert_eq!(morph.panel, Panel::Other);
    assert_eq!(morph.kind, Kind::Uv(vec![uv]));
    for kind in 4u8..=7 {
        let mut reader = morph_head(0, kind, 1).u8(1).vec(&[1.0, 2.0, 3.0, 4.0]).reader(0, 1);
        let morph = reader.morph().unwrap();
        assert_eq!(morph.panel, Panel::Reserved);
        assert_eq!(morph.kind, Kind::ExtendedUv((kind - 4) as usize, vec![uv]));
    }

    let mut reader = morph_head(0, 8, 1)
        .u8(0xff)
        .u8(1)
        .vec(&[1.0, 2.0, 3.0, 4.0])
        .vec(&[5.0, 6.0, 7.0])
        .f32(8.0)
        .vec(&[9.0, 10.0, 11.0])
        .vec(&[12.0, 13.0, 14.0, 15.0])
        .f32(16.0)
        .vec(&[17.0, 18.0, 19.0, 20.0])
        .vec(&[21.0, 22.0, 23.0, 24.0])
        .vec(&[25.0, 26.0, 27.0, 28.0])
        .reader(0, 1);
    assert_eq!(
        reader.morph().unwrap().kind,
        Kind::Material(vec![pmx::morph::Material {
            material: None,
            op: MaterialOp::Add,
            diffuse: [b(1.0), b(2.0), b(3.0), b(4.0)],
            specular: v3(5.0, 6.0, 7.0),
            specular_power: b(8.0),
            ambient: v3(9.0, 10.0, 11.0),
            edge_color: [b(12.0), b(13.0), b(14.0), b(15.0)],
            edge_size: b(16.0),
            texture: [b(17.0), b(18.0), b(19.0), b(20.0)],
            sphere: [b(21.0), b(22.0), b(23.0), b(24.0)],
            toon: [b(25.0), b(26.0), b(27.0), b(28.0)],
        }])
    );
    assert_eq!(Bytes::new().u8(0).reader(0, 1).material_op(), Ok(MaterialOp::Mul));
}

#[test]
fn unknown_morph_tags_are_refused() {
    for kind in 9u8..=255 {
        let mut reader = morph_head(0, kind, 0).reader(0, 1);
        assert_eq!(reader.morph(), Err(Error::InvalidData("morph::kind")));
    }
    let mut reader = Bytes::new().reader(0, 1);
    assert_eq!(reader.morph_kind(9, 5), Err(Error::InvalidData("morph::kind")));
    assert_eq!(reader.position(), 0);
    for panel in 5u8..=255 {
        let mut reader = morph_head(panel, 0, 0).reader(0, 1);
        assert_eq!(reader.morph(), Err(Error::InvalidData("morph::panel")));
        assert_eq!(reader.position(), 5 + 8 + 1);
    }
    let mut reader = morph_head(0, 8, 1).u8(1).u8(2).reader(0, 1);
    assert_eq!(reader.morph(), Err(Error::InvalidData("morph::Material::op")));
    // The kind is looked at once the number of items has been read.
    let mut reader = Bytes::new().text("m").text("m_en").u8(0).u8(9).u8(0).reader(0, 1);
    assert_eq!(reader.morph(), Err(EOF));
}

#[test]
fn morphs_section_with_an_empty_morph() {
    let mut reader = Bytes([1u32.to_le_bytes().to_vec(), morph_head(0, 1, 0).0].concat()).reader(0, 4);
    let morphs = reader.morphs().unwrap();
    assert_eq!(morphs.len(), 1);
    assert_eq!(morphs[0].kind, Kind::Vertex(vec![]));
}

#[test]
fn display_group_elements() {
    let mut reader =
        Bytes::new().text("Root").text("root").u8(1).u32(3).u8(0).u8(0).u8(1).u8(2).u8(0).u8(0xff).reader(0, 1);
    let group = reader.display_group().unwrap();
    assert_eq!(group.name, "Root");
    assert_eq!(group.name_en, "root");
    assert!(group.special);
    assert_eq!(
        group.elements,
        vec![DisplayElement::Bone(Some(0)), DisplayElement::Morph(Some(2)), DisplayElement::Bone(None)]
    );
    let mut reader = Bytes::new().text("").text("").u8(2).u32(0).reader(0, 1);
    assert!(!reader.display_group().unwrap().special);
    let mut reader = Bytes::new().text("").text("").u8(0).u32(1).u8(2).u8(0).reader(0, 1);
    assert_eq!(reader.display_group(), Err(Error::InvalidData("display_group::elements")));
    let mut reader = Bytes::new().u32(1).text("").text("").u8(0).u32(1).u8(2).u8(0).reader(0, 1);
    assert_eq!(reader.display_groups(), Err(Error::InvalidData("display_group::elements")));
    assert_eq!(Bytes::new().u8(1).u16(7).reader(0, 2).display_element(), Ok(DisplayElement::Morph(Some(7))));
}

fn rigid_bytes(shape: u8, method: u8) -> Bytes {
    Bytes::new()
        .text("body")
        .text("body_en")
        .u8(2)
        .u8(15)
        .u16(0xfffe)
        .u8(shape)
        .vec(&[1.0, 2.0, 3.0])
        .vec(&[4.0, 5.0, 6.0])
        .vec(&[7.0, 8.0, 9.0])
        .f32(10.0)
        .f32(0.1)
        .f32(0.2)
        .f32(0.3)
        .f32(0.4)
        .u8(method)
}

#[test]
fn rigid_fields() {
    let mut reader = rigid_bytes(2, 1).reader(0, 1);
    let rigid = reader.rigid().unwrap();
    assert_eq!(rigid.name, "body");
    assert_eq!(rigid.name_en, "body_en");
    assert_eq!(rigid.bone, Some(2));
    assert_eq!(rigid.group, 15);
    assert_eq!(rigid.non_collision_groups, 0xfffe);
    assert_eq!(rigid.shape, Shape::Capsule);
    assert_eq!(rigid.size, v3(1.0, 2.0, 3.0));
    assert_eq!(rigid.position, v3(4.0, 5.0, 6.0));
    assert_eq!(rigid.rotation, v3(7.0, 8.0, 9.0));
    assert_eq!(rigid.mass, b(10.0));
    assert_eq!(rigid.dump_translation, b(0.1));
    assert_eq!(rigid.dump_rotation, b(0.2));
    assert_eq!(rigid.repulsive, b(0.3));
    assert_eq!(rigid.friction, b(0.4));
    assert_eq!(rigid.method, Method::Dynamic);
    let shapes = [Shape::Sphere, Shape::Box, Shape::Capsule];
    let methods = [Method::Static, Method::Dynamic, Method::DynamicWithBone];
    for tag in 0u8..3 {
        let rigid = rigid_bytes(tag, tag).reader(0, 1).rigid().unwrap();
        assert_eq!(rigid.shape, shapes[tag as usize]);
        assert_eq!(rigid.method, methods[tag as usize]);
    }
}

#[test]
fn unknown_rigid_tags_are_refused() {
    assert_eq!(rigid_bytes(3, 0).reader(0, 1).rigid(), Err(Error::InvalidData("rigid::shape")));
    assert_eq!(rigid_bytes(0, 3).reader(0, 1).rigid(), Err(Error::InvalidData("rigid::method")));
    assert_eq!(rigid_bytes(3, 3).reader(0, 1).rigid(), Err(Error::InvalidData("rigid::shape")));
    assert_eq!(Bytes::new().u8(200).reader(0, 1).shape(), Err(Error::InvalidData("rigid::shape")));
    assert_eq!(Bytes::new().u8(200).reader(0, 1).method(), Err(Error::InvalidData("rigid::method")));
    let bytes = [2u32.to_le_bytes().to_vec(), rigid_bytes(0, 0).0, rigid_bytes(0, 9).0].concat();
    assert_eq!(Bytes(bytes).reader(0, 1).rigids(), Err(Error::InvalidData("rigid::method")));
}

fn joint_bytes(kind: u8) -> Bytes {
    Bytes::new()
        .text("joint")
        .text("joint_en")
        .u8(kind)
        .u8(0)
        .u8(0x80)
        .vec(&[1.0, 2.0, 3.0])
        .vec(&[4.0, 5.0, 6.0])
        .vec(&[-1.0, -1.0, -1.0])
        .vec(&[1.0, 1.0, 1.0])
        .vec(&[-2.0, -2.0, -2.0])
        .vec(&[2.0, 2.0, 2.0])
        .vec(&[7.0, 8.0, 9.0])
        .vec(&[10.0, 11.0, 12.0])
}

#[test]
fn joint_fields() {
    let bytes = joint_bytes(0);
    let len = bytes.0.len();
    let mut reader = bytes.reader(0, 1);
    let joint = reader.joint().unwrap();
    assert_eq!(joint.name, "joint");
    assert_eq!(joint.name_en, "joint_en");
    assert_eq!(joint.rigids, [Some(0), None]);
    assert_eq!(joint.position, v3(1.0, 2.0, 3.0));
    assert_eq!(joint.rotation, v3(4.0, 5.0, 6.0));
    assert_eq!(
        joint.limit_translation,
        AngleLimit { lower: v3(-1.0, -1.0, -1.0), upper: v3(1.0, 1.0, 1.0) }
    );
    assert_eq!(
        joint.limit_rotation,
        AngleLimit { lower: v3(-2.0, -2.0, -2.0), upper: v3(2.0, 2.0, 2.0) }
    );
    assert_eq!(joint.spring_translation, v3(7.0, 8.0, 9.0));
    assert_eq!(joint.spring_rotation, v3(10.0, 11.0, 12.0));
    assert_eq!(reader.position(), len);
}

#[test]
fn unknown_joint_type_is_refused() {
    for kind in 1u8..=255 {
        let mut reader = joint_bytes(kind).reader(0, 1);
        assert_eq!(reader.joint(), Err(Error::InvalidData("joint::type")));
        assert_eq!(reader.position(), 4 + 5 + 4 + 8 + 1);
    }
    let bytes = [1u32.to_le_bytes().to_vec(), joint_bytes(1).0].concat();
    assert_eq!(Bytes(bytes).reader(0, 1).joints(), Err(Error::InvalidData("joint::type")));
}

#[test]
fn every_record_cut_short_is_an_io_error() {
    let full = material_bytes(0, 0, 0, 3).0;
    for n in 0..full.len() {
        assert_eq!(Bytes(full[..n].to_vec()).reader(0, 1).material(), Err(EOF));
    }
    let flags = 0x0001 | 0x0020 | 0x0100 | 0x0400 | 0x0800 | 0x2000;
    let full = bone_head(flags)
        .u8(7)
        .u8(3)
        .f32(0.5)
        .vec(&[1.0, 0.0, 0.0])
        .vec(&[0.0, 1.0, 0.0, 0.0, 0.0, 1.0])
        .i32(12)
        .u8(9)
        .u32(40)
        .f32(2.0)
        .u32(1)
        .u8(2)
        .u8(1)
        .vec(&[-1.0, -2.0, -3.0, 1.0, 2.0, 3.0])
        .0;
    assert!(Bytes(full.clone()).reader(0, 1).bone().is_ok());
    for n in 0..full.len() {
        assert_eq!(Bytes(full[..n].to_vec()).reader(0, 1).bone(), Err(EOF));
    }
    let full = rigid_bytes(1, 1).0;
    for n in 0..full.len() {
        assert_eq!(Bytes(full[..n].to_vec()).reader(0, 1).rigid(), Err(EOF));
    }
    let full = joint_bytes(0).0;
    for n in 0..full.len() {
        assert_eq!(Bytes(full[..n].to_vec()).reader(0, 1).joint(), Err(EOF));
    }
    let full = bare_vertex().vec(&[0.0; 4]).u8(3).u8(1).u8(2).vec(&[0.0; 10]).f32(1.0).0;
    assert!(Bytes(full.clone()).reader(1, 1).vertex().is_ok());
    for n in 0..full.len() {
        assert_eq!(Bytes(full[..n].to_vec()).reader(1, 1).vertex(), Err(EOF));
    }
}
