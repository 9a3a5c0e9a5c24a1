use pmx::text::{assemble_utf16, decode};
use pmx::wire::{
    i32_from_le, signed_index_from_le, u16_from_le, u32_from_le, vertex_index_from_le,
};
use pmx::{Binary32, Encoding, Error, Header, IoError, Reader};

fn header(encoding: Encoding, extended_uv: u8, width: u8) -> Header {
    Header {
        version: Binary32 { bits: 2.0f32.to_bits() },
        encoding,
        extended_uv,
        vertex_index_size: width,
        texture_index_size: width,
        material_index_size: width,
        bone_index_size: width,
        morph_index_size: width,
        rigid_index_size: width,
    }
}

fn reader(bytes: Vec<u8>, encoding: Encoding, width: u8) -> Reader {
    let mut reader = Reader::new(bytes);
    reader.configure(&header(encoding, 0, width));
    reader
}

const EOF: Error = Error::Io(IoError::UnexpectedEof);

#[test]
fn little_endian_values() {
    assert_eq!(u16_from_le([0x34, 0x12]), 0x1234);
    assert_eq!(u16_from_le([0xff, 0xff]), 0xffff);
    assert_eq!(u32_from_le([0x78, 0x56, 0x34, 0x12]), 0x1234_5678);
    assert_eq!(u32_from_le([0xff, 0xff, 0xff, 0xff]), u32::MAX);
    assert_eq!(i32_from_le([0xff, 0xff, 0xff, 0xff]), -1);
    assert_eq!(i32_from_le([0x00, 0x00, 0x00, 0x80]), i32::MIN);
    assert_eq!(i32_from_le([0xff, 0xff, 0xff, 0x7f]), i32::MAX);
    assert_eq!(i32_from_le([0x2a, 0, 0, 0]), 42);
}

#[test]
fn little_endian_values_agree_with_std() {
    for v in [0u32, 1, 0x80, 0xff, 0x100, 0x7fff_ffff, 0x8000_0000, 0xdead_beef, u32::MAX] {
        assert_eq!(u32_from_le(v.to_le_bytes()), v);
        assert_eq!(i32_from_le(v.to_le_bytes()), v as i32);
        assert_eq!(u16_from_le((v as u16).to_le_bytes()), v as u16);
    }
}

#[test]
fn signed_index_is_absent_iff_negative() {
    for v in i8::MIN..=i8::MAX {
        let expected = if v < 0 { None } else { Some(v as usize) };
        assert_eq!(signed_index_from_le(v.to_le_bytes()), expected);
    }
    for v in [i16::MIN, -2, -1, 0, 1, 0x7f, 0x80, 0xff, 0x100, i16::MAX] {
        let expected = if v < 0 { None } else { Some(v as usize) };
        assert_eq!(signed_index_from_le(v.to_le_bytes()), expected);
    }
    for v in [i32::MIN, -65536, -1, 0, 1, 0xffff, 0x1_0000, 0x1234_5678, i32::MAX] {
        let expected = if v < 0 { None } else { Some(v as usize) };
        assert_eq!(signed_index_from_le(v.to_le_bytes()), expected);
    }
}

#[test]
fn vertex_index_is_unsigned_in_one_and_two_bytes() {
    for v in u8::MIN..=u8::MAX {
        assert_eq!(vertex_index_from_le([v]), Some(v as usize));
    }
    for v in [0u16, 1, 0x7fff, 0x8000, 0xfffe, 0xffff] {
        assert_eq!(vertex_index_from_le(v.to_le_bytes()), Some(v as usize));
    }
    assert_eq!(vertex_index_from_le(7i32.to_le_bytes()), Some(7));
    assert_eq!(vertex_index_from_le(i32::MAX.to_le_bytes()), Some(i32::MAX as usize));
    assert_eq!(vertex_index_from_le((-1i32).to_le_bytes()), None);
    assert_eq!(vertex_index_from_le(i32::MIN.to_le_bytes()), None);
}

#[test]
fn reads_little_endian_u32() {
    let mut reader = Reader::new(vec![0x78, 0x56, 0x34, 0x12, 0xff]);
    assert_eq!(reader.read_u32(), Ok(0x1234_5678));
    assert_eq!(reader.position(), 4);
    assert_eq!(reader.read_u16(), Err(EOF));
    assert_eq!(reader.position(), 4);
    assert_eq!(reader.read_u8(), Ok(0xff));
    assert_eq!(reader.position(), 5);
    assert_eq!(reader.read_u8(), Err(EOF));
}

#[test]
fn read_bin_takes_the_bytes_in_order() {
    let mut reader = Reader::new(vec![1, 2, 3, 4, 5]);
    assert_eq!(reader.read_bin::<2>(), Ok([1, 2]));
    assert_eq!(reader.read_bin::<0>(), Ok([]));
    assert_eq!(reader.read_bin::<3>(), Ok([3, 4, 5]));
    assert_eq!(reader.read_bin::<0>(), Ok([]));
    assert_eq!(reader.read_bin::<1>(), Err(EOF));
    assert_eq!(reader.position(), 5);
}

#[test]
fn scalars_round_trip() {
    let mut bytes = Vec::new();
    bytes.push(0xabu8);
    bytes.extend_from_slice(&0xbeefu16.to_le_bytes());
    bytes.extend_from_slice(&0xdead_beefu32.to_le_bytes());
    bytes.extend_from_slice(&(-123_456_789i32).to_le_bytes());
    bytes.extend_from_slice(&(-1.5f32).to_le_bytes());
    bytes.extend_from_slice(&f32::NAN.to_le_bytes());
    let mut reader = Reader::new(bytes);
    assert_eq!(reader.read_u8(), Ok(0xab));
    assert_eq!(reader.read_u16(), Ok(0xbeef));
    assert_eq!(reader.read_u32(), Ok(0xdead_beef));
    assert_eq!(reader.read_i32(), Ok(-123_456_789));
    let x = reader.read_f32().unwrap();
    assert_eq!(f32::from_bits(x.bits), -1.5);
    assert_eq!(x.bits, 0xbfc0_0000);
    let nan = reader.read_f32().unwrap();
    assert_eq!(nan.bits, f32::NAN.to_bits());
    assert_eq!(reader.position(), 19);
}

#[test]
fn vectors_round_trip() {
    let values = [0.0f32, -0.0, 1.0, 3.25, f32::MAX, f32::MIN_POSITIVE, f32::INFINITY, -7.5, 9.0];
    let mut bytes = Vec::new();
    for v in values {
        bytes.extend_from_slice(&v.to_le_bytes());
    }
    let mut reader = Reader::new(bytes);
    let a = reader.read_vec2().unwrap();
    let b = reader.read_vec3().unwrap();
    let c = reader.read_vec4().unwrap();
    let got: Vec<u32> = a.iter().chain(b.iter()).chain(c.iter()).map(|x| x.bits).collect();
    let expected: Vec<u32> = values.iter().map(|v| v.to_bits()).collect();
    assert_eq!(got, expected);
    assert_eq!(f32::from_bits(b[1].bits), 3.25);
    assert_eq!(reader.position(), 36);
}

#[test]
fn a_vector_that_runs_out_stops_at_the_number_that_is_cut() {
    let mut bytes = Vec::new();
    bytes.extend_from_slice(&1.0f32.to_le_bytes());
    bytes.extend_from_slice(&2.0f32.to_le_bytes());
    bytes.extend_from_slice(&[0, 0, 0]);
    let mut reader = Reader::new(bytes);
    assert_eq!(reader.read_vec3(), Err(EOF));
    assert_eq!(reader.position(), 8);
    let mut reader = Reader::new(vec![]);
    assert_eq!(reader.read_vec::<4>(), Err(EOF));
    assert_eq!(reader.position(), 0);
    assert_eq!(reader.read_vec::<0>(), Ok([]));
}

#[test]
fn reads_utf8_text() {
    let text = "héllo, 世界";
    let mut bytes = (text.len() as u32).to_le_bytes().to_vec();
    bytes.extend_from_slice(text.as_bytes());
    bytes.push(0x99);
    let mut reader = reader(bytes, Encoding::Utf8, 1);
    assert_eq!(reader.read_string(), Ok(text.to_string()));
    assert_eq!(reader.position(), 4 + text.len());
}

#[test]
fn reads_utf16_text() {
    let text = "モデル a𝄞";
    let units: Vec<u16> = text.encode_utf16().collect();
    let mut bytes = ((units.len() * 2) as u32).to_le_bytes().to_vec();
    for unit in &units {
        bytes.extend_from_slice(&unit.to_le_bytes());
    }
    let mut reader = reader(bytes, Encoding::Utf16, 1);
    assert_eq!(reader.read_string(), Ok(text.to_string()));
}

#[test]
fn a_new_reader_takes_text_for_utf16() {
    let mut reader = Reader::new(vec![4, 0, 0, 0, 0x41, 0x00, 0x42, 0x00]);
    assert_eq!(reader.read_string(), Ok("AB".to_string()));
    assert_eq!(reader.position(), 8);
}

#[test]
fn malformed_text_is_replaced_not_refused() {
    let mut reader = reader(vec![3, 0, 0, 0, 0x41, 0xff, 0x42], Encoding::Utf8, 1);
    assert_eq!(reader.read_string(), Ok("A\u{fffd}B".to_string()));
    // A high surrogate without its partner, then 'A'.
    let mut reader = self::reader(vec![4, 0, 0, 0, 0x00, 0xd8, 0x41, 0x00], Encoding::Utf16, 1);
    assert_eq!(reader.read_string(), Ok("\u{fffd}A".to_string()));
}

#[test]
fn a_last_byte_without_a_partner_spells_nothing_in_utf16() {
    let mut reader = reader(vec![3, 0, 0, 0, 0x41, 0x00, 0x42], Encoding::Utf16, 1);
    assert_eq!(reader.read_string(), Ok("A".to_string()));
    assert_eq!(reader.position(), 7);
    assert_eq!(assemble_utf16(&[0x34, 0x12, 0xcd, 0xab, 0x99]), vec![0x1234, 0xabcd]);
    assert_eq!(assemble_utf16(&[0x34]), Vec::<u16>::new());
}

#[test]
fn decode_makes_text_of_bytes() {
    assert_eq!(decode(Encoding::Utf8, b"abc"), "abc");
    assert_eq!(decode(Encoding::Utf8, b""), "");
    assert_eq!(decode(Encoding::Utf16, &[0x61, 0x00, 0x42, 0x30]), "a\u{3042}");
    assert_eq!(decode(Encoding::Utf16, &[]), "");
}

#[test]
fn empty_text_takes_four_bytes() {
    let mut reader = reader(vec![0, 0, 0, 0], Encoding::Utf8, 1);
    assert_eq!(reader.read_string(), Ok(String::new()));
    assert_eq!(reader.position(), 4);
}

#[test]
fn text_that_runs_out_is_an_io_error() {
    let mut reader = reader(vec![5, 0, 0, 0, b'a', b'b'], Encoding::Utf8, 1);
    assert_eq!(reader.read_string(), Err(EOF));
    assert_eq!(reader.position(), 4);
    let mut reader = self::reader(vec![5, 0], Encoding::Utf8, 1);
    assert_eq!(reader.read_string(), Err(EOF));
    assert_eq!(reader.position(), 0);
    let mut reader = self::reader(vec![0xff, 0xff, 0xff, 0xff, 1, 2, 3], Encoding::Utf8, 1);
    assert_eq!(reader.read_string(), Err(EOF));
}

#[test]
fn signed_index_reads_each_width() {
    let mut reader = Reader::new(vec![0x05, 0x85, 0x34, 0x12, 0x00, 0x80, 1, 0, 0, 0, 0xff, 0xff, 0xff, 0xff]);
    assert_eq!(reader.read_signed_index(1), Ok(Some(5)));
    assert_eq!(reader.read_signed_index(1), Ok(None));
    assert_eq!(reader.read_signed_index(2), Ok(Some(0x1234)));
    assert_eq!(reader.read_signed_index(2), Ok(None));
    assert_eq!(reader.read_signed_index(4), Ok(Some(1)));
    assert_eq!(reader.read_signed_index(4), Ok(None));
    assert_eq!(reader.position(), 14);
    assert_eq!(reader.read_signed_index(1), Err(EOF));
}

#[test]
fn every_signed_kind_of_index_takes_the_high_bit_for_absent() {
    for width in [1u8, 2, 4] {
        let mut bytes = vec![0u8; width as usize];
        bytes[width as usize - 1] = 0x80;
        let mut present = vec![0u8; width as usize];
        present[0] = 0x85;
        let expected = if width == 1 { None } else { Some(0x85) };
        let make = |b: &Vec<u8>| self::reader(b.clone(), Encoding::Utf8, width);
        assert_eq!(make(&bytes).read_texture_index(), Ok(None));
        assert_eq!(make(&bytes).read_material_index(), Ok(None));
        assert_eq!(make(&bytes).read_bone_index(), Ok(None));
        assert_eq!(make(&bytes).read_morph_index(), Ok(None));
        assert_eq!(make(&bytes).read_rigid_index(), Ok(None));
        assert_eq!(make(&present).read_texture_index(), Ok(expected));
        assert_eq!(make(&present).read_material_index(), Ok(expected));
        assert_eq!(make(&present).read_bone_index(), Ok(expected));
        assert_eq!(make(&present).read_morph_index(), Ok(expected));
        assert_eq!(make(&present).read_rigid_index(), Ok(expected));
    }
}

#[test]
fn vertex_index_is_never_absent_in_one_or_two_bytes() {
    let mut one = reader(vec![0x85, 0xff], Encoding::Utf8, 1);
    assert_eq!(one.read_vertex_index(), Ok(Some(0x85)));
    assert_eq!(one.read_vertex_index(), Ok(Some(0xff)));
    assert_eq!(one.read_vertex_index(), Err(EOF));
    let mut two = reader(vec![0x00, 0x80, 0xff, 0xff], Encoding::Utf8, 2);
    assert_eq!(two.read_vertex_index(), Ok(Some(0x8000)));
    assert_eq!(two.read_vertex_index(), Ok(Some(0xffff)));
    let mut four = reader(vec![0, 0, 0, 0x80, 9, 0, 0, 0], Encoding::Utf8, 4);
    assert_eq!(four.read_vertex_index(), Ok(None));
    assert_eq!(four.read_vertex_index(), Ok(Some(9)));
}

#[test]
fn each_kind_of_index_has_its_own_width() {
    let mut reader = Reader::new(vec![1, 2, 0, 3, 0, 0, 0, 4, 5, 0, 6, 0, 0, 0]);
    reader.configure(&Header {
        version: Binary32 { bits: 0 },
        encoding: Encoding::Utf8,
        extended_uv: 0,
        vertex_index_size: 1,
        texture_index_size: 2,
        material_index_size: 4,
        bone_index_size: 1,
        morph_index_size: 2,
        rigid_index_size: 4,
    });
    assert_eq!(reader.read_vertex_index(), Ok(Some(1)));
    assert_eq!(reader.read_texture_index(), Ok(Some(2)));
    assert_eq!(reader.read_material_index(), Ok(Some(3)));
    assert_eq!(reader.read_bone_index(), Ok(Some(4)));
    assert_eq!(reader.read_morph_index(), Ok(Some(5)));
    assert_eq!(reader.read_rigid_index(), Ok(Some(6)));
    assert_eq!(reader.position(), 14);
}

#[test]
fn index_size_is_one_two_or_four() {
    for v in 0u8..=255 {
        let mut reader = Reader::new(vec![v]);
        let expected = match v {
            1 | 2 | 4 => Ok(v),
            _ => Err(Error::InvalidData("read_index_size")),
        };
        assert_eq!(reader.read_index_size(), expected);
        assert_eq!(reader.position(), 1);
    }
    assert_eq!(Reader::new(vec![]).read_index_size(), Err(EOF));
}

#[test]
fn layout_of_a_header_and_the_first_layout() {
    let h = header(Encoding::Utf8, 3, 2);
    let layout = h.layout();
    assert_eq!(layout.encoding, Encoding::Utf8);
    assert_eq!(layout.extended_uv, 3);
    assert_eq!(
        [layout.vertex, layout.texture, layout.material, layout.bone, layout.morph, layout.rigid],
        [2; 6]
    );
    let first = pmx::Layout::initial();
    assert_eq!(first.encoding, Encoding::Utf16);
    assert_eq!(first.extended_uv, 0);
}
