use rse_assets::dynobj::{DynamicObject, Id, KindDynamicParams};
use rse_assets::err::ErrorKind;
use rse_assets::geometry::{EIndices, Faces};
use rse_assets::map::{MapFile, MapHeader};
use rse_assets::material::{Material, TextureAddressMode};
use rse_assets::prim::latin1_to_utf8;
use rse_assets::room::Room;
use rse_assets::section::section_header;

fn le32(buf: &mut Vec<u8>, v: u32) {
    buf.push((v & 0xff) as u8);
    buf.push(((v >> 8) & 0xff) as u8);
    buf.push(((v >> 16) & 0xff) as u8);
    buf.push(((v >> 24) & 0xff) as u8);
}

fn le16(buf: &mut Vec<u8>, v: u16) {
    buf.push((v & 0xff) as u8);
    buf.push(((v >> 8) & 0xff) as u8);
}

/// A length-prefixed string as stored on disk: the length counts the
/// content plus one terminator byte, which the reader strips.
fn cstring(buf: &mut Vec<u8>, text: &[u8]) {
    le32(buf, (text.len() + 1) as u32);
    buf.extend_from_slice(text);
    buf.push(0);
}

/// The long section-header form: a discarded byte size, an id and a name.
fn header(buf: &mut Vec<u8>, id: u32, name: &[u8]) {
    le32(buf, 0);
    le32(buf, id);
    cstring(buf, name);
}

/// The short section-header form: an id and a name, without a byte size.
fn header_short(buf: &mut Vec<u8>, id: u32, name: &[u8]) {
    le32(buf, id);
    cstring(buf, name);
}

/// A minimal MAP buffer: magic, timestamp, eight sections each with a
/// zero count, and the closing literal.
fn minimal_map() -> Vec<u8> {
    let mut buf = Vec::new();
    cstring(&mut buf, b"BeginMapv2.1");
    le32(&mut buf, 0x5d00_0000); // timestamp
    header(&mut buf, 1, b"MaterialList");
    le32(&mut buf, 0);
    header(&mut buf, 2, b"GeometryList");
    le32(&mut buf, 0);
    header(&mut buf, 3, b"PortalList");
    le32(&mut buf, 0);
    header(&mut buf, 4, b"LightList");
    le32(&mut buf, 0);
    header(&mut buf, 5, b"DynamicObjectList");
    le32(&mut buf, 0);
    header(&mut buf, 6, b"RoomList");
    le32(&mut buf, 0);
    header(&mut buf, 7, b"TransitionList");
    le32(&mut buf, 0);
    header(&mut buf, 8, b"PlanningLevelList");
    le32(&mut buf, 0);
    cstring(&mut buf, b"EndMap");
    buf
}

#[test]
fn minimal_map_decodes_with_all_sections_empty() {
    let buf = minimal_map();
    let (map, end) = MapFile::read(&buf, 0).expect("the minimal MAP decodes");
    assert_eq!(end, buf.len());
    assert_eq!(map.materials.materials.len(), 0);
    assert_eq!(map.geometries.objects.len(), 0);
    assert_eq!(map.portals.portals.len(), 0);
    assert_eq!(map.lights.light_count, 0);
    assert_eq!(map.dynamic_objects.dynamic_objects.len(), 0);
    assert_eq!(map.rooms.rooms.len(), 0);
    assert_eq!(map.transitions.transitions.len(), 0);
    assert_eq!(map.planning_levels.levels.len(), 0);
}

#[test]
fn map_decode_is_idempotent() {
    let buf = minimal_map();
    let first = MapFile::read(&buf, 0).expect("decodes");
    let second = MapFile::read(&buf, 0).expect("decodes again");
    assert_eq!(first, second);
}

#[test]
fn wrong_magic_is_rejected() {
    let mut buf = Vec::new();
    cstring(&mut buf, b"XeginMapv2.1");
    le32(&mut buf, 0);
    let e = MapFile::read(&buf, 0).expect_err("a wrong magic must fail");
    assert_eq!(e.kind, ErrorKind::MagicMismatch);
    // The innermost label holds the literal bytes observed in place of the
    // magic, through the Latin-1 remap.
    assert_eq!(e.labels.first().map(String::as_str), Some("XeginMapv2.1"));
}

#[test]
fn wrong_magic_label_preserves_latin1_bytes() {
    let mut buf = Vec::new();
    cstring(&mut buf, &[0x42, 0xe9, 0x67]);
    let e = MapFile::read(&buf, 0).expect_err("a wrong magic must fail");
    assert_eq!(e.kind, ErrorKind::MagicMismatch);
    assert_eq!(e.labels.first().map(String::as_str), Some("B\u{e9}g"));
}

#[test]
fn missing_terminator_is_rejected() {
    let mut buf = minimal_map();
    // Replace the closing literal with another string of the same shape.
    let cut = buf.len() - (4 + 6 + 1);
    buf.truncate(cut);
    cstring(&mut buf, b"NotEnd");
    let e = MapFile::read(&buf, 0).expect_err("a wrong closing literal must fail");
    assert_eq!(e.kind, ErrorKind::MissingTerminator);
}

#[test]
fn truncated_map_fails_cleanly() {
    let buf = minimal_map();
    let cut = &buf[..buf.len() - 9];
    let e = MapFile::read(cut, 0).expect_err("a truncated MAP must fail");
    assert_eq!(e.kind, ErrorKind::TruncatedInput);
}

#[test]
fn zero_length_string_is_rejected() {
    let mut buf = Vec::new();
    le32(&mut buf, 0); // declared string length 0
    let e = MapFile::read(&buf, 0).expect_err("a zero-length string must fail");
    assert_eq!(e.kind, ErrorKind::EmptyString);
}

#[test]
fn map_header_reads_timestamp() {
    let mut buf = Vec::new();
    cstring(&mut buf, b"BeginMapv2.1");
    le32(&mut buf, 0x1234_5678);
    let (h, end) = MapHeader::read(&buf, 0).expect("the header decodes");
    assert_eq!(h, MapHeader { timestamp: 0x1234_5678 });
    assert_eq!(end, buf.len());
}

#[test]
fn unknown_discriminator_is_rejected() {
    assert!(Id::try_from(14).is_ok());
    assert!(Id::try_from(36).is_ok());
    let e = Id::try_from(99).expect_err("an unmapped discriminator must fail");
    assert_eq!(e.kind, ErrorKind::UnknownDiscriminator);

    let mut buf = Vec::new();
    header(&mut buf, 99, b"mystery");
    cstring(&mut buf, b"object");
    for _ in 0..12 {
        le32(&mut buf, 0); // transformation matrix
    }
    let e = DynamicObject::read(&buf, 0).expect_err("an unmapped discriminator must fail");
    assert_eq!(e.kind, ErrorKind::UnknownDiscriminator);
}

#[test]
fn section_header_version_convention_returns_second_name() {
    let mut buf = Vec::new();
    le32(&mut buf, 77); // discarded byte size
    le32(&mut buf, 5); // id
    cstring(&mut buf, b"Version");
    le32(&mut buf, 3); // discarded inline version number
    cstring(&mut buf, b"short_name");
    let ((id, name), end) = section_header(&buf, 0).expect("the header decodes");
    assert_eq!(id, 5);
    assert_eq!(name, "short_name");
    assert_eq!(end, buf.len());
}

#[test]
fn section_header_plain_name_is_kept() {
    let mut buf = Vec::new();
    le32(&mut buf, 0);
    le32(&mut buf, 9);
    cstring(&mut buf, b"Rooms");
    let ((id, name), _) = section_header(&buf, 0).expect("the header decodes");
    assert_eq!(id, 9);
    assert_eq!(name, "Rooms");
}

#[test]
fn latin1_bytes_map_to_identical_code_points() {
    // "intérieur": byte 0xE9 is the Latin-1 e-acute, a single byte on disk.
    let raw = [
        0x69u8, 0x6e, 0x74, 0xe9, 0x72, 0x69, 0x65, 0x75, 0x72,
    ];
    let text = latin1_to_utf8(&raw);
    assert_eq!(text, "int\u{e9}rieur");
    assert_eq!(text.chars().count(), 9);
}

#[test]
fn material_record_decodes_every_field() {
    let mut buf = Vec::new();
    header(&mut buf, 21, b"wall_paint");
    cstring(&mut buf, b"paint.bmp");
    le32(&mut buf, 0x3f80_0000); // opacity: the bits of 1.0
    le32(&mut buf, 2); // emissive strength
    le32(&mut buf, 3); // address mode: Clamp
    for c in 0..12u32 {
        le32(&mut buf, c); // ambient, diffuse, specular
    }
    le32(&mut buf, 0x3f00_0000); // specular level
    buf.push(1); // two sided: true
    let (m, end) = Material::read(&buf, 0).expect("the material decodes");
    assert_eq!(end, buf.len());
    assert_eq!(m.id, 21);
    assert_eq!(m.name, "wall_paint");
    assert_eq!(m.filename, "paint.bmp");
    assert_eq!(m.opacity, 0x3f80_0000);
    assert_eq!(m.emissive_strength, 2);
    assert_eq!(m.address_mode, TextureAddressMode::Clamp);
    assert_eq!(m.ambient.r, 0);
    assert_eq!(m.diffuse.r, 4);
    assert_eq!(m.specular.a, 11);
    assert_eq!(m.specular_level, 0x3f00_0000);
    assert!(m.two_sided);
}

#[test]
fn unknown_texture_address_mode_is_rejected() {
    let mut buf = Vec::new();
    header(&mut buf, 21, b"m");
    cstring(&mut buf, b"f.bmp");
    le32(&mut buf, 0);
    le32(&mut buf, 0);
    le32(&mut buf, 2); // 2 is not a texture address mode
    let e = Material::read(&buf, 0).expect_err("an unmapped address mode must fail");
    assert_eq!(e.kind, ErrorKind::UnknownDiscriminator);
}

#[test]
fn eindices_length_matches_count_field() {
    let mut buf = Vec::new();
    cstring(&mut buf, b"marker");
    le32(&mut buf, 12); // record id
    le32(&mut buf, 3); // index count
    le16(&mut buf, 10);
    le16(&mut buf, 20);
    le16(&mut buf, 30);
    let (e, end) = EIndices::read(&buf, 0).expect("the record decodes");
    assert_eq!(end, buf.len());
    assert_eq!(e.text, "marker");
    assert_eq!(e.mn, 12);
    assert_eq!(e.indices.len(), 3);
    assert_eq!(e.indices, vec![10, 20, 30]);
}

#[test]
fn faces_parallel_arrays_share_one_count() {
    let mut buf = Vec::new();
    le32(&mut buf, 2); // face count
    for v in 0..8u32 {
        le32(&mut buf, v); // two face normals, four floats each
    }
    for v in 0..6u16 {
        le16(&mut buf, v); // two vertex-index triples
    }
    for v in 6..12u16 {
        le16(&mut buf, v); // two texture-index triples
    }
    let (f, end) = Faces::read(&buf, 0).expect("the face block decodes");
    assert_eq!(end, buf.len());
    assert_eq!(f.normals.len(), 2);
    assert_eq!(f.face_indices.len(), 2);
    assert_eq!(f.texture_indices.len(), 2);
    assert_eq!(f.face_indices[0], (0, 1, 2));
    assert_eq!(f.texture_indices[1], (9, 10, 11));
}

#[test]
fn room_conditional_chain_follows_flag_values() {
    let mut buf = Vec::new();
    header_short(&mut buf, 41, b"lobby");
    buf.push(0); // flag 1: zero, so the extra byte follows
    buf.push(5); // flag 2
    buf.push(1); // flag 3: one, so the first float block follows
    buf.push(1); // the optional byte: one, so the second float block follows
    for v in 0..6u32 {
        le32(&mut buf, v); // first optional float block
    }
    for v in 6..12u32 {
        le32(&mut buf, v); // second optional float block
    }
    le32(&mut buf, 0); // level count
    le32(&mut buf, 0); // height count
    le32(&mut buf, 0x4120_0000); // trailing float before the height list
    let (room, end) = Room::read(&buf, 0).expect("the room decodes");
    assert_eq!(end, buf.len());
    assert_eq!(room.section_id, 41);
    assert_eq!(room.section_name, "lobby");
    assert_eq!(room.unknown4, Some(1));
    assert_eq!(room.unknown5, Some(vec![0, 1, 2, 3, 4, 5]));
    assert_eq!(room.unknown6, Some(vec![6, 7, 8, 9, 10, 11]));
    assert_eq!(room.unknown7, 0x4120_0000);
    assert!(room.sherman_levels.is_empty());
    assert!(room.level_heights.is_empty());
}

#[test]
fn room_without_flags_skips_optional_fields() {
    let mut buf = Vec::new();
    header_short(&mut buf, 41, b"vault");
    buf.push(2); // flag 1 nonzero: no optional byte
    buf.push(0); // flag 2
    buf.push(0); // flag 3 not one: no float block
    le32(&mut buf, 0); // level count
    le32(&mut buf, 0); // height count
    le32(&mut buf, 0); // trailing float
    let (room, end) = Room::read(&buf, 0).expect("the room decodes");
    assert_eq!(end, buf.len());
    assert_eq!(room.unknown4, None);
    assert_eq!(room.unknown5, None);
    assert_eq!(room.unknown6, None);
}

#[test]
fn shadow_count_zero_switches_to_flat_grammar() {
    let mut buf = Vec::new();
    le32(&mut buf, 0); // the leading count is zero: not an empty list
    le32(&mut buf, 2); // the second, independent count
    cstring(&mut buf, b"alpha");
    cstring(&mut buf, b"beta");
    for v in 0..4u32 {
        le32(&mut buf, v); // the four trailing floats
    }
    let (params, end) = KindDynamicParams::read(&buf, 0).expect("the flat grammar decodes");
    assert_eq!(end, buf.len());
    match params {
        KindDynamicParams::Flat { names, unknown } => {
            assert_eq!(names, vec!["alpha".to_string(), "beta".to_string()]);
            assert_eq!(unknown, vec![0, 1, 2, 3]);
        }
        KindDynamicParams::Struct(_) => panic!("a zero shadow count selects the flat grammar"),
    }
}

#[test]
fn shadow_count_positive_reads_struct_blocks() {
    let mut buf = Vec::new();
    le32(&mut buf, 1); // one struct block
    cstring(&mut buf, b"screen");
    for v in 0..9u32 {
        le32(&mut buf, v); // nine floats
    }
    le32(&mut buf, 100);
    le32(&mut buf, 200);
    let (params, end) = KindDynamicParams::read(&buf, 0).expect("the struct grammar decodes");
    assert_eq!(end, buf.len());
    match params {
        KindDynamicParams::Struct(blocks) => {
            assert_eq!(blocks.len(), 1);
            assert_eq!(blocks[0].name, "screen");
            assert_eq!(blocks[0].unknown1.len(), 9);
            assert_eq!(blocks[0].unknown2, vec![100, 200]);
        }
        KindDynamicParams::Flat { .. } => panic!("a positive count selects the struct grammar"),
    }
}

#[test]
fn error_chain_carries_location_labels() {
    let buf = minimal_map();
    let cut = &buf[..23]; // inside the materials section header
    let e = MapFile::read(cut, 0).expect_err("a truncated MAP must fail");
    assert_eq!(e.kind, ErrorKind::TruncatedInput);
    // The whole ordered chain, innermost first, from the failing primitive
    // up to the failing top-level section.
    assert_eq!(
        e.labels,
        vec![
            "failed to read section size".to_string(),
            "material list section header".to_string(),
            "Materials List".to_string(),
        ]
    );
}
