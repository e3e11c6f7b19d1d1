use rse_assets::dynobj::{DynamicObject, DynamicObjectKind};
use rse_assets::err::ErrorKind;
use rse_assets::geometry::Object;
use rse_assets::map::{MapFile, PlanningLevel, Portal, Transition};
use rse_assets::room::ShermanLevel;
use rse_assets::vecs::{Vec3f, Vec6f, Vec8f};

fn le32(buf: &mut Vec<u8>, v: u32) {
    buf.push((v & 0xff) as u8);
    buf.push(((v >> 8) & 0xff) as u8);
    buf.push(((v >> 16) & 0xff) as u8);
    buf.push(((v >> 24) & 0xff) as u8);
}

fn le16(buf: &mut Vec<u8>, v: u16) {
    buf.push((v & 0xff) as u8);
    buf.push(((v >> 8) & 0xff) as u8);
}

fn cstring(buf: &mut Vec<u8>, text: &[u8]) {
    le32(buf, (text.len() + 1) as u32);
    buf.extend_from_slice(text);
    buf.push(0);
}

fn header(buf: &mut Vec<u8>, id: u32, name: &[u8]) {
    le32(buf, 0);
    le32(buf, id);
    cstring(buf, name);
}

/// A transform whose sixteen floats hold distinct recognizable values.
fn tm48(buf: &mut Vec<u8>) {
    for v in 100..112u32 {
        le32(buf, v);
    }
}

/// The common prefix block of the Dynamic, Animation and touchplate
/// grammars.
fn common_block(buf: &mut Vec<u8>) {
    tm48(buf);
    cstring(buf, b"common_name");
    le32(buf, 0); // flag integer
    for i in 0..4u8 {
        cstring(buf, &[b's', b'0' + i]); // sound names
    }
    cstring(buf, b"c2d");
    cstring(buf, b"c3d");
    cstring(buf, b"action");
    cstring(buf, b"category");
    cstring(buf, b"pen");
    cstring(buf, b"name_two");
    cstring(buf, b"category_two");
}

fn dynamic_object_prefix(buf: &mut Vec<u8>, id: u32) {
    header(buf, id, b"section");
    cstring(buf, b"object");
    tm48(buf);
}

#[test]
fn glass_grammar_reads_name_only() {
    let mut buf = Vec::new();
    dynamic_object_prefix(&mut buf, 20);
    cstring(&mut buf, b"pane");
    let (obj, end) = DynamicObject::read(&buf, 0).expect("the glass grammar decodes");
    assert_eq!(end, buf.len());
    assert_eq!(obj.section_id, 20);
    assert_eq!(obj.name, "object");
    match obj.kind {
        DynamicObjectKind::Glass { name } => assert_eq!(name, "pane"),
        other => panic!("id 20 must select the glass shape, got {other:?}"),
    }
}

#[test]
fn static_effect_grammar_has_no_payload() {
    let mut buf = Vec::new();
    dynamic_object_prefix(&mut buf, 36);
    let (obj, end) = DynamicObject::read(&buf, 0).expect("the static-effect grammar decodes");
    assert_eq!(end, buf.len());
    assert!(matches!(obj.kind, DynamicObjectKind::StaticEffect));
}

#[test]
fn halo_grammar_reads_name_vector_pairs() {
    let mut buf = Vec::new();
    dynamic_object_prefix(&mut buf, 31);
    le32(&mut buf, 2); // halo count
    cstring(&mut buf, b"h0");
    for v in 0..8u32 {
        le32(&mut buf, v);
    }
    cstring(&mut buf, b"h1");
    for v in 8..16u32 {
        le32(&mut buf, v);
    }
    let (obj, end) = DynamicObject::read(&buf, 0).expect("the halo grammar decodes");
    assert_eq!(end, buf.len());
    match obj.kind {
        DynamicObjectKind::Halo { halos } => {
            assert_eq!(halos.len(), 2);
            assert_eq!(halos[0].0, "h0");
            assert_eq!(
                halos[0].1,
                Vec8f { x1: 0, y1: 1, z1: 2, x2: 3, y2: 4, z2: 5, x3: 6, y3: 7 }
            );
            assert_eq!(halos[1].0, "h1");
            assert_eq!(halos[1].1.y3, 15);
        }
        other => panic!("id 31 must select the halo shape, got {other:?}"),
    }
}

#[test]
fn one_time_touchplate_grammar_reads_coordinates_and_attachments() {
    let mut buf = Vec::new();
    dynamic_object_prefix(&mut buf, 25);
    cstring(&mut buf, b"col2d");
    cstring(&mut buf, b"col3d");
    for v in 0..6u32 {
        le32(&mut buf, v);
    }
    le32(&mut buf, 1);
    cstring(&mut buf, b"attach");
    let (obj, end) = DynamicObject::read(&buf, 0).expect("the touchplate grammar decodes");
    assert_eq!(end, buf.len());
    match obj.kind {
        DynamicObjectKind::OneTimeTouchplate {
            collision_type_2d,
            collision_type_3d,
            coordinates,
            attachments,
        } => {
            assert_eq!(collision_type_2d, "col2d");
            assert_eq!(collision_type_3d, "col3d");
            assert_eq!(
                coordinates,
                Vec6f { x1: 0, y1: 1, z1: 2, x2: 3, y2: 4, z2: 5 }
            );
            assert_eq!(attachments, vec!["attach".to_string()]);
        }
        other => panic!("id 25 must select the one-time touchplate shape, got {other:?}"),
    }
}

#[test]
fn animation_grammar_reads_every_field() {
    let mut buf = Vec::new();
    dynamic_object_prefix(&mut buf, 15);
    common_block(&mut buf);
    le32(&mut buf, 77); // trailing integer after the common block
    le32(&mut buf, 2); // name count
    cstring(&mut buf, b"n0");
    cstring(&mut buf, b"n1");
    for v in 0..3u32 {
        le32(&mut buf, v);
    }
    le32(&mut buf, 88);
    cstring(&mut buf, b"n3");
    cstring(&mut buf, b"n4");
    cstring(&mut buf, b"slide");
    le32(&mut buf, 1); // direction x
    le32(&mut buf, 2); // direction y
    le32(&mut buf, 3); // direction z
    le32(&mut buf, 0x40a0_0000); // distance
    le32(&mut buf, 0x3f80_0000); // velocity
    let (obj, end) = DynamicObject::read(&buf, 0).expect("the animation grammar decodes");
    assert_eq!(end, buf.len());
    match obj.kind {
        DynamicObjectKind::Animation {
            common,
            unknown2,
            names,
            unknown3,
            unknown4,
            name3,
            name4,
            animation_type,
            direction,
            distance,
            velocity,
        } => {
            assert_eq!(common.name, "common_name");
            assert_eq!(common.sounds, vec!["s0", "s1", "s2", "s3"]);
            assert_eq!(common.collision_type_2d, "c2d");
            assert_eq!(common.destruction_category2, "category_two");
            assert_eq!(unknown2, 77);
            assert_eq!(names, vec!["n0".to_string(), "n1".to_string()]);
            assert_eq!(unknown3, vec![0, 1, 2]);
            assert_eq!(unknown4, 88);
            assert_eq!(name3, "n3");
            assert_eq!(name4, "n4");
            assert_eq!(animation_type, "slide");
            assert_eq!(direction, Vec3f { x: 1, y: 2, z: 3 });
            assert_eq!(distance, 0x40a0_0000);
            assert_eq!(velocity, 0x3f80_0000);
        }
        other => panic!("id 15 must select the animation shape, got {other:?}"),
    }
}

#[test]
fn repeatable_touchplate_grammar_reads_every_field() {
    let mut buf = Vec::new();
    dynamic_object_prefix(&mut buf, 16);
    common_block(&mut buf);
    le32(&mut buf, 5);
    le32(&mut buf, 1); // attachment count
    cstring(&mut buf, b"door_frame");
    for v in 0..3u32 {
        le32(&mut buf, v);
    }
    le32(&mut buf, 1); // name count
    cstring(&mut buf, b"adt");
    cstring(&mut buf, b"m2");
    cstring(&mut buf, b"m3");
    cstring(&mut buf, b"swing");
    for v in 4..7u32 {
        le32(&mut buf, v); // direction
    }
    le32(&mut buf, 10); // distance
    le32(&mut buf, 20); // velocity
    let (obj, end) = DynamicObject::read(&buf, 0).expect("the repeatable grammar decodes");
    assert_eq!(end, buf.len());
    match obj.kind {
        DynamicObjectKind::RepeatableTouchplate {
            unknown1, attachments, names, name2, name3, animation_type, direction, ..
        } => {
            assert_eq!(unknown1, 5);
            assert_eq!(attachments, vec!["door_frame".to_string()]);
            assert_eq!(names, vec!["adt".to_string()]);
            assert_eq!(name2, "m2");
            assert_eq!(name3, "m3");
            assert_eq!(animation_type, "swing");
            assert_eq!(direction, Vec3f { x: 4, y: 5, z: 6 });
        }
        other => panic!("id 16 must select the repeatable shape, got {other:?}"),
    }
}

#[test]
fn dynamic_grammar_combines_common_block_and_params() {
    let mut buf = Vec::new();
    dynamic_object_prefix(&mut buf, 14);
    common_block(&mut buf);
    le32(&mut buf, 0); // shadow count: zero, flat grammar
    le32(&mut buf, 1);
    cstring(&mut buf, b"tv_channel");
    for v in 0..4u32 {
        le32(&mut buf, v);
    }
    let (obj, end) = DynamicObject::read(&buf, 0).expect("the dynamic grammar decodes");
    assert_eq!(end, buf.len());
    match obj.kind {
        DynamicObjectKind::Dynamic { common, params } => {
            assert_eq!(common.name2, "name_two");
            match params {
                rse_assets::dynobj::KindDynamicParams::Flat { names, unknown } => {
                    assert_eq!(names, vec!["tv_channel".to_string()]);
                    assert_eq!(unknown, vec![0, 1, 2, 3]);
                }
                other => panic!("a zero shadow count selects the flat grammar, got {other:?}"),
            }
        }
        other => panic!("id 14 must select the dynamic shape, got {other:?}"),
    }
}

/// One geometry object with one of everything.
fn object_bytes(buf: &mut Vec<u8>) {
    header(buf, 50, b"obj_outer");
    header(buf, 51, b"obj_inner");
    le32(buf, 2); // vertex count
    for v in 0..6u32 {
        le32(buf, v);
    }
    le32(buf, 1); // object-data count
    le32(buf, 9); // object-data tag
    // face block: one face
    le32(buf, 1);
    for v in 10..14u32 {
        le32(buf, v); // one face normal
    }
    for v in 0..3u16 {
        le16(buf, v); // one vertex-index triple
    }
    for v in 3..6u16 {
        le16(buf, v); // one texture-index triple
    }
    // texture-vertex block: one entry
    le32(buf, 1);
    for v in 20..23u32 {
        le32(buf, v); // one normal coordinate
    }
    le32(buf, 30); // u
    le32(buf, 31); // v
    for v in 40..44u32 {
        le32(buf, v); // one face color
    }
    // collision geometry
    le32(buf, 1);
    for v in 50..53u32 {
        le32(buf, v); // one collision vertex
    }
    le32(buf, 1);
    for v in 60..64u32 {
        le32(buf, v); // one collision face normal
    }
    // tags
    le32(buf, 1);
    for v in 0..8u16 {
        le16(buf, v);
    }
    // indexed names
    le32(buf, 1);
    cstring(buf, b"part");
    le32(buf, 70);
    le32(buf, 2);
    le16(buf, 7);
    le16(buf, 8);
}

#[test]
fn geometry_object_decodes_all_nested_blocks() {
    let mut buf = Vec::new();
    object_bytes(&mut buf);
    let (o, end) = Object::read(&buf, 0).expect("the geometry object decodes");
    assert_eq!(end, buf.len());
    assert_eq!(o.id, 50);
    assert_eq!(o.name, "obj_outer");
    assert_eq!(o.object_id, 51);
    assert_eq!(o.object_name, "obj_inner");
    assert_eq!(o.vertices.len(), 2);
    assert_eq!(o.vertices[1].z, 5);
    assert_eq!(o.object_datas.len(), 1);
    let data = &o.object_datas[0];
    assert_eq!(data.mn, 9);
    assert_eq!(data.faces.normals.len(), 1);
    assert_eq!(data.faces.normals[0].distance_origin_to_face, 13);
    assert_eq!(data.faces.face_indices[0], (0, 1, 2));
    assert_eq!(data.faces.texture_indices[0], (3, 4, 5));
    assert_eq!(data.texture_vertices.normals.len(), 1);
    assert_eq!(data.texture_vertices.uv_coords[0].u, 30);
    assert_eq!(data.texture_vertices.face_colors[0].a, 43);
    assert_eq!(o.collisions.vertices.len(), 1);
    assert_eq!(o.collisions.faces.len(), 1);
    assert_eq!(o.tags.len(), 1);
    assert_eq!(o.tags[0].coord1, (0, 1, 2));
    assert_eq!(o.tags[0].face_index_1, 3);
    assert_eq!(o.tags[0].coord2, (4, 5, 6));
    assert_eq!(o.tags[0].face_index_2, 7);
    assert_eq!(o.ind.len(), 1);
    assert_eq!(o.ind[0].text, "part");
    assert_eq!(o.ind[0].mn, 70);
    assert_eq!(o.ind[0].indices, vec![7, 8]);
}

#[test]
fn populated_map_decodes_end_to_end() {
    let mut buf = Vec::new();
    cstring(&mut buf, b"BeginMapv2.1");
    le32(&mut buf, 42); // timestamp
    // materials: none
    header(&mut buf, 1, b"MaterialList");
    le32(&mut buf, 0);
    // geometries: one object
    header(&mut buf, 2, b"GeometryList");
    le32(&mut buf, 1);
    object_bytes(&mut buf);
    // portals: one
    header(&mut buf, 3, b"PortalList");
    le32(&mut buf, 1);
    header(&mut buf, 30, b"portal_a");
    le32(&mut buf, 1); // coordinate count
    for v in 0..3u32 {
        le32(&mut buf, v);
    }
    le32(&mut buf, 4); // room
    le32(&mut buf, 5); // opposite room
    // lights
    header(&mut buf, 4, b"LightList");
    le32(&mut buf, 0);
    // dynamic objects: one static effect
    header(&mut buf, 5, b"DynamicObjectList");
    le32(&mut buf, 1);
    header(&mut buf, 36, b"fx");
    cstring(&mut buf, b"steam");
    tm48(&mut buf);
    // rooms: one with a level
    header(&mut buf, 6, b"RoomList");
    le32(&mut buf, 1);
    le32(&mut buf, 60); // short header id
    cstring(&mut buf, b"lobby");
    buf.push(1); // flag 1 nonzero
    buf.push(0);
    buf.push(0);
    le32(&mut buf, 1); // level count
    cstring(&mut buf, b"ground");
    le32(&mut buf, 1); // transform count
    for v in 0..18u32 {
        le32(&mut buf, v); // transform and bounding box
    }
    le32(&mut buf, 2); // float count
    le32(&mut buf, 1);
    le32(&mut buf, 2);
    buf.push(3); // trailing byte
    le32(&mut buf, 1); // height count
    le32(&mut buf, 0x4000_0000); // float before the height list
    le32(&mut buf, 7);
    le32(&mut buf, 8);
    // transitions: one
    header(&mut buf, 7, b"TransitionList");
    le32(&mut buf, 1);
    cstring(&mut buf, b"door_a_b");
    for v in 0..6u32 {
        le32(&mut buf, v);
    }
    // planning levels: one
    header(&mut buf, 8, b"PlanningLevelList");
    le32(&mut buf, 1);
    le32(&mut buf, 0x3f80_0000); // level number
    le32(&mut buf, 0); // floor height
    le32(&mut buf, 2); // room name count
    cstring(&mut buf, b"lobby");
    cstring(&mut buf, b"vault");
    cstring(&mut buf, b"EndMap");

    let (map, end) = MapFile::read(&buf, 0).expect("the populated MAP decodes");
    assert_eq!(end, buf.len());
    assert_eq!(map.header.timestamp, 42);
    assert_eq!(map.geometries.objects.len(), 1);
    let portal: &Portal = &map.portals.portals[0];
    assert_eq!(portal.id, 30);
    assert_eq!(portal.name, "portal_a");
    assert_eq!(portal.coordinates.len(), 1);
    assert_eq!(portal.room, 4);
    assert_eq!(portal.opposite_room, 5);
    assert_eq!(map.dynamic_objects.dynamic_objects.len(), 1);
    assert_eq!(map.dynamic_objects.dynamic_objects[0].name, "steam");
    assert_eq!(map.rooms.rooms.len(), 1);
    let room = &map.rooms.rooms[0];
    assert_eq!(room.section_name, "lobby");
    let level: &ShermanLevel = &room.sherman_levels[0];
    assert_eq!(level.name, "ground");
    assert_eq!(level.tm_with_aabb.len(), 1);
    assert_eq!(level.tm_with_aabb[0].aabb, vec![12, 13, 14, 15, 16, 17]);
    assert_eq!(level.unknown1, vec![1, 2]);
    assert_eq!(level.unknown2, 3);
    assert_eq!(room.level_heights.len(), 1);
    assert_eq!(room.level_heights[0].height, 7);
    assert_eq!(room.level_heights[0].unknown, 8);
    let transition: &Transition = &map.transitions.transitions[0];
    assert_eq!(transition.name, "door_a_b");
    assert_eq!(transition.coords.p2, Vec3f { x: 3, y: 4, z: 5 });
    let plan: &PlanningLevel = &map.planning_levels.levels[0];
    assert_eq!(plan.level_number, 0x3f80_0000);
    assert_eq!(plan.room_names, vec!["lobby".to_string(), "vault".to_string()]);
}

#[test]
fn truncated_geometry_object_fails_with_truncation() {
    let mut buf = Vec::new();
    object_bytes(&mut buf);
    let cut = &buf[..buf.len() - 1];
    let e = Object::read(cut, 0).expect_err("a truncated object must fail");
    assert_eq!(e.kind, ErrorKind::TruncatedInput);
}
