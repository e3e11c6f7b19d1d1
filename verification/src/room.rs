//! The Rooms section, including the conditional-field chain: three raw flag
//! bytes are followed by three optional fields whose presence is derived
//! from earlier values in strict order — one of them from the *value* of a
//! field that is itself optional.
use vstd::prelude::*;

use crate::err::{DecodeError, ErrorKind};
use crate::prim::{
    decodes, le32, lemma_sp_many_err_mono, lemma_sp_many_snoc, read_f32_bits, read_f32_bits_array,
    read_name, read_u32, read_u8, sp_many, sp_name, sp_u32, sp_u32_f, sp_u8,
};
use crate::section::{section_header, section_header_short, sp_section_header,
    sp_section_header_short};
use crate::vecs::{sp_tm, TransformationMatrix};

verus! {

broadcast use crate::prim::lemma_vec_u8_deep_view, crate::prim::lemma_vec_u32_deep_view;

/// A transform together with an axis-aligned bounding box of six floats.
#[derive(Clone, Debug, PartialEq)]
pub struct TransformationWithAABB {
    pub tm: TransformationMatrix,
    pub aabb: Vec<u32>,
}

/// The mathematical shape of a transform-with-bounding-box record.
pub struct TransformationWithAABBView {
    pub tm: TransformationMatrix,
    pub aabb: Seq<u32>,
}

impl DeepView for TransformationWithAABB {
    type V = TransformationWithAABBView;

    open spec fn deep_view(&self) -> TransformationWithAABBView {
        TransformationWithAABBView { tm: self.tm, aabb: self.aabb.deep_view() }
    }
}

/// A transform-with-bounding-box record: a transform, then six floats.
pub open spec fn sp_tm_with_aabb(s: Seq<u8>, pos: int) -> Result<
    (TransformationWithAABBView, int),
    ErrorKind,
> {
    match sp_tm(s, pos) {
        Err(k) => Err(k),
        Ok((tm, p1)) => match sp_many(s, p1, 6, sp_u32_f()) {
            Err(k) => Err(k),
            Ok((aabb, p2)) => Ok((TransformationWithAABBView { tm, aabb }, p2)),
        },
    }
}

/// The element parser of one transform-with-bounding-box record.
pub open spec fn sp_tm_with_aabb_f() -> spec_fn(Seq<u8>, int) -> Result<
    (TransformationWithAABBView, int),
    ErrorKind,
> {
    |s: Seq<u8>, pos: int| sp_tm_with_aabb(s, pos)
}

impl TransformationWithAABB {
    /// Read one transform-with-bounding-box record.
    pub fn read(s: &[u8], pos: usize) -> (r: Result<(Self, usize), DecodeError>)
        ensures
            decodes(r, sp_tm_with_aabb(s@, pos as int)),
    {
        let (tm, p1) = match TransformationMatrix::read(s, pos) {
            Ok(v) => v,
            Err(e) => {
                return Err(e.context("TM + AABB"));
            },
        };
        match read_f32_bits_array(s, p1, 6) {
            Ok((aabb, p2)) => Ok((TransformationWithAABB { tm, aabb }, p2)),
            Err(e) => Err(e.context("level TM + AABB side")),
        }
    }
}

/// One level entry of a room: a name, transform-with-bounding-box records,
/// a float list and one trailing byte.
#[derive(Clone, Debug, PartialEq)]
pub struct ShermanLevel {
    pub name: String,
    pub tm_with_aabb: Vec<TransformationWithAABB>,
    pub unknown1: Vec<u32>,
    pub unknown2: u8,
}

/// The mathematical shape of one room level entry.
pub struct ShermanLevelView {
    pub name: Seq<char>,
    pub tm_with_aabb: Seq<TransformationWithAABBView>,
    pub unknown1: Seq<u32>,
    pub unknown2: u8,
}

impl DeepView for ShermanLevel {
    type V = ShermanLevelView;

    open spec fn deep_view(&self) -> ShermanLevelView {
        ShermanLevelView {
            name: self.name@,
            tm_with_aabb: self.tm_with_aabb.deep_view(),
            unknown1: self.unknown1.deep_view(),
            unknown2: self.unknown2,
        }
    }
}

/// A room level entry record.
#[verifier::opaque]
pub open spec fn sp_sherman_level(s: Seq<u8>, pos: int) -> Result<(ShermanLevelView, int), ErrorKind> {
    match sp_name(s, pos) {
        Err(k) => Err(k),
        Ok((name, p1)) => match sp_u32(s, p1) {
            Err(k) => Err(k),
            Ok((n1, p2)) => match sp_many(s, p2, n1 as nat, sp_tm_with_aabb_f()) {
                Err(k) => Err(k),
                Ok((tm_with_aabb, p3)) => match sp_u32(s, p3) {
                    Err(k) => Err(k),
                    Ok((n2, p4)) => match sp_many(s, p4, n2 as nat, sp_u32_f()) {
                        Err(k) => Err(k),
                        Ok((unknown1, p5)) => match sp_u8(s, p5) {
                            Err(k) => Err(k),
                            Ok((unknown2, p6)) => Ok(
                                (ShermanLevelView { name, tm_with_aabb, unknown1, unknown2 }, p6),
                            ),
                        },
                    },
                },
            },
        },
    }
}

/// The element parser of one room level entry.
pub open spec fn sp_sherman_level_f() -> spec_fn(Seq<u8>, int) -> Result<
    (ShermanLevelView, int),
    ErrorKind,
> {
    |s: Seq<u8>, pos: int| sp_sherman_level(s, pos)
}

impl ShermanLevel {
    /// Read one room level entry.
    #[verifier::rlimit(50)]
    #[verifier::loop_isolation(false)]
    pub fn read(s: &[u8], pos: usize) -> (r: Result<(Self, usize), DecodeError>)
        ensures
            decodes(r, sp_sherman_level(s@, pos as int)),
    {
        proof {
            reveal(sp_sherman_level);
        }
        let (name, p1) = match read_name(s, pos) {
            Ok(v) => v,
            Err(e) => {
                return Err(e.context("level name"));
            },
        };
        let (n1, p2) = match read_u32(s, p1) {
            Ok(v) => v,
            Err(e) => {
                return Err(e.context("level TM + AABB count"));
            },
        };
        let mut tm_with_aabb: Vec<TransformationWithAABB> = Vec::new();
        let mut p = p2;
        let mut i: u32 = 0;
        assert(tm_with_aabb.deep_view() =~= Seq::<TransformationWithAABBView>::empty());
        while i < n1
            invariant
                i <= n1,
                sp_many(s@, p2 as int, i as nat, sp_tm_with_aabb_f()) == Ok::<
                    (Seq<TransformationWithAABBView>, int),
                    ErrorKind,
                >((tm_with_aabb.deep_view(), p as int)),
            decreases n1 - i,
        {
            proof {
                lemma_sp_many_snoc(
                    s@,
                    p2 as int,
                    i as nat,
                    sp_tm_with_aabb_f(),
                    tm_with_aabb.deep_view(),
                    p as int,
                );
            }
            match TransformationWithAABB::read(s, p) {
                Ok((v, p2x)) => {
                    let ghost old_dv = tm_with_aabb.deep_view();
                    tm_with_aabb.push(v);
                    assert(tm_with_aabb.deep_view() =~= old_dv.push(v.deep_view()));
                    p = p2x;
                    i = i + 1;
                },
                Err(e) => {
                    proof {
                        lemma_sp_many_err_mono(
                            s@,
                            p2 as int,
                            i as nat + 1,
                            n1 as nat,
                            sp_tm_with_aabb_f(),
                        );
                    }
                    return Err(e.context("level TM + AABBB"));
                },
            }
        }
        let (n2, p4) = match read_u32(s, p) {
            Ok(v) => v,
            Err(e) => {
                return Err(e.context("unknown count"));
            },
        };
        let (unknown1, p5) = match read_f32_bits_array(s, p4, n2) {
            Ok(v) => v,
            Err(e) => {
                return Err(e.context("level unknown1"));
            },
        };
        match read_u8(s, p5) {
            Ok((unknown2, p6)) => Ok((ShermanLevel { name, tm_with_aabb, unknown1, unknown2 }, p6)),
            Err(e) => Err(e.context("level unknown2")),
        }
    }
}

/// One entry of a room's trailing height list.
#[derive(Clone, Copy, Debug, PartialEq, Eq, Structural)]
pub struct LevelHeight {
    pub height: u32,
    pub unknown: u32,
}

impl DeepView for LevelHeight {
    type V = LevelHeight;

    open spec fn deep_view(&self) -> LevelHeight {
        *self
    }
}

/// A height-list entry: two floats.
pub open spec fn sp_level_height(s: Seq<u8>, pos: int) -> Result<(LevelHeight, int), ErrorKind> {
    if 0 <= pos && pos + 8 <= s.len() {
        Ok((LevelHeight { height: le32(s, pos), unknown: le32(s, pos + 4) }, pos + 8))
    } else {
        Err(ErrorKind::TruncatedInput)
    }
}

/// The element parser of one height-list entry.
pub open spec fn sp_level_height_f() -> spec_fn(Seq<u8>, int) -> Result<(LevelHeight, int), ErrorKind> {
    |s: Seq<u8>, pos: int| sp_level_height(s, pos)
}

impl LevelHeight {
    /// Read one height-list entry.
    pub fn read(s: &[u8], pos: usize) -> (r: Result<(Self, usize), DecodeError>)
        ensures
            decodes(r, sp_level_height(s@, pos as int)),
    {
        let (height, p1) = match read_f32_bits(s, pos) {
            Ok(v) => v,
            Err(e) => {
                return Err(e.context("level height"));
            },
        };
        match read_f32_bits(s, p1) {
            Ok((unknown, p2)) => Ok((LevelHeight { height, unknown }, p2)),
            Err(e) => Err(e.context("level height unknown")),
        }
    }
}

/// An optionally present byte, read only when `cond` holds.
pub open spec fn sp_opt_u8(s: Seq<u8>, pos: int, cond: bool) -> Result<
    (Option<u8>, int),
    ErrorKind,
> {
    if cond {
        match sp_u8(s, pos) {
            Err(k) => Err(k),
            Ok((v, p)) => Ok((Some(v), p)),
        }
    } else {
        Ok((None, pos))
    }
}

/// An optionally present run of six floats, read only when `cond` holds.
pub open spec fn sp_opt_f6(s: Seq<u8>, pos: int, cond: bool) -> Result<
    (Option<Seq<u32>>, int),
    ErrorKind,
> {
    if cond {
        match sp_many(s, pos, 6, sp_u32_f()) {
            Err(k) => Err(k),
            Ok((v, p)) => Ok((Some(v), p)),
        }
    } else {
        Ok((None, pos))
    }
}

/// One room: a short section header, three raw flag bytes, the conditional
/// fields, a level list and a float-prefixed height list.
#[derive(Clone, Debug, PartialEq)]
pub struct Room {
    pub section_id: u32,
    pub section_name: String,
    pub unknown1: u8,
    pub unknown2: u8,
    pub unknown3: u8,
    /// Present exactly when `unknown1 == 0`.
    pub unknown4: Option<u8>,
    /// Present exactly when `unknown3 == 1`.
    pub unknown5: Option<Vec<u32>>,
    /// Present exactly when `unknown4` holds the value 1.
    pub unknown6: Option<Vec<u32>>,
    pub sherman_levels: Vec<ShermanLevel>,
    pub unknown7: u32,
    pub level_heights: Vec<LevelHeight>,
}

/// The mathematical shape of one decoded room.
pub struct RoomView {
    pub section_id: u32,
    pub section_name: Seq<char>,
    pub unknown1: u8,
    pub unknown2: u8,
    pub unknown3: u8,
    pub unknown4: Option<u8>,
    pub unknown5: Option<Seq<u32>>,
    pub unknown6: Option<Seq<u32>>,
    pub sherman_levels: Seq<ShermanLevelView>,
    pub unknown7: u32,
    pub level_heights: Seq<LevelHeight>,
}

impl DeepView for Room {
    type V = RoomView;

    open spec fn deep_view(&self) -> RoomView {
        RoomView {
            section_id: self.section_id,
            section_name: self.section_name@,
            unknown1: self.unknown1,
            unknown2: self.unknown2,
            unknown3: self.unknown3,
            unknown4: self.unknown4,
            unknown5: self.unknown5.deep_view(),
            unknown6: self.unknown6.deep_view(),
            sherman_levels: self.sherman_levels.deep_view(),
            unknown7: self.unknown7,
            level_heights: self.level_heights.deep_view(),
        }
    }
}

/// A room record: the flags are evaluated in declared order because the
/// presence of the last optional field depends on the value of the first
/// optional field.
#[verifier::opaque]
pub open spec fn sp_room(s: Seq<u8>, pos: int) -> Result<(RoomView, int), ErrorKind> {
    match sp_section_header_short(s, pos) {
        Err(k) => Err(k),
        Ok(((section_id, section_name), p1)) => match sp_u8(s, p1) {
            Err(k) => Err(k),
            Ok((unknown1, p2)) => match sp_u8(s, p2) {
                Err(k) => Err(k),
                Ok((unknown2, p3)) => match sp_u8(s, p3) {
                    Err(k) => Err(k),
                    Ok((unknown3, p4)) => match sp_opt_u8(s, p4, unknown1 == 0) {
                        Err(k) => Err(k),
                        Ok((unknown4, p5)) => match sp_opt_f6(s, p5, unknown3 == 1) {
                            Err(k) => Err(k),
                            Ok((unknown5, p6)) => match sp_opt_f6(
                                s,
                                p6,
                                unknown4 == Some(1u8),
                            ) {
                                Err(k) => Err(k),
                                Ok((unknown6, p7)) => match sp_u32(s, p7) {
                                    Err(k) => Err(k),
                                    Ok((nl, p8)) => match sp_many(
                                        s,
                                        p8,
                                        nl as nat,
                                        sp_sherman_level_f(),
                                    ) {
                                        Err(k) => Err(k),
                                        Ok((sherman_levels, p9)) => match sp_u32(s, p9) {
                                            Err(k) => Err(k),
                                            Ok((nh, p10)) => match sp_u32(s, p10) {
                                                Err(k) => Err(k),
                                                Ok((unknown7, p11)) => match sp_many(
                                                    s,
                                                    p11,
                                                    nh as nat,
                                                    sp_level_height_f(),
                                                ) {
                                                    Err(k) => Err(k),
                                                    Ok((level_heights, p12)) => Ok(
                                                        (
                                                            RoomView {
                                                                section_id,
                                                                section_name,
                                                                unknown1,
                                                                unknown2,
                                                                unknown3,
                                                                unknown4,
                                                                unknown5,
                                                                unknown6,
                                                                sherman_levels,
                                                                unknown7,
                                                                level_heights,
                                                            },
                                                            p12,
                                                        ),
                                                    ),
                                                },
                                            },
                                        },
                                    },
                                },
                            },
                        },
                    },
                },
            },
        },
    }
}

/// The element parser of one room.
pub open spec fn sp_room_f() -> spec_fn(Seq<u8>, int) -> Result<(RoomView, int), ErrorKind> {
    |s: Seq<u8>, pos: int| sp_room(s, pos)
}

impl Room {
    /// Read one room, evaluating the flag chain in declared order.
    #[verifier::rlimit(80)]
    #[verifier::loop_isolation(false)]
    pub fn read(s: &[u8], pos: usize) -> (r: Result<(Self, usize), DecodeError>)
        ensures
            decodes(r, sp_room(s@, pos as int)),
    {
        proof {
            reveal(sp_room);
        }
        let ((section_id, section_name), p1) = match section_header_short(s, pos) {
            Ok(v) => v,
            Err(e) => {
                return Err(e.context("room section header short"));
            },
        };
        let (unknown1, p2) = match read_u8(s, p1) {
            Ok(v) => v,
            Err(e) => {
                return Err(e.context("room unknown1"));
            },
        };
        let (unknown2, p3) = match read_u8(s, p2) {
            Ok(v) => v,
            Err(e) => {
                return Err(e.context("room unknown2"));
            },
        };
        let (unknown3, p4) = match read_u8(s, p3) {
            Ok(v) => v,
            Err(e) => {
                return Err(e.context("room unknown3"));
            },
        };
        let (unknown4, p5) = if unknown1 == 0 {
            match read_u8(s, p4) {
                Ok((v, p)) => (Some(v), p),
                Err(e) => {
                    return Err(e.context("room unknown4"));
                },
            }
        } else {
            (None, p4)
        };
        let (unknown5, p6) = if unknown3 == 1 {
            match read_f32_bits_array(s, p5, 6) {
                Ok((v, p)) => (Some(v), p),
                Err(e) => {
                    return Err(e.context("room unknown5"));
                },
            }
        } else {
            (None, p5)
        };
        let u4_is_one = match unknown4 {
            Some(v) => v == 1,
            None => false,
        };
        let (unknown6, p7) = if u4_is_one {
            match read_f32_bits_array(s, p6, 6) {
                Ok((v, p)) => (Some(v), p),
                Err(e) => {
                    return Err(e.context("room unknown6"));
                },
            }
        } else {
            (None, p6)
        };
        let (nl, p8) = match read_u32(s, p7) {
            Ok(v) => v,
            Err(e) => {
                return Err(e.context("room level count"));
            },
        };
        let mut sherman_levels: Vec<ShermanLevel> = Vec::new();
        let mut p = p8;
        let mut i: u32 = 0;
        assert(sherman_levels.deep_view() =~= Seq::<ShermanLevelView>::empty());
        while i < nl
            invariant
                i <= nl,
                sp_many(s@, p8 as int, i as nat, sp_sherman_level_f()) == Ok::<
                    (Seq<ShermanLevelView>, int),
                    ErrorKind,
                >((sherman_levels.deep_view(), p as int)),
            decreases nl - i,
        {
            proof {
                lemma_sp_many_snoc(
                    s@,
                    p8 as int,
                    i as nat,
                    sp_sherman_level_f(),
                    sherman_levels.deep_view(),
                    p as int,
                );
            }
            match ShermanLevel::read(s, p) {
                Ok((v, p2x)) => {
                    let ghost old_dv = sherman_levels.deep_view();
                    sherman_levels.push(v);
                    assert(sherman_levels.deep_view() =~= old_dv.push(v.deep_view()));
                    p = p2x;
                    i = i + 1;
                },
                Err(e) => {
                    proof {
                        lemma_sp_many_err_mono(
                            s@,
                            p8 as int,
                            i as nat + 1,
                            nl as nat,
                            sp_sherman_level_f(),
                        );
                    }
                    return Err(e.context("room sherman level"));
                },
            }
        }
        let (nh, p10) = match read_u32(s, p) {
            Ok(v) => v,
            Err(e) => {
                return Err(e.context("room level heights count"));
            },
        };
        let (unknown7, p11) = match read_f32_bits(s, p10) {
            Ok(v) => v,
            Err(e) => {
                return Err(e.context("room unknown7"));
            },
        };
        let mut level_heights: Vec<LevelHeight> = Vec::new();
        let mut p = p11;
        let mut i: u32 = 0;
        assert(level_heights.deep_view() =~= Seq::<LevelHeight>::empty());
        while i < nh
            invariant
                i <= nh,
                sp_many(s@, p11 as int, i as nat, sp_level_height_f()) == Ok::<
                    (Seq<LevelHeight>, int),
                    ErrorKind,
                >((level_heights.deep_view(), p as int)),
            decreases nh - i,
        {
            proof {
                lemma_sp_many_snoc(
                    s@,
                    p11 as int,
                    i as nat,
                    sp_level_height_f(),
                    level_heights.deep_view(),
                    p as int,
                );
            }
            match LevelHeight::read(s, p) {
                Ok((v, p2x)) => {
                    let ghost old_dv = level_heights.deep_view();
                    level_heights.push(v);
                    assert(level_heights.deep_view() =~= old_dv.push(v));
                    p = p2x;
                    i = i + 1;
                },
                Err(e) => {
                    proof {
                        lemma_sp_many_err_mono(
                            s@,
                            p11 as int,
                            i as nat + 1,
                            nh as nat,
                            sp_level_height_f(),
                        );
                    }
                    return Err(e.context("room sherman level heights"));
                },
            }
        }
        Ok(
            (
                Room {
                    section_id,
                    section_name,
                    unknown1,
                    unknown2,
                    unknown3,
                    unknown4,
                    unknown5,
                    unknown6,
                    sherman_levels,
                    unknown7,
                    level_heights,
                },
                p,
            ),
        )
    }
}

/// The Rooms section.
#[derive(Clone, Debug, PartialEq)]
pub struct Rooms {
    pub section_id: u32,
    pub section_name: String,
    pub rooms: Vec<Room>,
}

/// The mathematical shape of the decoded rooms section.
pub struct RoomsView {
    pub section_id: u32,
    pub section_name: Seq<char>,
    pub rooms: Seq<RoomView>,
}

impl DeepView for Rooms {
    type V = RoomsView;

    open spec fn deep_view(&self) -> RoomsView {
        RoomsView {
            section_id: self.section_id,
            section_name: self.section_name@,
            rooms: self.rooms.deep_view(),
        }
    }
}

/// The rooms section: header, count, then that many rooms.
#[verifier::opaque]
pub open spec fn sp_rooms(s: Seq<u8>, pos: int) -> Result<(RoomsView, int), ErrorKind> {
    match sp_section_header(s, pos) {
        Err(k) => Err(k),
        Ok(((section_id, section_name), p1)) => match sp_u32(s, p1) {
            Err(k) => Err(k),
            Ok((n, p2)) => match sp_many(s, p2, n as nat, sp_room_f()) {
                Err(k) => Err(k),
                Ok((rooms, p3)) => Ok((RoomsView { section_id, section_name, rooms }, p3)),
            },
        },
    }
}

impl Rooms {
    /// Read the rooms section.
    #[verifier::rlimit(50)]
    #[verifier::loop_isolation(false)]
    pub fn read(s: &[u8], pos: usize) -> (r: Result<(Self, usize), DecodeError>)
        ensures
            decodes(r, sp_rooms(s@, pos as int)),
    {
        proof {
            reveal(sp_rooms);
        }
        let ((section_id, section_name), p1) = match section_header(s, pos) {
            Ok(v) => v,
            Err(e) => {
                return Err(e.context("room list"));
            },
        };
        let (n, p2) = match read_u32(s, p1) {
            Ok(v) => v,
            Err(e) => {
                return Err(e.context("room count"));
            },
        };
        let mut rooms: Vec<Room> = Vec::new();
        let mut p = p2;
        let mut i: u32 = 0;
        assert(rooms.deep_view() =~= Seq::<RoomView>::empty());
        while i < n
            invariant
                i <= n,
                sp_many(s@, p2 as int, i as nat, sp_room_f()) == Ok::<
                    (Seq<RoomView>, int),
                    ErrorKind,
                >((rooms.deep_view(), p as int)),
            decreases n - i,
        {
            proof {
                lemma_sp_many_snoc(
                    s@,
                    p2 as int,
                    i as nat,
                    sp_room_f(),
                    rooms.deep_view(),
                    p as int,
                );
            }
            match Room::read(s, p) {
                Ok((v, p2x)) => {
                    let ghost old_dv = rooms.deep_view();
                    rooms.push(v);
                    assert(rooms.deep_view() =~= old_dv.push(v.deep_view()));
                    p = p2x;
                    i = i + 1;
                },
                Err(e) => {
                    proof {
                        lemma_sp_many_err_mono(s@, p2 as int, i as nat + 1, n as nat, sp_room_f());
                    }
                    return Err(e.context("room"));
                },
            }
        }
        Ok((Rooms { section_id, section_name, rooms }, p))
    }
}

} // verus!
