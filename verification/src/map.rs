//! The MAP container: a fixed magic, a creation timestamp, eight ordered
//! top-level sections and a closing literal.  The section order is a format
//! contract and is never reordered.
use vstd::prelude::*;

use crate::dynobj::{sp_dynamic_objects, DynamicObjects, DynamicObjectsView};
use crate::err::{DecodeError, ErrorKind};
use crate::geometry::{sp_geometries, Geometries, GeometriesView};
use crate::material::{sp_materials, Materials, MaterialsView};
use crate::prim::{
    decodes, lemma_sp_many_err_mono, lemma_sp_many_snoc, read_cstring, read_f32_bits, read_name,
    read_name_array, read_u32, sp_cstring, sp_many, sp_name, sp_name_f, sp_u32,
};
use crate::room::{sp_rooms, Rooms, RoomsView};
use crate::section::{section_header, sp_section_header};
use crate::vecs::{sp_vec3f, Vec3f};
use crate::geometry::{read_vertex_array, sp_vertex_f, Vertex};

verus! {

broadcast use crate::prim::lemma_vec_u8_deep_view;

/// The twelve magic bytes that open every MAP buffer: "BeginMapv2.1".
pub open spec fn map_magic() -> Seq<u8> {
    seq![
        0x42u8, 0x65u8, 0x67u8, 0x69u8, 0x6eu8, 0x4du8, 0x61u8, 0x70u8, 0x76u8, 0x32u8, 0x2eu8,
        0x31u8,
    ]
}

/// The six bytes of the closing literal: "EndMap".
pub open spec fn map_end() -> Seq<u8> {
    seq![0x45u8, 0x6eu8, 0x64u8, 0x4du8, 0x61u8, 0x70u8]
}

/// Does this decoded string hold exactly the magic bytes?
fn is_map_magic(v: &Vec<u8>) -> (b: bool)
    ensures
        b == (v@ == map_magic()),
{
    let r = v.len() == 12 && v[0] == 0x42 && v[1] == 0x65 && v[2] == 0x67 && v[3] == 0x69 && v[4]
        == 0x6e && v[5] == 0x4d && v[6] == 0x61 && v[7] == 0x70 && v[8] == 0x76 && v[9] == 0x32
        && v[10] == 0x2e && v[11] == 0x31;
    proof {
        assert(map_magic().len() == 12);
        if r {
            assert(v@ =~= map_magic());
        }
    }
    r
}

/// Does this decoded string hold exactly the closing literal?
fn is_map_end(v: &Vec<u8>) -> (b: bool)
    ensures
        b == (v@ == map_end()),
{
    let r = v.len() == 6 && v[0] == 0x45 && v[1] == 0x6e && v[2] == 0x64 && v[3] == 0x4d && v[4]
        == 0x61 && v[5] == 0x70;
    proof {
        assert(map_end().len() == 6);
        if r {
            assert(v@ =~= map_end());
        }
    }
    r
}

/// The MAP header: the magic, then the creation timestamp.
#[derive(Clone, Copy, Debug, PartialEq, Eq, Structural)]
pub struct MapHeader {
    /// Unix timestamp of when the MAP file was created.
    pub timestamp: u32,
}

impl DeepView for MapHeader {
    type V = MapHeader;

    open spec fn deep_view(&self) -> MapHeader {
        *self
    }
}

/// The header record: a length-prefixed string that must hold exactly the
/// magic (any other content is a magic mismatch), then a 32-bit timestamp.
pub open spec fn sp_map_header(s: Seq<u8>, pos: int) -> Result<(MapHeader, int), ErrorKind> {
    match sp_cstring(s, pos) {
        Err(k) => Err(k),
        Ok((magic, p1)) => if magic != map_magic() {
            Err(ErrorKind::MagicMismatch)
        } else {
            match sp_u32(s, p1) {
                Err(k) => Err(k),
                Ok((timestamp, p2)) => Ok((MapHeader { timestamp }, p2)),
            }
        },
    }
}

impl MapHeader {
    /// Read the MAP header, validating the magic.  A mismatch fails with
    /// an error whose innermost label holds the literal bytes observed,
    /// through the Latin-1 remap.
    pub fn read(s: &[u8], pos: usize) -> (r: Result<(Self, usize), DecodeError>)
        ensures
            decodes(r, sp_map_header(s@, pos as int)),
            sp_cstring(s@, pos as int) matches Ok(m) ==> (m.0 != map_magic() ==> (
                r matches Err(e) && e.labels@.len() == 2 && e.labels@[0]@ == crate::prim::latin1(
                    m.0,
                )
            )),
    {
        let (magic, p1) = match read_cstring(s, pos) {
            Ok(v) => v,
            Err(e) => {
                return Err(e.context("missing magic"));
            },
        };
        if !is_map_magic(&magic) {
            let observed = crate::prim::latin1_to_utf8(magic.as_slice());
            return Err(
                DecodeError::new(ErrorKind::MagicMismatch).context(observed.as_str()).context(
                    "incorrect magic",
                ),
            );
        }
        match read_u32(s, p1) {
            Ok((timestamp, p2)) => Ok((MapHeader { timestamp }, p2)),
            Err(e) => Err(e.context("failed to read file creation timestamp")),
        }
    }
}

/// One portal: a header, a coordinate list and the two room references.
#[derive(Clone, Debug, PartialEq)]
pub struct Portal {
    pub id: u32,
    pub name: String,
    pub coordinates: Vec<Vertex>,
    pub room: u32,
    pub opposite_room: u32,
}

/// The mathematical shape of one portal.
pub struct PortalView {
    pub id: u32,
    pub name: Seq<char>,
    pub coordinates: Seq<Vertex>,
    pub room: u32,
    pub opposite_room: u32,
}

impl DeepView for Portal {
    type V = PortalView;

    open spec fn deep_view(&self) -> PortalView {
        PortalView {
            id: self.id,
            name: self.name@,
            coordinates: self.coordinates.deep_view(),
            room: self.room,
            opposite_room: self.opposite_room,
        }
    }
}

/// A portal record.
#[verifier::opaque]
pub open spec fn sp_portal(s: Seq<u8>, pos: int) -> Result<(PortalView, int), ErrorKind> {
    match sp_section_header(s, pos) {
        Err(k) => Err(k),
        Ok(((id, name), p1)) => match sp_u32(s, p1) {
            Err(k) => Err(k),
            Ok((n, p2)) => match sp_many(s, p2, n as nat, sp_vertex_f()) {
                Err(k) => Err(k),
                Ok((coordinates, p3)) => match sp_u32(s, p3) {
                    Err(k) => Err(k),
                    Ok((room, p4)) => match sp_u32(s, p4) {
                        Err(k) => Err(k),
                        Ok((opposite_room, p5)) => Ok(
                            (PortalView { id, name, coordinates, room, opposite_room }, p5),
                        ),
                    },
                },
            },
        },
    }
}

/// The element parser of one portal.
pub open spec fn sp_portal_f() -> spec_fn(Seq<u8>, int) -> Result<(PortalView, int), ErrorKind> {
    |s: Seq<u8>, pos: int| sp_portal(s, pos)
}

impl Portal {
    /// Read one portal.
    pub fn read(s: &[u8], pos: usize) -> (r: Result<(Self, usize), DecodeError>)
        ensures
            decodes(r, sp_portal(s@, pos as int)),
    {
        proof {
            reveal(sp_portal);
        }
        let ((id, name), p1) = match section_header(s, pos) {
            Ok(v) => v,
            Err(e) => {
                return Err(e.context("portal"));
            },
        };
        let (n, p2) = match read_u32(s, p1) {
            Ok(v) => v,
            Err(e) => {
                return Err(e.context("coordinates count"));
            },
        };
        let (coordinates, p3) = match read_vertex_array(s, p2, n) {
            Ok(v) => v,
            Err(e) => {
                return Err(e.context("coordinate vertex"));
            },
        };
        let (room, p4) = match read_u32(s, p3) {
            Ok(v) => v,
            Err(e) => {
                return Err(e.context("room"));
            },
        };
        match read_u32(s, p4) {
            Ok((opposite_room, p5)) => Ok(
                (Portal { id, name, coordinates, room, opposite_room }, p5),
            ),
            Err(e) => Err(e.context("opposite room")),
        }
    }
}

/// The Portals section.
#[derive(Clone, Debug, PartialEq)]
pub struct Portals {
    pub id: u32,
    pub name: String,
    pub portals: Vec<Portal>,
}

/// The mathematical shape of the decoded portals section.
pub struct PortalsView {
    pub id: u32,
    pub name: Seq<char>,
    pub portals: Seq<PortalView>,
}

impl DeepView for Portals {
    type V = PortalsView;

    open spec fn deep_view(&self) -> PortalsView {
        PortalsView { id: self.id, name: self.name@, portals: self.portals.deep_view() }
    }
}

/// The portals section: header, count, then that many portals.
#[verifier::opaque]
pub open spec fn sp_portals(s: Seq<u8>, pos: int) -> Result<(PortalsView, int), ErrorKind> {
    match sp_section_header(s, pos) {
        Err(k) => Err(k),
        Ok(((id, name), p1)) => match sp_u32(s, p1) {
            Err(k) => Err(k),
            Ok((n, p2)) => match sp_many(s, p2, n as nat, sp_portal_f()) {
                Err(k) => Err(k),
                Ok((portals, p3)) => Ok((PortalsView { id, name, portals }, p3)),
            },
        },
    }
}

impl Portals {
    /// Read the portals section.
    #[verifier::rlimit(50)]
    #[verifier::loop_isolation(false)]
    pub fn read(s: &[u8], pos: usize) -> (r: Result<(Self, usize), DecodeError>)
        ensures
            decodes(r, sp_portals(s@, pos as int)),
    {
        proof {
            reveal(sp_portals);
        }
        let ((id, name), p1) = match section_header(s, pos) {
            Ok(v) => v,
            Err(e) => {
                return Err(e.context("portals"));
            },
        };
        let (n, p2) = match read_u32(s, p1) {
            Ok(v) => v,
            Err(e) => {
                return Err(e.context("portal count"));
            },
        };
        let mut portals: Vec<Portal> = Vec::new();
        let mut p = p2;
        let mut i: u32 = 0;
        assert(portals.deep_view() =~= Seq::<PortalView>::empty());
        while i < n
            invariant
                i <= n,
                sp_many(s@, p2 as int, i as nat, sp_portal_f()) == Ok::<
                    (Seq<PortalView>, int),
                    ErrorKind,
                >((portals.deep_view(), p as int)),
            decreases n - i,
        {
            proof {
                lemma_sp_many_snoc(
                    s@,
                    p2 as int,
                    i as nat,
                    sp_portal_f(),
                    portals.deep_view(),
                    p as int,
                );
            }
            match Portal::read(s, p) {
                Ok((v, p2x)) => {
                    let ghost old_dv = portals.deep_view();
                    portals.push(v);
                    assert(portals.deep_view() =~= old_dv.push(v.deep_view()));
                    p = p2x;
                    i = i + 1;
                },
                Err(e) => {
                    proof {
                        lemma_sp_many_err_mono(s@, p2 as int, i as nat + 1, n as nat, sp_portal_f());
                    }
                    return Err(e.context("portal"));
                },
            }
        }
        Ok((Portals { id, name, portals }, p))
    }
}

/// The Lights section: only a header and a count are stored.
#[derive(Clone, Debug, PartialEq)]
pub struct Lights {
    pub id: u32,
    pub name: String,
    pub light_count: u32,
}

/// The mathematical shape of the decoded lights section.
pub struct LightsView {
    pub id: u32,
    pub name: Seq<char>,
    pub light_count: u32,
}

impl DeepView for Lights {
    type V = LightsView;

    open spec fn deep_view(&self) -> LightsView {
        LightsView { id: self.id, name: self.name@, light_count: self.light_count }
    }
}

/// The lights section: a header and the light count.
pub open spec fn sp_lights(s: Seq<u8>, pos: int) -> Result<(LightsView, int), ErrorKind> {
    match sp_section_header(s, pos) {
        Err(k) => Err(k),
        Ok(((id, name), p1)) => match sp_u32(s, p1) {
            Err(k) => Err(k),
            Ok((n, p2)) => Ok((LightsView { id, name, light_count: n }, p2)),
        },
    }
}

impl Lights {
    /// Read the lights section.
    pub fn read(s: &[u8], pos: usize) -> (r: Result<(Self, usize), DecodeError>)
        ensures
            decodes(r, sp_lights(s@, pos as int)),
    {
        let ((id, name), p1) = match section_header(s, pos) {
            Ok(v) => v,
            Err(e) => {
                return Err(e.context("lights"));
            },
        };
        match read_u32(s, p1) {
            Ok((n, p2)) => Ok((Lights { id, name, light_count: n }, p2)),
            Err(e) => Err(e.context("light count")),
        }
    }
}

/// The two end points of one transition.
#[derive(Clone, Copy, Debug, PartialEq, Eq, Structural)]
pub struct TransitionCoords {
    pub p1: Vec3f,
    pub p2: Vec3f,
}

impl DeepView for TransitionCoords {
    type V = TransitionCoords;

    open spec fn deep_view(&self) -> TransitionCoords {
        *self
    }
}

/// A transition-coordinates record: two 3-component vectors.
pub open spec fn sp_transition_coords(s: Seq<u8>, pos: int) -> Result<
    (TransitionCoords, int),
    ErrorKind,
> {
    match sp_vec3f(s, pos) {
        Err(k) => Err(k),
        Ok((a, p1)) => match sp_vec3f(s, p1) {
            Err(k) => Err(k),
            Ok((b, p2)) => Ok((TransitionCoords { p1: a, p2: b }, p2)),
        },
    }
}

impl TransitionCoords {
    /// Read one transition-coordinates record.
    pub fn read(s: &[u8], pos: usize) -> (r: Result<(Self, usize), DecodeError>)
        ensures
            decodes(r, sp_transition_coords(s@, pos as int)),
    {
        let (a, p1x) = match Vec3f::read(s, pos) {
            Ok(v) => v,
            Err(e) => {
                return Err(e.context("transition coords P1"));
            },
        };
        match Vec3f::read(s, p1x) {
            Ok((b, p2x)) => Ok((TransitionCoords { p1: a, p2: b }, p2x)),
            Err(e) => Err(e.context("transition coords P2")),
        }
    }
}

/// One transition: a name and its coordinates.
#[derive(Clone, Debug, PartialEq)]
pub struct Transition {
    pub name: String,
    pub coords: TransitionCoords,
}

/// The mathematical shape of one transition.
pub struct TransitionView {
    pub name: Seq<char>,
    pub coords: TransitionCoords,
}

impl DeepView for Transition {
    type V = TransitionView;

    open spec fn deep_view(&self) -> TransitionView {
        TransitionView { name: self.name@, coords: self.coords }
    }
}

/// A transition record.
pub open spec fn sp_transition(s: Seq<u8>, pos: int) -> Result<(TransitionView, int), ErrorKind> {
    match sp_name(s, pos) {
        Err(k) => Err(k),
        Ok((name, p1)) => match sp_transition_coords(s, p1) {
            Err(k) => Err(k),
            Ok((coords, p2)) => Ok((TransitionView { name, coords }, p2)),
        },
    }
}

/// The element parser of one transition.
pub open spec fn sp_transition_f() -> spec_fn(Seq<u8>, int) -> Result<(TransitionView, int), ErrorKind> {
    |s: Seq<u8>, pos: int| sp_transition(s, pos)
}

impl Transition {
    /// Read one transition.
    pub fn read(s: &[u8], pos: usize) -> (r: Result<(Self, usize), DecodeError>)
        ensures
            decodes(r, sp_transition(s@, pos as int)),
    {
        let (name, p1) = match read_name(s, pos) {
            Ok(v) => v,
            Err(e) => {
                return Err(e.context("transition"));
            },
        };
        match TransitionCoords::read(s, p1) {
            Ok((coords, p2)) => Ok((Transition { name, coords }, p2)),
            Err(e) => Err(e),
        }
    }
}

/// The Transitions section.
#[derive(Clone, Debug, PartialEq)]
pub struct Transitions {
    pub section_id: u32,
    pub section_name: String,
    pub transitions: Vec<Transition>,
}

/// The mathematical shape of the decoded transitions section.
pub struct TransitionsView {
    pub section_id: u32,
    pub section_name: Seq<char>,
    pub transitions: Seq<TransitionView>,
}

impl DeepView for Transitions {
    type V = TransitionsView;

    open spec fn deep_view(&self) -> TransitionsView {
        TransitionsView {
            section_id: self.section_id,
            section_name: self.section_name@,
            transitions: self.transitions.deep_view(),
        }
    }
}

/// The transitions section: header, count, then that many transitions.
#[verifier::opaque]
pub open spec fn sp_transitions(s: Seq<u8>, pos: int) -> Result<(TransitionsView, int), ErrorKind> {
    match sp_section_header(s, pos) {
        Err(k) => Err(k),
        Ok(((section_id, section_name), p1)) => match sp_u32(s, p1) {
            Err(k) => Err(k),
            Ok((n, p2)) => match sp_many(s, p2, n as nat, sp_transition_f()) {
                Err(k) => Err(k),
                Ok((transitions, p3)) => Ok(
                    (TransitionsView { section_id, section_name, transitions }, p3),
                ),
            },
        },
    }
}

impl Transitions {
    /// Read the transitions section.
    #[verifier::rlimit(50)]
    #[verifier::loop_isolation(false)]
    pub fn read(s: &[u8], pos: usize) -> (r: Result<(Self, usize), DecodeError>)
        ensures
            decodes(r, sp_transitions(s@, pos as int)),
    {
        proof {
            reveal(sp_transitions);
        }
        let ((section_id, section_name), p1) = match section_header(s, pos) {
            Ok(v) => v,
            Err(e) => {
                return Err(e.context("transitions"));
            },
        };
        let (n, p2) = match read_u32(s, p1) {
            Ok(v) => v,
            Err(e) => {
                return Err(e.context("transitions count"));
            },
        };
        let mut transitions: Vec<Transition> = Vec::new();
        let mut p = p2;
        let mut i: u32 = 0;
        assert(transitions.deep_view() =~= Seq::<TransitionView>::empty());
        while i < n
            invariant
                i <= n,
                sp_many(s@, p2 as int, i as nat, sp_transition_f()) == Ok::<
                    (Seq<TransitionView>, int),
                    ErrorKind,
                >((transitions.deep_view(), p as int)),
            decreases n - i,
        {
            proof {
                lemma_sp_many_snoc(
                    s@,
                    p2 as int,
                    i as nat,
                    sp_transition_f(),
                    transitions.deep_view(),
                    p as int,
                );
            }
            match Transition::read(s, p) {
                Ok((v, p2x)) => {
                    let ghost old_dv = transitions.deep_view();
                    transitions.push(v);
                    assert(transitions.deep_view() =~= old_dv.push(v.deep_view()));
                    p = p2x;
                    i = i + 1;
                },
                Err(e) => {
                    proof {
                        lemma_sp_many_err_mono(
                            s@,
                            p2 as int,
                            i as nat + 1,
                            n as nat,
                            sp_transition_f(),
                        );
                    }
                    return Err(e.context("transition"));
                },
            }
        }
        Ok((Transitions { section_id, section_name, transitions }, p))
    }
}

/// One planning level: a level number, a floor height and room names.
#[derive(Clone, Debug, PartialEq)]
pub struct PlanningLevel {
    pub level_number: u32,
    pub floor_height: u32,
    pub room_names: Vec<String>,
}

/// The mathematical shape of one planning level.
pub struct PlanningLevelView {
    pub level_number: u32,
    pub floor_height: u32,
    pub room_names: Seq<Seq<char>>,
}

impl DeepView for PlanningLevel {
    type V = PlanningLevelView;

    open spec fn deep_view(&self) -> PlanningLevelView {
        PlanningLevelView {
            level_number: self.level_number,
            floor_height: self.floor_height,
            room_names: self.room_names.deep_view(),
        }
    }
}

/// A planning-level record: two floats, a count, then that many names.
#[verifier::opaque]
pub open spec fn sp_planning_level(s: Seq<u8>, pos: int) -> Result<(PlanningLevelView, int), ErrorKind> {
    match sp_u32(s, pos) {
        Err(k) => Err(k),
        Ok((level_number, p1)) => match sp_u32(s, p1) {
            Err(k) => Err(k),
            Ok((floor_height, p2)) => match sp_u32(s, p2) {
                Err(k) => Err(k),
                Ok((n, p3)) => match sp_many(s, p3, n as nat, sp_name_f()) {
                    Err(k) => Err(k),
                    Ok((room_names, p4)) => Ok(
                        (PlanningLevelView { level_number, floor_height, room_names }, p4),
                    ),
                },
            },
        },
    }
}

/// The element parser of one planning level.
pub open spec fn sp_planning_level_f() -> spec_fn(Seq<u8>, int) -> Result<
    (PlanningLevelView, int),
    ErrorKind,
> {
    |s: Seq<u8>, pos: int| sp_planning_level(s, pos)
}

impl PlanningLevel {
    /// Read one planning level.
    pub fn read(s: &[u8], pos: usize) -> (r: Result<(Self, usize), DecodeError>)
        ensures
            decodes(r, sp_planning_level(s@, pos as int)),
    {
        proof {
            reveal(sp_planning_level);
        }
        let (level_number, p1) = match read_f32_bits(s, pos) {
            Ok(v) => v,
            Err(e) => {
                return Err(e.context("planning level number"));
            },
        };
        let (floor_height, p2) = match read_f32_bits(s, p1) {
            Ok(v) => v,
            Err(e) => {
                return Err(e.context("planning level floor height"));
            },
        };
        let (n, p3) = match read_u32(s, p2) {
            Ok(v) => v,
            Err(e) => {
                return Err(e.context("planning level room count"));
            },
        };
        match read_name_array(s, p3, n) {
            Ok((room_names, p4)) => Ok((PlanningLevel { level_number, floor_height, room_names }, p4)),
            Err(e) => Err(e.context("planning level room name")),
        }
    }
}

/// The PlanningLevels section.
#[derive(Clone, Debug, PartialEq)]
pub struct PlanningLevels {
    pub section_id: u32,
    pub section_name: String,
    pub levels: Vec<PlanningLevel>,
}

/// The mathematical shape of the decoded planning-levels section.
pub struct PlanningLevelsView {
    pub section_id: u32,
    pub section_name: Seq<char>,
    pub levels: Seq<PlanningLevelView>,
}

impl DeepView for PlanningLevels {
    type V = PlanningLevelsView;

    open spec fn deep_view(&self) -> PlanningLevelsView {
        PlanningLevelsView {
            section_id: self.section_id,
            section_name: self.section_name@,
            levels: self.levels.deep_view(),
        }
    }
}

/// The planning-levels section: header, count, then that many levels.
#[verifier::opaque]
pub open spec fn sp_planning_levels(s: Seq<u8>, pos: int) -> Result<
    (PlanningLevelsView, int),
    ErrorKind,
> {
    match sp_section_header(s, pos) {
        Err(k) => Err(k),
        Ok(((section_id, section_name), p1)) => match sp_u32(s, p1) {
            Err(k) => Err(k),
            Ok((n, p2)) => match sp_many(s, p2, n as nat, sp_planning_level_f()) {
                Err(k) => Err(k),
                Ok((levels, p3)) => Ok(
                    (PlanningLevelsView { section_id, section_name, levels }, p3),
                ),
            },
        },
    }
}

impl PlanningLevels {
    /// Read the planning-levels section.
    #[verifier::rlimit(50)]
    #[verifier::loop_isolation(false)]
    pub fn read(s: &[u8], pos: usize) -> (r: Result<(Self, usize), DecodeError>)
        ensures
            decodes(r, sp_planning_levels(s@, pos as int)),
    {
        proof {
            reveal(sp_planning_levels);
        }
        let ((section_id, section_name), p1) = match section_header(s, pos) {
            Ok(v) => v,
            Err(e) => {
                return Err(e.context("planning levels"));
            },
        };
        let (n, p2) = match read_u32(s, p1) {
            Ok(v) => v,
            Err(e) => {
                return Err(e.context("planning levels count"));
            },
        };
        let mut levels: Vec<PlanningLevel> = Vec::new();
        let mut p = p2;
        let mut i: u32 = 0;
        assert(levels.deep_view() =~= Seq::<PlanningLevelView>::empty());
        while i < n
            invariant
                i <= n,
                sp_many(s@, p2 as int, i as nat, sp_planning_level_f()) == Ok::<
                    (Seq<PlanningLevelView>, int),
                    ErrorKind,
                >((levels.deep_view(), p as int)),
            decreases n - i,
        {
            proof {
                lemma_sp_many_snoc(
                    s@,
                    p2 as int,
                    i as nat,
                    sp_planning_level_f(),
                    levels.deep_view(),
                    p as int,
                );
            }
            match PlanningLevel::read(s, p) {
                Ok((v, p2x)) => {
                    let ghost old_dv = levels.deep_view();
                    levels.push(v);
                    assert(levels.deep_view() =~= old_dv.push(v.deep_view()));
                    p = p2x;
                    i = i + 1;
                },
                Err(e) => {
                    proof {
                        lemma_sp_many_err_mono(
                            s@,
                            p2 as int,
                            i as nat + 1,
                            n as nat,
                            sp_planning_level_f(),
                        );
                    }
                    return Err(e.context("planning level"));
                },
            }
        }
        Ok((PlanningLevels { section_id, section_name, levels }, p))
    }
}

/// A fully decoded MAP: the header and the eight sections in their fixed
/// declared order.
#[derive(Clone, Debug, PartialEq)]
pub struct MapFile {
    pub header: MapHeader,
    pub materials: Materials,
    pub geometries: Geometries,
    pub portals: Portals,
    pub lights: Lights,
    pub dynamic_objects: DynamicObjects,
    pub rooms: Rooms,
    pub transitions: Transitions,
    pub planning_levels: PlanningLevels,
}

/// The mathematical shape of a decoded MAP.
pub struct MapFileView {
    pub header: MapHeader,
    pub materials: MaterialsView,
    pub geometries: GeometriesView,
    pub portals: PortalsView,
    pub lights: LightsView,
    pub dynamic_objects: DynamicObjectsView,
    pub rooms: RoomsView,
    pub transitions: TransitionsView,
    pub planning_levels: PlanningLevelsView,
}

impl DeepView for MapFile {
    type V = MapFileView;

    open spec fn deep_view(&self) -> MapFileView {
        MapFileView {
            header: self.header,
            materials: self.materials.deep_view(),
            geometries: self.geometries.deep_view(),
            portals: self.portals.deep_view(),
            lights: self.lights.deep_view(),
            dynamic_objects: self.dynamic_objects.deep_view(),
            rooms: self.rooms.deep_view(),
            transitions: self.transitions.deep_view(),
            planning_levels: self.planning_levels.deep_view(),
        }
    }
}

/// A whole MAP buffer: the header, the eight sections strictly in order,
/// then a length-prefixed string that must hold exactly "EndMap"; any
/// other content there is a missing terminator.
#[verifier::opaque]
pub open spec fn sp_map(s: Seq<u8>, pos: int) -> Result<(MapFileView, int), ErrorKind> {
    match sp_map_header(s, pos) {
        Err(k) => Err(k),
        Ok((header, p1)) => match sp_materials(s, p1) {
            Err(k) => Err(k),
            Ok((materials, p2)) => match sp_geometries(s, p2) {
                Err(k) => Err(k),
                Ok((geometries, p3)) => match sp_portals(s, p3) {
                    Err(k) => Err(k),
                    Ok((portals, p4)) => match sp_lights(s, p4) {
                        Err(k) => Err(k),
                        Ok((lights, p5)) => match sp_dynamic_objects(s, p5) {
                            Err(k) => Err(k),
                            Ok((dynamic_objects, p6)) => match sp_rooms(s, p6) {
                                Err(k) => Err(k),
                                Ok((rooms, p7)) => match sp_transitions(s, p7) {
                                    Err(k) => Err(k),
                                    Ok((transitions, p8)) => match sp_planning_levels(s, p8) {
                                        Err(k) => Err(k),
                                        Ok((planning_levels, p9)) => match sp_cstring(s, p9) {
                                            Err(k) => Err(k),
                                            Ok((end, p10)) => if end != map_end() {
                                                Err(ErrorKind::MissingTerminator)
                                            } else {
                                                Ok(
                                                    (
                                                        MapFileView {
                                                            header,
                                                            materials,
                                                            geometries,
                                                            portals,
                                                            lights,
                                                            dynamic_objects,
                                                            rooms,
                                                            transitions,
                                                            planning_levels,
                                                        },
                                                        p10,
                                                    ),
                                                )
                                            },
                                        },
                                    },
                                },
                            },
                        },
                    },
                },
            },
        },
    }
}

impl MapFile {
    /// Decode a whole MAP buffer, returning the tree and the position just
    /// past the closing literal.  The eight sections are read strictly in
    /// their declared order.
    ///
    /// Known limitation: some map families carry an unexplained extra
    /// four-byte gap between the room list and the transition list.  This
    /// reader consumes no such gap; buffers of those families fail to
    /// decode rather than being guessed at.
    #[verifier::rlimit(50)]
    pub fn read(s: &[u8], pos: usize) -> (r: Result<(Self, usize), DecodeError>)
        ensures
            decodes(r, sp_map(s@, pos as int)),
    {
        proof {
            reveal(sp_map);
        }
        let (header, p1) = match MapHeader::read(s, pos) {
            Ok(v) => v,
            Err(e) => {
                return Err(e.context("MAP Header"));
            },
        };
        let (materials, p2) = match Materials::read(s, p1) {
            Ok(v) => v,
            Err(e) => {
                return Err(e.context("Materials List"));
            },
        };
        let (geometries, p3) = match Geometries::read(s, p2) {
            Ok(v) => v,
            Err(e) => {
                return Err(e.context("Geometry List"));
            },
        };
        let (portals, p4) = match Portals::read(s, p3) {
            Ok(v) => v,
            Err(e) => {
                return Err(e.context("Portal List"));
            },
        };
        let (lights, p5) = match Lights::read(s, p4) {
            Ok(v) => v,
            Err(e) => {
                return Err(e.context("Light List"));
            },
        };
        let (dynamic_objects, p6) = match DynamicObjects::read(s, p5) {
            Ok(v) => v,
            Err(e) => {
                return Err(e.context("Dynamic Object List"));
            },
        };
        let (rooms, p7) = match Rooms::read(s, p6) {
            Ok(v) => v,
            Err(e) => {
                return Err(e.context("Rooms List"));
            },
        };
        let (transitions, p8) = match Transitions::read(s, p7) {
            Ok(v) => v,
            Err(e) => {
                return Err(e.context("Transition List"));
            },
        };
        let (planning_levels, p9) = match PlanningLevels::read(s, p8) {
            Ok(v) => v,
            Err(e) => {
                return Err(e.context("Planning Levels List"));
            },
        };
        let (end, p10) = match read_cstring(s, p9) {
            Ok(v) => v,
            Err(e) => {
                return Err(e.context("end"));
            },
        };
        if !is_map_end(&end) {
            return Err(DecodeError::new(ErrorKind::MissingTerminator).context("missing MAP end"));
        }
        Ok(
            (
                MapFile {
                    header,
                    materials,
                    geometries,
                    portals,
                    lights,
                    dynamic_objects,
                    rooms,
                    transitions,
                    planning_levels,
                },
                p10,
            ),
        )
    }
}

/// Decoding is a pure function of the buffer: any two decode results that
/// meet the decoder's contract on equal buffers are equal in every decoded
/// field — decoding an identical buffer twice yields structurally equal
/// results.
pub proof fn lemma_map_decode_deterministic(
    s1: Seq<u8>,
    s2: Seq<u8>,
    r1: Result<(MapFile, usize), DecodeError>,
    r2: Result<(MapFile, usize), DecodeError>,
)
    requires
        s1 == s2,
        decodes(r1, sp_map(s1, 0)),
        decodes(r2, sp_map(s2, 0)),
    ensures
        r1 is Ok <==> r2 is Ok,
        r1 matches Ok(a) ==> r2 matches Ok(b) && a.0.deep_view() == b.0.deep_view() && a.1 == b.1,
        r1 matches Err(e1) ==> r2 matches Err(e2) && e1.kind == e2.kind,
{
}

} // verus!
