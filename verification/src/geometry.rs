//! The Geometries section: nested geometry objects with vertex lists,
//! per-face data blocks, collision geometry, tags and indexed-name lists.
use vstd::prelude::*;

use crate::err::{DecodeError, ErrorKind};
use crate::material::{color4f_at, sp_color4f, Color4f};
use crate::prim::{
    decodes, le16, le32, lemma_sp_many_err_mono, lemma_sp_many_snoc, read_f32_bits, read_u16_trip_array,
    read_u32, sp_many, sp_name, sp_u16_trip_f, sp_u32,
};
use crate::section::{section_header, sp_section_header};

verus! {

broadcast use crate::prim::lemma_vec_u8_deep_view, crate::prim::lemma_vec_u16_deep_view, crate::prim::lemma_vec_u16_trip_deep_view;

/// A geometry vertex: x, y, z float bits.
#[derive(Clone, Copy, Debug, PartialEq, Eq, Structural)]
pub struct Vertex {
    pub x: u32,
    pub y: u32,
    pub z: u32,
}

impl DeepView for Vertex {
    type V = Vertex;

    open spec fn deep_view(&self) -> Vertex {
        *self
    }
}

/// The vertex whose twelve bytes sit at `pos`.
pub open spec fn vertex_at(s: Seq<u8>, pos: int) -> Vertex {
    Vertex { x: le32(s, pos), y: le32(s, pos + 4), z: le32(s, pos + 8) }
}

/// A vertex record.
pub open spec fn sp_vertex(s: Seq<u8>, pos: int) -> Result<(Vertex, int), ErrorKind> {
    if 0 <= pos && pos + 12 <= s.len() {
        Ok((vertex_at(s, pos), pos + 12))
    } else {
        Err(ErrorKind::TruncatedInput)
    }
}

/// The element parser of one vertex.
pub open spec fn sp_vertex_f() -> spec_fn(Seq<u8>, int) -> Result<(Vertex, int), ErrorKind> {
    |s: Seq<u8>, pos: int| sp_vertex(s, pos)
}

impl Vertex {
    /// Read one vertex.
    pub fn read(s: &[u8], pos: usize) -> (r: Result<(Self, usize), DecodeError>)
        ensures
            decodes(r, sp_vertex(s@, pos as int)),
    {
        let (x, p1) = match read_f32_bits(s, pos) {
            Ok(v) => v,
            Err(e) => {
                return Err(e.context("x"));
            },
        };
        let (y, p2) = match read_f32_bits(s, p1) {
            Ok(v) => v,
            Err(e) => {
                return Err(e.context("y"));
            },
        };
        match read_f32_bits(s, p2) {
            Ok((z, p3)) => Ok((Vertex { x, y, z }, p3)),
            Err(e) => Err(e.context("z")),
        }
    }
}

/// Read `n` consecutive vertices.
#[verifier::loop_isolation(false)]
pub fn read_vertex_array(s: &[u8], pos: usize, n: u32) -> (r: Result<(Vec<Vertex>, usize), DecodeError>)
    ensures
        decodes(r, sp_many(s@, pos as int, n as nat, sp_vertex_f())),
{
    let mut items: Vec<Vertex> = Vec::new();
    let mut p = pos;
    let mut i: u32 = 0;
    assert(items.deep_view() =~= Seq::<Vertex>::empty());
    while i < n
        invariant
            i <= n,
            sp_many(s@, pos as int, i as nat, sp_vertex_f()) == Ok::<(Seq<Vertex>, int), ErrorKind>(
                (items.deep_view(), p as int),
            ),
        decreases n - i,
    {
        proof {
            lemma_sp_many_snoc(s@, pos as int, i as nat, sp_vertex_f(), items.deep_view(), p as int);
        }
        match Vertex::read(s, p) {
            Ok((v, p2)) => {
                let ghost old_dv = items.deep_view();
                items.push(v);
                assert(items.deep_view() =~= old_dv.push(v));
                p = p2;
                i = i + 1;
            },
            Err(e) => {
                proof {
                    lemma_sp_many_err_mono(s@, pos as int, i as nat + 1, n as nat, sp_vertex_f());
                }
                return Err(e);
            },
        }
    }
    Ok((items, p))
}

/// A face normal: a direction and the signed distance from the origin to
/// the face.
#[derive(Clone, Copy, Debug, PartialEq, Eq, Structural)]
pub struct FaceNormal {
    pub x: u32,
    pub y: u32,
    pub z: u32,
    pub distance_origin_to_face: u32,
}

impl DeepView for FaceNormal {
    type V = FaceNormal;

    open spec fn deep_view(&self) -> FaceNormal {
        *self
    }
}

/// The face normal whose sixteen bytes sit at `pos`.
pub open spec fn face_normal_at(s: Seq<u8>, pos: int) -> FaceNormal {
    FaceNormal {
        x: le32(s, pos),
        y: le32(s, pos + 4),
        z: le32(s, pos + 8),
        distance_origin_to_face: le32(s, pos + 12),
    }
}

/// A face-normal record.
pub open spec fn sp_face_normal(s: Seq<u8>, pos: int) -> Result<(FaceNormal, int), ErrorKind> {
    if 0 <= pos && pos + 16 <= s.len() {
        Ok((face_normal_at(s, pos), pos + 16))
    } else {
        Err(ErrorKind::TruncatedInput)
    }
}

/// The element parser of one face normal.
pub open spec fn sp_face_normal_f() -> spec_fn(Seq<u8>, int) -> Result<(FaceNormal, int), ErrorKind> {
    |s: Seq<u8>, pos: int| sp_face_normal(s, pos)
}

impl FaceNormal {
    /// Read one face normal.
    pub fn read(s: &[u8], pos: usize) -> (r: Result<(Self, usize), DecodeError>)
        ensures
            decodes(r, sp_face_normal(s@, pos as int)),
    {
        let (x, p1) = match read_f32_bits(s, pos) {
            Ok(v) => v,
            Err(e) => {
                return Err(e.context("x"));
            },
        };
        let (y, p2) = match read_f32_bits(s, p1) {
            Ok(v) => v,
            Err(e) => {
                return Err(e.context("y"));
            },
        };
        let (z, p3) = match read_f32_bits(s, p2) {
            Ok(v) => v,
            Err(e) => {
                return Err(e.context("z"));
            },
        };
        match read_f32_bits(s, p3) {
            Ok((d, p4)) => Ok((FaceNormal { x, y, z, distance_origin_to_face: d }, p4)),
            Err(e) => Err(e.context("distance origin to face")),
        }
    }
}

/// Read `n` consecutive face normals.
#[verifier::loop_isolation(false)]
pub fn read_face_normal_array(s: &[u8], pos: usize, n: u32) -> (r: Result<
    (Vec<FaceNormal>, usize),
    DecodeError,
>)
    ensures
        decodes(r, sp_many(s@, pos as int, n as nat, sp_face_normal_f())),
{
    let mut items: Vec<FaceNormal> = Vec::new();
    let mut p = pos;
    let mut i: u32 = 0;
    assert(items.deep_view() =~= Seq::<FaceNormal>::empty());
    while i < n
        invariant
            i <= n,
            sp_many(s@, pos as int, i as nat, sp_face_normal_f()) == Ok::<
                (Seq<FaceNormal>, int),
                ErrorKind,
            >((items.deep_view(), p as int)),
        decreases n - i,
    {
        proof {
            lemma_sp_many_snoc(
                s@,
                pos as int,
                i as nat,
                sp_face_normal_f(),
                items.deep_view(),
                p as int,
            );
        }
        match FaceNormal::read(s, p) {
            Ok((v, p2)) => {
                let ghost old_dv = items.deep_view();
                items.push(v);
                assert(items.deep_view() =~= old_dv.push(v));
                p = p2;
                i = i + 1;
            },
            Err(e) => {
                proof {
                    lemma_sp_many_err_mono(
                        s@,
                        pos as int,
                        i as nat + 1,
                        n as nat,
                        sp_face_normal_f(),
                    );
                }
                return Err(e);
            },
        }
    }
    Ok((items, p))
}

/// A per-vertex normal coordinate.
#[derive(Clone, Copy, Debug, PartialEq, Eq, Structural)]
pub struct NormalCoord {
    pub x: u32,
    pub y: u32,
    pub z: u32,
}

impl DeepView for NormalCoord {
    type V = NormalCoord;

    open spec fn deep_view(&self) -> NormalCoord {
        *self
    }
}

/// A normal-coordinate record.
pub open spec fn sp_normal_coord(s: Seq<u8>, pos: int) -> Result<(NormalCoord, int), ErrorKind> {
    if 0 <= pos && pos + 12 <= s.len() {
        Ok((NormalCoord { x: le32(s, pos), y: le32(s, pos + 4), z: le32(s, pos + 8) }, pos + 12))
    } else {
        Err(ErrorKind::TruncatedInput)
    }
}

/// The element parser of one normal coordinate.
pub open spec fn sp_normal_coord_f() -> spec_fn(Seq<u8>, int) -> Result<(NormalCoord, int), ErrorKind> {
    |s: Seq<u8>, pos: int| sp_normal_coord(s, pos)
}

impl NormalCoord {
    /// Read one normal coordinate.
    pub fn read(s: &[u8], pos: usize) -> (r: Result<(Self, usize), DecodeError>)
        ensures
            decodes(r, sp_normal_coord(s@, pos as int)),
    {
        let (x, p1) = match read_f32_bits(s, pos) {
            Ok(v) => v,
            Err(e) => {
                return Err(e.context("x"));
            },
        };
        let (y, p2) = match read_f32_bits(s, p1) {
            Ok(v) => v,
            Err(e) => {
                return Err(e.context("y"));
            },
        };
        match read_f32_bits(s, p2) {
            Ok((z, p3)) => Ok((NormalCoord { x, y, z }, p3)),
            Err(e) => Err(e.context("z")),
        }
    }
}

/// A texture coordinate pair.
#[derive(Clone, Copy, Debug, PartialEq, Eq, Structural)]
pub struct UvCoord {
    pub u: u32,
    pub v: u32,
}

impl DeepView for UvCoord {
    type V = UvCoord;

    open spec fn deep_view(&self) -> UvCoord {
        *self
    }
}

/// A UV-coordinate record.
pub open spec fn sp_uv_coord(s: Seq<u8>, pos: int) -> Result<(UvCoord, int), ErrorKind> {
    if 0 <= pos && pos + 8 <= s.len() {
        Ok((UvCoord { u: le32(s, pos), v: le32(s, pos + 4) }, pos + 8))
    } else {
        Err(ErrorKind::TruncatedInput)
    }
}

/// The element parser of one UV coordinate.
pub open spec fn sp_uv_coord_f() -> spec_fn(Seq<u8>, int) -> Result<(UvCoord, int), ErrorKind> {
    |s: Seq<u8>, pos: int| sp_uv_coord(s, pos)
}

impl UvCoord {
    /// Read one UV coordinate pair.
    pub fn read(s: &[u8], pos: usize) -> (r: Result<(Self, usize), DecodeError>)
        ensures
            decodes(r, sp_uv_coord(s@, pos as int)),
    {
        let (u, p1) = match read_f32_bits(s, pos) {
            Ok(v) => v,
            Err(e) => {
                return Err(e.context("u"));
            },
        };
        match read_f32_bits(s, p1) {
            Ok((v, p2)) => Ok((UvCoord { u, v }, p2)),
            Err(e) => Err(e.context("v")),
        }
    }
}

/// The element parser of one four-float color.
pub open spec fn sp_color4f_f() -> spec_fn(Seq<u8>, int) -> Result<(Color4f, int), ErrorKind> {
    |s: Seq<u8>, pos: int| sp_color4f(s, pos)
}

/// The per-face data of one object-data block: a shared count, then three
/// parallel arrays of that length — normals, vertex-index triples and
/// texture-index triples.
#[derive(Clone, Debug, PartialEq)]
pub struct Faces {
    pub normals: Vec<FaceNormal>,
    pub face_indices: Vec<(u16, u16, u16)>,
    pub texture_indices: Vec<(u16, u16, u16)>,
}

/// The mathematical shape of a decoded face block.
pub struct FacesView {
    pub normals: Seq<FaceNormal>,
    pub face_indices: Seq<(u16, u16, u16)>,
    pub texture_indices: Seq<(u16, u16, u16)>,
}

impl DeepView for Faces {
    type V = FacesView;

    open spec fn deep_view(&self) -> FacesView {
        FacesView {
            normals: self.normals.deep_view(),
            face_indices: self.face_indices.deep_view(),
            texture_indices: self.texture_indices.deep_view(),
        }
    }
}

/// A face block: one count, then the three parallel arrays of that length.
#[verifier::opaque]
pub open spec fn sp_faces(s: Seq<u8>, pos: int) -> Result<(FacesView, int), ErrorKind> {
    match sp_u32(s, pos) {
        Err(k) => Err(k),
        Ok((n, p1)) => match sp_many(s, p1, n as nat, sp_face_normal_f()) {
            Err(k) => Err(k),
            Ok((normals, p2)) => match sp_many(s, p2, n as nat, sp_u16_trip_f()) {
                Err(k) => Err(k),
                Ok((face_indices, p3)) => match sp_many(s, p3, n as nat, sp_u16_trip_f()) {
                    Err(k) => Err(k),
                    Ok((texture_indices, p4)) => Ok(
                        (FacesView { normals, face_indices, texture_indices }, p4),
                    ),
                },
            },
        },
    }
}

impl Faces {
    /// Read one face block.
    pub fn read(s: &[u8], pos: usize) -> (r: Result<(Self, usize), DecodeError>)
        ensures
            decodes(r, sp_faces(s@, pos as int)),
    {
        proof {
            reveal(sp_faces);
        }
        let (n, p1) = match read_u32(s, pos) {
            Ok(v) => v,
            Err(e) => {
                return Err(e.context("face count"));
            },
        };
        let (normals, p2) = match read_face_normal_array(s, p1, n) {
            Ok(v) => v,
            Err(e) => {
                return Err(e.context("face normal"));
            },
        };
        let (face_indices, p3) = match read_u16_trip_array(s, p2, n) {
            Ok(v) => v,
            Err(e) => {
                return Err(e.context("face index"));
            },
        };
        match read_u16_trip_array(s, p3, n) {
            Ok((texture_indices, p4)) => Ok(
                (Faces { normals, face_indices, texture_indices }, p4),
            ),
            Err(e) => Err(e.context("texture index")),
        }
    }
}

/// The texture-vertex block of one object-data block: a shared count, then
/// three parallel arrays of that length — normals, UV coordinates and
/// per-face colors.
#[derive(Clone, Debug, PartialEq)]
pub struct TextureVertices {
    pub normals: Vec<NormalCoord>,
    pub uv_coords: Vec<UvCoord>,
    pub face_colors: Vec<Color4f>,
}

/// The mathematical shape of a decoded texture-vertex block.
pub struct TextureVerticesView {
    pub normals: Seq<NormalCoord>,
    pub uv_coords: Seq<UvCoord>,
    pub face_colors: Seq<Color4f>,
}

impl DeepView for TextureVertices {
    type V = TextureVerticesView;

    open spec fn deep_view(&self) -> TextureVerticesView {
        TextureVerticesView {
            normals: self.normals.deep_view(),
            uv_coords: self.uv_coords.deep_view(),
            face_colors: self.face_colors.deep_view(),
        }
    }
}

/// A texture-vertex block: one count, then the three parallel arrays of
/// that length.
#[verifier::opaque]
pub open spec fn sp_texture_vertices(s: Seq<u8>, pos: int) -> Result<
    (TextureVerticesView, int),
    ErrorKind,
> {
    match sp_u32(s, pos) {
        Err(k) => Err(k),
        Ok((n, p1)) => match sp_many(s, p1, n as nat, sp_normal_coord_f()) {
            Err(k) => Err(k),
            Ok((normals, p2)) => match sp_many(s, p2, n as nat, sp_uv_coord_f()) {
                Err(k) => Err(k),
                Ok((uv_coords, p3)) => match sp_many(s, p3, n as nat, sp_color4f_f()) {
                    Err(k) => Err(k),
                    Ok((face_colors, p4)) => Ok(
                        (TextureVerticesView { normals, uv_coords, face_colors }, p4),
                    ),
                },
            },
        },
    }
}

impl TextureVertices {
    /// Read one texture-vertex block.
    #[verifier::rlimit(50)]
    #[verifier::loop_isolation(false)]
    pub fn read(s: &[u8], pos: usize) -> (r: Result<(Self, usize), DecodeError>)
        ensures
            decodes(r, sp_texture_vertices(s@, pos as int)),
    {
        proof {
            reveal(sp_texture_vertices);
        }
        let (n, p1) = match read_u32(s, pos) {
            Ok(v) => v,
            Err(e) => {
                return Err(e.context("vertices count"));
            },
        };
        let mut normals: Vec<NormalCoord> = Vec::new();
        let mut p = p1;
        let mut i: u32 = 0;
        assert(normals.deep_view() =~= Seq::<NormalCoord>::empty());
        while i < n
            invariant
                i <= n,
                sp_many(s@, p1 as int, i as nat, sp_normal_coord_f()) == Ok::<
                    (Seq<NormalCoord>, int),
                    ErrorKind,
                >((normals.deep_view(), p as int)),
            decreases n - i,
        {
            proof {
                lemma_sp_many_snoc(
                    s@,
                    p1 as int,
                    i as nat,
                    sp_normal_coord_f(),
                    normals.deep_view(),
                    p as int,
                );
            }
            match NormalCoord::read(s, p) {
                Ok((v, p2)) => {
                    let ghost old_dv = normals.deep_view();
                    normals.push(v);
                    assert(normals.deep_view() =~= old_dv.push(v));
                    p = p2;
                    i = i + 1;
                },
                Err(e) => {
                    proof {
                        lemma_sp_many_err_mono(
                            s@,
                            p1 as int,
                            i as nat + 1,
                            n as nat,
                            sp_normal_coord_f(),
                        );
                    }
                    return Err(e.context("normal coordinate"));
                },
            }
        }
        let mut uv_coords: Vec<UvCoord> = Vec::new();
        let p1b = p;
        let mut i: u32 = 0;
        assert(uv_coords.deep_view() =~= Seq::<UvCoord>::empty());
        while i < n
            invariant
                i <= n,
                sp_many(s@, p1b as int, i as nat, sp_uv_coord_f()) == Ok::<
                    (Seq<UvCoord>, int),
                    ErrorKind,
                >((uv_coords.deep_view(), p as int)),
            decreases n - i,
        {
            proof {
                lemma_sp_many_snoc(
                    s@,
                    p1b as int,
                    i as nat,
                    sp_uv_coord_f(),
                    uv_coords.deep_view(),
                    p as int,
                );
            }
            match UvCoord::read(s, p) {
                Ok((v, p2)) => {
                    let ghost old_dv = uv_coords.deep_view();
                    uv_coords.push(v);
                    assert(uv_coords.deep_view() =~= old_dv.push(v));
                    p = p2;
                    i = i + 1;
                },
                Err(e) => {
                    proof {
                        lemma_sp_many_err_mono(
                            s@,
                            p1b as int,
                            i as nat + 1,
                            n as nat,
                            sp_uv_coord_f(),
                        );
                    }
                    return Err(e.context("UV texture coordinate"));
                },
            }
        }
        let mut face_colors: Vec<Color4f> = Vec::new();
        let p1c = p;
        let mut i: u32 = 0;
        assert(face_colors.deep_view() =~= Seq::<Color4f>::empty());
        while i < n
            invariant
                i <= n,
                sp_many(s@, p1c as int, i as nat, sp_color4f_f()) == Ok::<
                    (Seq<Color4f>, int),
                    ErrorKind,
                >((face_colors.deep_view(), p as int)),
            decreases n - i,
        {
            proof {
                lemma_sp_many_snoc(
                    s@,
                    p1c as int,
                    i as nat,
                    sp_color4f_f(),
                    face_colors.deep_view(),
                    p as int,
                );
            }
            match crate::material::Color4f::read(s, p) {
                Ok((v, p2)) => {
                    let ghost old_dv = face_colors.deep_view();
                    face_colors.push(v);
                    assert(face_colors.deep_view() =~= old_dv.push(v));
                    p = p2;
                    i = i + 1;
                },
                Err(e) => {
                    proof {
                        lemma_sp_many_err_mono(
                            s@,
                            p1c as int,
                            i as nat + 1,
                            n as nat,
                            sp_color4f_f(),
                        );
                    }
                    return Err(e.context("face color"));
                },
            }
        }
        Ok((TextureVertices { normals, uv_coords, face_colors }, p))
    }
}

/// One object-data block: a numeric tag, a face block, then a
/// texture-vertex block.
#[derive(Clone, Debug, PartialEq)]
pub struct ObjectData {
    pub mn: u32,
    pub faces: Faces,
    pub texture_vertices: TextureVertices,
}

/// The mathematical shape of a decoded object-data block.
pub struct ObjectDataView {
    pub mn: u32,
    pub faces: FacesView,
    pub texture_vertices: TextureVerticesView,
}

impl DeepView for ObjectData {
    type V = ObjectDataView;

    open spec fn deep_view(&self) -> ObjectDataView {
        ObjectDataView {
            mn: self.mn,
            faces: self.faces.deep_view(),
            texture_vertices: self.texture_vertices.deep_view(),
        }
    }
}

/// An object-data record.
#[verifier::opaque]
pub open spec fn sp_object_data(s: Seq<u8>, pos: int) -> Result<(ObjectDataView, int), ErrorKind> {
    match sp_u32(s, pos) {
        Err(k) => Err(k),
        Ok((mn, p1)) => match sp_faces(s, p1) {
            Err(k) => Err(k),
            Ok((faces, p2)) => match sp_texture_vertices(s, p2) {
                Err(k) => Err(k),
                Ok((texture_vertices, p3)) => Ok(
                    (ObjectDataView { mn, faces, texture_vertices }, p3),
                ),
            },
        },
    }
}

/// The element parser of one object-data block.
pub open spec fn sp_object_data_f() -> spec_fn(Seq<u8>, int) -> Result<(ObjectDataView, int), ErrorKind> {
    |s: Seq<u8>, pos: int| sp_object_data(s, pos)
}

impl ObjectData {
    /// Read one object-data block.
    pub fn read(s: &[u8], pos: usize) -> (r: Result<(Self, usize), DecodeError>)
        ensures
            decodes(r, sp_object_data(s@, pos as int)),
    {
        proof {
            reveal(sp_object_data);
        }
        let (mn, p1) = match read_u32(s, pos) {
            Ok(v) => v,
            Err(e) => {
                return Err(e.context("MN"));
            },
        };
        let (faces, p2) = match Faces::read(s, p1) {
            Ok(v) => v,
            Err(e) => {
                return Err(e);
            },
        };
        match TextureVertices::read(s, p2) {
            Ok((texture_vertices, p3)) => Ok((ObjectData { mn, faces, texture_vertices }, p3)),
            Err(e) => Err(e),
        }
    }
}

/// Collision geometry: a vertex array and a face-normal array, each with
/// its own leading count.
#[derive(Clone, Debug, PartialEq)]
pub struct Collisions {
    pub vertices: Vec<Vertex>,
    pub faces: Vec<FaceNormal>,
}

/// The mathematical shape of decoded collision geometry.
pub struct CollisionsView {
    pub vertices: Seq<Vertex>,
    pub faces: Seq<FaceNormal>,
}

impl DeepView for Collisions {
    type V = CollisionsView;

    open spec fn deep_view(&self) -> CollisionsView {
        CollisionsView { vertices: self.vertices.deep_view(), faces: self.faces.deep_view() }
    }
}

/// A collision-geometry record.
#[verifier::opaque]
pub open spec fn sp_collisions(s: Seq<u8>, pos: int) -> Result<(CollisionsView, int), ErrorKind> {
    match sp_u32(s, pos) {
        Err(k) => Err(k),
        Ok((n1, p1)) => match sp_many(s, p1, n1 as nat, sp_vertex_f()) {
            Err(k) => Err(k),
            Ok((vertices, p2)) => match sp_u32(s, p2) {
                Err(k) => Err(k),
                Ok((n2, p3)) => match sp_many(s, p3, n2 as nat, sp_face_normal_f()) {
                    Err(k) => Err(k),
                    Ok((faces, p4)) => Ok((CollisionsView { vertices, faces }, p4)),
                },
            },
        },
    }
}

impl Collisions {
    /// Read collision geometry.
    pub fn read(s: &[u8], pos: usize) -> (r: Result<(Self, usize), DecodeError>)
        ensures
            decodes(r, sp_collisions(s@, pos as int)),
    {
        proof {
            reveal(sp_collisions);
        }
        let (n1, p1) = match read_u32(s, pos) {
            Ok(v) => v,
            Err(e) => {
                return Err(e.context("collision vertices count"));
            },
        };
        let (vertices, p2) = match read_vertex_array(s, p1, n1) {
            Ok(v) => v,
            Err(e) => {
                return Err(e.context("collision vertex"));
            },
        };
        let (n2, p3) = match read_u32(s, p2) {
            Ok(v) => v,
            Err(e) => {
                return Err(e.context("collision faces count"));
            },
        };
        match read_face_normal_array(s, p3, n2) {
            Ok((faces, p4)) => Ok((Collisions { vertices, faces }, p4)),
            Err(e) => Err(e.context("collision face normal")),
        }
    }
}

/// A tag: two (coordinate triple, face index) pairs.
#[derive(Clone, Copy, Debug, PartialEq, Eq)]
pub struct Tag {
    pub coord1: (u16, u16, u16),
    pub face_index_1: u16,
    pub coord2: (u16, u16, u16),
    pub face_index_2: u16,
}

impl DeepView for Tag {
    type V = Tag;

    open spec fn deep_view(&self) -> Tag {
        *self
    }
}

/// A tag record: sixteen bytes of 16-bit values.
pub open spec fn sp_tag(s: Seq<u8>, pos: int) -> Result<(Tag, int), ErrorKind> {
    if 0 <= pos && pos + 16 <= s.len() {
        Ok(
            (
                Tag {
                    coord1: (le16(s, pos), le16(s, pos + 2), le16(s, pos + 4)),
                    face_index_1: le16(s, pos + 6),
                    coord2: (le16(s, pos + 8), le16(s, pos + 10), le16(s, pos + 12)),
                    face_index_2: le16(s, pos + 14),
                },
                pos + 16,
            ),
        )
    } else {
        Err(ErrorKind::TruncatedInput)
    }
}

/// The element parser of one tag.
pub open spec fn sp_tag_f() -> spec_fn(Seq<u8>, int) -> Result<(Tag, int), ErrorKind> {
    |s: Seq<u8>, pos: int| sp_tag(s, pos)
}

impl Tag {
    /// Read one tag.
    pub fn read(s: &[u8], pos: usize) -> (r: Result<(Self, usize), DecodeError>)
        ensures
            decodes(r, sp_tag(s@, pos as int)),
    {
        let (c1, p1) = match crate::prim::read_u16_trip(s, pos) {
            Ok(v) => v,
            Err(e) => {
                return Err(e.context("coord1"));
            },
        };
        let (f1, p2) = match crate::prim::read_u16(s, p1) {
            Ok(v) => v,
            Err(e) => {
                return Err(e.context("face index 1"));
            },
        };
        let (c2, p3) = match crate::prim::read_u16_trip(s, p2) {
            Ok(v) => v,
            Err(e) => {
                return Err(e.context("coord2"));
            },
        };
        match crate::prim::read_u16(s, p3) {
            Ok((f2, p4)) => Ok(
                (Tag { coord1: c1, face_index_1: f1, coord2: c2, face_index_2: f2 }, p4),
            ),
            Err(e) => Err(e.context("face index 2")),
        }
    }
}

/// An indexed-name record: a name, a numeric id and a variable-length
/// index array.
#[derive(Clone, Debug, PartialEq)]
pub struct EIndices {
    pub text: String,
    pub mn: u32,
    pub indices: Vec<u16>,
}

/// The mathematical shape of a decoded indexed-name record.
pub struct EIndicesView {
    pub text: Seq<char>,
    pub mn: u32,
    pub indices: Seq<u16>,
}

impl DeepView for EIndices {
    type V = EIndicesView;

    open spec fn deep_view(&self) -> EIndicesView {
        EIndicesView { text: self.text@, mn: self.mn, indices: self.indices.deep_view() }
    }
}

/// An indexed-name record: name, id, count, then that many 16-bit indices.
#[verifier::opaque]
pub open spec fn sp_eindices(s: Seq<u8>, pos: int) -> Result<(EIndicesView, int), ErrorKind> {
    match sp_name(s, pos) {
        Err(k) => Err(k),
        Ok((text, p1)) => match sp_u32(s, p1) {
            Err(k) => Err(k),
            Ok((mn, p2)) => match sp_u32(s, p2) {
                Err(k) => Err(k),
                Ok((n, p3)) => match sp_many(s, p3, n as nat, crate::prim::sp_u16_f()) {
                    Err(k) => Err(k),
                    Ok((indices, p4)) => Ok((EIndicesView { text, mn, indices }, p4)),
                },
            },
        },
    }
}

/// The element parser of one indexed-name record.
pub open spec fn sp_eindices_f() -> spec_fn(Seq<u8>, int) -> Result<(EIndicesView, int), ErrorKind> {
    |s: Seq<u8>, pos: int| sp_eindices(s, pos)
}

impl EIndices {
    /// Read one indexed-name record.
    pub fn read(s: &[u8], pos: usize) -> (r: Result<(Self, usize), DecodeError>)
        ensures
            decodes(r, sp_eindices(s@, pos as int)),
    {
        proof {
            reveal(sp_eindices);
        }
        let (text, p1) = match crate::prim::read_name(s, pos) {
            Ok(v) => v,
            Err(e) => {
                return Err(e.context("EIndex text"));
            },
        };
        let (mn, p2) = match read_u32(s, p1) {
            Ok(v) => v,
            Err(e) => {
                return Err(e.context("EIndex MN"));
            },
        };
        let (n, p3) = match read_u32(s, p2) {
            Ok(v) => v,
            Err(e) => {
                return Err(e.context("EIndex indices count"));
            },
        };
        match crate::prim::read_u16_array(s, p3, n) {
            Ok((indices, p4)) => Ok((EIndices { text, mn, indices }, p4)),
            Err(e) => Err(e),
        }
    }
}

/// One geometry object: two consecutive section headers (a preserved
/// on-disk oddity), then vertices, object-data blocks, collision geometry,
/// tags and indexed-name records.
#[derive(Clone, Debug, PartialEq)]
pub struct Object {
    pub id: u32,
    pub name: String,
    pub object_id: u32,
    pub object_name: String,
    pub vertices: Vec<Vertex>,
    pub object_datas: Vec<ObjectData>,
    pub collisions: Collisions,
    pub tags: Vec<Tag>,
    pub ind: Vec<EIndices>,
}

/// The mathematical shape of a decoded geometry object.
pub struct ObjectView {
    pub id: u32,
    pub name: Seq<char>,
    pub object_id: u32,
    pub object_name: Seq<char>,
    pub vertices: Seq<Vertex>,
    pub object_datas: Seq<ObjectDataView>,
    pub collisions: CollisionsView,
    pub tags: Seq<Tag>,
    pub ind: Seq<EIndicesView>,
}

impl DeepView for Object {
    type V = ObjectView;

    open spec fn deep_view(&self) -> ObjectView {
        ObjectView {
            id: self.id,
            name: self.name@,
            object_id: self.object_id,
            object_name: self.object_name@,
            vertices: self.vertices.deep_view(),
            object_datas: self.object_datas.deep_view(),
            collisions: self.collisions.deep_view(),
            tags: self.tags.deep_view(),
            ind: self.ind.deep_view(),
        }
    }
}

/// A geometry object record, exactly in on-disk order: both section
/// headers, the vertex list, the object-data list, collision geometry, the
/// tag list and the indexed-name list.
#[verifier::opaque]
pub open spec fn sp_object(s: Seq<u8>, pos: int) -> Result<(ObjectView, int), ErrorKind> {
    match sp_section_header(s, pos) {
        Err(k) => Err(k),
        Ok(((id, name), p1)) => match sp_section_header(s, p1) {
            Err(k) => Err(k),
            Ok(((object_id, object_name), p2)) => match sp_u32(s, p2) {
                Err(k) => Err(k),
                Ok((nv, p3)) => match sp_many(s, p3, nv as nat, sp_vertex_f()) {
                    Err(k) => Err(k),
                    Ok((vertices, p4)) => match sp_u32(s, p4) {
                        Err(k) => Err(k),
                        Ok((nd, p5)) => match sp_many(s, p5, nd as nat, sp_object_data_f()) {
                            Err(k) => Err(k),
                            Ok((object_datas, p6)) => match sp_collisions(s, p6) {
                                Err(k) => Err(k),
                                Ok((collisions, p7)) => match sp_u32(s, p7) {
                                    Err(k) => Err(k),
                                    Ok((nt, p8)) => match sp_many(s, p8, nt as nat, sp_tag_f()) {
                                        Err(k) => Err(k),
                                        Ok((tags, p9)) => match sp_u32(s, p9) {
                                            Err(k) => Err(k),
                                            Ok((nf, p10)) => match sp_many(
                                                s,
                                                p10,
                                                nf as nat,
                                                sp_eindices_f(),
                                            ) {
                                                Err(k) => Err(k),
                                                Ok((ind, p11)) => Ok(
                                                    (
                                                        ObjectView {
                                                            id,
                                                            name,
                                                            object_id,
                                                            object_name,
                                                            vertices,
                                                            object_datas,
                                                            collisions,
                                                            tags,
                                                            ind,
                                                        },
                                                        p11,
                                                    ),
                                                ),
                                            },
                                        },
                                    },
                                },
                            },
                        },
                    },
                },
            },
        },
    }
}

/// The element parser of one geometry object.
pub open spec fn sp_object_f() -> spec_fn(Seq<u8>, int) -> Result<(ObjectView, int), ErrorKind> {
    |s: Seq<u8>, pos: int| sp_object(s, pos)
}

impl Object {
    /// Read one geometry object.
    #[verifier::rlimit(80)]
    #[verifier::loop_isolation(false)]
    pub fn read(s: &[u8], pos: usize) -> (r: Result<(Self, usize), DecodeError>)
        ensures
            decodes(r, sp_object(s@, pos as int)),
    {
        proof {
            reveal(sp_object);
        }
        let ((id, name), p1) = match section_header(s, pos) {
            Ok(v) => v,
            Err(e) => {
                return Err(e.context("section header"));
            },
        };
        let ((object_id, object_name), p2) = match section_header(s, p1) {
            Ok(v) => v,
            Err(e) => {
                return Err(e.context("object section header"));
            },
        };
        let (nv, p3) = match read_u32(s, p2) {
            Ok(v) => v,
            Err(e) => {
                return Err(e.context("vertex count"));
            },
        };
        let (vertices, p4) = match read_vertex_array(s, p3, nv) {
            Ok(v) => v,
            Err(e) => {
                return Err(e);
            },
        };
        let (nd, p5) = match read_u32(s, p4) {
            Ok(v) => v,
            Err(e) => {
                return Err(e.context("objects data count"));
            },
        };
        let mut object_datas: Vec<ObjectData> = Vec::new();
        let mut p = p5;
        let mut i: u32 = 0;
        assert(object_datas.deep_view() =~= Seq::<ObjectDataView>::empty());
        while i < nd
            invariant
                i <= nd,
                sp_many(s@, p5 as int, i as nat, sp_object_data_f()) == Ok::<
                    (Seq<ObjectDataView>, int),
                    ErrorKind,
                >((object_datas.deep_view(), p as int)),
            decreases nd - i,
        {
            proof {
                lemma_sp_many_snoc(
                    s@,
                    p5 as int,
                    i as nat,
                    sp_object_data_f(),
                    object_datas.deep_view(),
                    p as int,
                );
            }
            match ObjectData::read(s, p) {
                Ok((v, p2x)) => {
                    let ghost old_dv = object_datas.deep_view();
                    object_datas.push(v);
                    assert(object_datas.deep_view() =~= old_dv.push(v.deep_view()));
                    p = p2x;
                    i = i + 1;
                },
                Err(e) => {
                    proof {
                        lemma_sp_many_err_mono(
                            s@,
                            p5 as int,
                            i as nat + 1,
                            nd as nat,
                            sp_object_data_f(),
                        );
                    }
                    return Err(e);
                },
            }
        }
        let (collisions, p7) = match Collisions::read(s, p) {
            Ok(v) => v,
            Err(e) => {
                return Err(e);
            },
        };
        let (nt, p8) = match read_u32(s, p7) {
            Ok(v) => v,
            Err(e) => {
                return Err(e.context("object tag count"));
            },
        };
        let mut tags: Vec<Tag> = Vec::new();
        let mut p = p8;
        let mut i: u32 = 0;
        assert(tags.deep_view() =~= Seq::<Tag>::empty());
        while i < nt
            invariant
                i <= nt,
                sp_many(s@, p8 as int, i as nat, sp_tag_f()) == Ok::<(Seq<Tag>, int), ErrorKind>(
                    (tags.deep_view(), p as int),
                ),
            decreases nt - i,
        {
            proof {
                lemma_sp_many_snoc(s@, p8 as int, i as nat, sp_tag_f(), tags.deep_view(), p as int);
            }
            match Tag::read(s, p) {
                Ok((v, p2x)) => {
                    let ghost old_dv = tags.deep_view();
                    tags.push(v);
                    assert(tags.deep_view() =~= old_dv.push(v));
                    p = p2x;
                    i = i + 1;
                },
                Err(e) => {
                    proof {
                        lemma_sp_many_err_mono(s@, p8 as int, i as nat + 1, nt as nat, sp_tag_f());
                    }
                    return Err(e);
                },
            }
        }
        let (nf, p10) = match read_u32(s, p) {
            Ok(v) => v,
            Err(e) => {
                return Err(e.context("FF count"));
            },
        };
        let mut ind: Vec<EIndices> = Vec::new();
        let mut p = p10;
        let mut i: u32 = 0;
        assert(ind.deep_view() =~= Seq::<EIndicesView>::empty());
        while i < nf
            invariant
                i <= nf,
                sp_many(s@, p10 as int, i as nat, sp_eindices_f()) == Ok::<
                    (Seq<EIndicesView>, int),
                    ErrorKind,
                >((ind.deep_view(), p as int)),
            decreases nf - i,
        {
            proof {
                lemma_sp_many_snoc(
                    s@,
                    p10 as int,
                    i as nat,
                    sp_eindices_f(),
                    ind.deep_view(),
                    p as int,
                );
            }
            match EIndices::read(s, p) {
                Ok((v, p2x)) => {
                    let ghost old_dv = ind.deep_view();
                    ind.push(v);
                    assert(ind.deep_view() =~= old_dv.push(v.deep_view()));
                    p = p2x;
                    i = i + 1;
                },
                Err(e) => {
                    proof {
                        lemma_sp_many_err_mono(
                            s@,
                            p10 as int,
                            i as nat + 1,
                            nf as nat,
                            sp_eindices_f(),
                        );
                    }
                    return Err(e.context("EIndices"));
                },
            }
        }
        Ok(
            (
                Object {
                    id,
                    name,
                    object_id,
                    object_name,
                    vertices,
                    object_datas,
                    collisions,
                    tags,
                    ind,
                },
                p,
            ),
        )
    }
}

/// The Geometries section: its section header and the geometry objects.
#[derive(Clone, Debug, PartialEq)]
pub struct Geometries {
    pub id: u32,
    pub objects: Vec<Object>,
}

/// The mathematical shape of the decoded geometry section.
pub struct GeometriesView {
    pub id: u32,
    pub objects: Seq<ObjectView>,
}

impl DeepView for Geometries {
    type V = GeometriesView;

    open spec fn deep_view(&self) -> GeometriesView {
        GeometriesView { id: self.id, objects: self.objects.deep_view() }
    }
}

/// The geometry section: a section header (its name is not kept), a count,
/// then that many geometry objects.
#[verifier::opaque]
pub open spec fn sp_geometries(s: Seq<u8>, pos: int) -> Result<(GeometriesView, int), ErrorKind> {
    match sp_section_header(s, pos) {
        Err(k) => Err(k),
        Ok(((id, _name), p1)) => match sp_u32(s, p1) {
            Err(k) => Err(k),
            Ok((n, p2)) => match sp_many(s, p2, n as nat, sp_object_f()) {
                Err(k) => Err(k),
                Ok((objects, p3)) => Ok((GeometriesView { id, objects }, p3)),
            },
        },
    }
}

impl Geometries {
    /// Read the geometry section.
    #[verifier::rlimit(50)]
    #[verifier::loop_isolation(false)]
    pub fn read(s: &[u8], pos: usize) -> (r: Result<(Self, usize), DecodeError>)
        ensures
            decodes(r, sp_geometries(s@, pos as int)),
    {
        proof {
            reveal(sp_geometries);
        }
        let ((id, _name), p1) = match section_header(s, pos) {
            Ok(v) => v,
            Err(e) => {
                return Err(e.context("geometry list section header"));
            },
        };
        let (n, p2) = match read_u32(s, p1) {
            Ok(v) => v,
            Err(e) => {
                return Err(e.context("missing number of objects"));
            },
        };
        let mut objects: Vec<Object> = Vec::new();
        let mut p = p2;
        let mut i: u32 = 0;
        assert(objects.deep_view() =~= Seq::<ObjectView>::empty());
        while i < n
            invariant
                i <= n,
                sp_many(s@, p2 as int, i as nat, sp_object_f()) == Ok::<
                    (Seq<ObjectView>, int),
                    ErrorKind,
                >((objects.deep_view(), p as int)),
            decreases n - i,
        {
            proof {
                lemma_sp_many_snoc(
                    s@,
                    p2 as int,
                    i as nat,
                    sp_object_f(),
                    objects.deep_view(),
                    p as int,
                );
            }
            match Object::read(s, p) {
                Ok((v, p2x)) => {
                    let ghost old_dv = objects.deep_view();
                    objects.push(v);
                    assert(objects.deep_view() =~= old_dv.push(v.deep_view()));
                    p = p2x;
                    i = i + 1;
                },
                Err(e) => {
                    proof {
                        lemma_sp_many_err_mono(s@, p2 as int, i as nat + 1, n as nat, sp_object_f());
                    }
                    return Err(e);
                },
            }
        }
        Ok((Geometries { id, objects }, p))
    }
}

} // verus!
