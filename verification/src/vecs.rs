//! Fixed-size vector records shared by several MAP sections: 3-, 6- and
//! 8-component float vectors and the 4x3 transformation matrix.
//!
//! Every 32-bit float of the wire format is held as its raw little-endian
//! bit pattern in a `u32` field; consumers reinterpret the bits.
use vstd::prelude::*;

use crate::err::{DecodeError, ErrorKind};
use crate::prim::{decodes, le32, read_f32_bits, sp_u32};

verus! {

/// A 3-component vector (x, y, z), each component the raw bits of a float.
#[derive(Clone, Copy, Debug, PartialEq, Eq, Structural)]
pub struct Vec3f {
    pub x: u32,
    pub y: u32,
    pub z: u32,
}

impl DeepView for Vec3f {
    type V = Vec3f;

    open spec fn deep_view(&self) -> Vec3f {
        *self
    }
}

/// The 3-component vector whose twelve bytes sit at `pos`.
pub open spec fn vec3f_at(s: Seq<u8>, pos: int) -> Vec3f {
    Vec3f { x: le32(s, pos), y: le32(s, pos + 4), z: le32(s, pos + 8) }
}

/// A 3-component vector record.
pub open spec fn sp_vec3f(s: Seq<u8>, pos: int) -> Result<(Vec3f, int), ErrorKind> {
    if 0 <= pos && pos + 12 <= s.len() {
        Ok((vec3f_at(s, pos), pos + 12))
    } else {
        Err(ErrorKind::TruncatedInput)
    }
}

impl Vec3f {
    /// Read a 3-component vector.
    pub fn read(s: &[u8], pos: usize) -> (r: Result<(Self, usize), DecodeError>)
        ensures
            decodes(r, sp_vec3f(s@, pos as int)),
    {
        let (x, p1) = match read_f32_bits(s, pos) {
            Ok(v) => v,
            Err(e) => {
                return Err(e.context("x"));
            },
        };
        let (y, p2) = match read_f32_bits(s, p1) {
            Ok(v) => v,
            Err(e) => {
                return Err(e.context("y"));
            },
        };
        match read_f32_bits(s, p2) {
            Ok((z, p3)) => Ok((Vec3f { x, y, z }, p3)),
            Err(e) => Err(e.context("z")),
        }
    }
}

/// A 6-component vector: two (x, y, z) triples.
#[derive(Clone, Copy, Debug, PartialEq, Eq, Structural)]
pub struct Vec6f {
    pub x1: u32,
    pub y1: u32,
    pub z1: u32,
    pub x2: u32,
    pub y2: u32,
    pub z2: u32,
}

impl DeepView for Vec6f {
    type V = Vec6f;

    open spec fn deep_view(&self) -> Vec6f {
        *self
    }
}

/// The 6-component vector whose bytes sit at `pos`.
pub open spec fn vec6f_at(s: Seq<u8>, pos: int) -> Vec6f {
    Vec6f {
        x1: le32(s, pos),
        y1: le32(s, pos + 4),
        z1: le32(s, pos + 8),
        x2: le32(s, pos + 12),
        y2: le32(s, pos + 16),
        z2: le32(s, pos + 20),
    }
}

/// A 6-component vector record.
pub open spec fn sp_vec6f(s: Seq<u8>, pos: int) -> Result<(Vec6f, int), ErrorKind> {
    if 0 <= pos && pos + 24 <= s.len() {
        Ok((vec6f_at(s, pos), pos + 24))
    } else {
        Err(ErrorKind::TruncatedInput)
    }
}

impl Vec6f {
    /// Read a 6-component vector.
    pub fn read(s: &[u8], pos: usize) -> (r: Result<(Self, usize), DecodeError>)
        ensures
            decodes(r, sp_vec6f(s@, pos as int)),
    {
        let (a, p1) = match Vec3f::read(s, pos) {
            Ok(v) => v,
            Err(e) => {
                return Err(e);
            },
        };
        match Vec3f::read(s, p1) {
            Ok((b, p2)) => Ok(
                (Vec6f { x1: a.x, y1: a.y, z1: a.z, x2: b.x, y2: b.y, z2: b.z }, p2),
            ),
            Err(e) => Err(e),
        }
    }
}

/// A 6-component vector with an additional trailing (x, y) pair.
#[derive(Clone, Copy, Debug, PartialEq, Eq, Structural)]
pub struct Vec8f {
    pub x1: u32,
    pub y1: u32,
    pub z1: u32,
    pub x2: u32,
    pub y2: u32,
    pub z2: u32,
    pub x3: u32,
    pub y3: u32,
}

impl DeepView for Vec8f {
    type V = Vec8f;

    open spec fn deep_view(&self) -> Vec8f {
        *self
    }
}

/// The 8-component vector whose bytes sit at `pos`.
pub open spec fn vec8f_at(s: Seq<u8>, pos: int) -> Vec8f {
    Vec8f {
        x1: le32(s, pos),
        y1: le32(s, pos + 4),
        z1: le32(s, pos + 8),
        x2: le32(s, pos + 12),
        y2: le32(s, pos + 16),
        z2: le32(s, pos + 20),
        x3: le32(s, pos + 24),
        y3: le32(s, pos + 28),
    }
}

/// An 8-component vector record.
pub open spec fn sp_vec8f(s: Seq<u8>, pos: int) -> Result<(Vec8f, int), ErrorKind> {
    if 0 <= pos && pos + 32 <= s.len() {
        Ok((vec8f_at(s, pos), pos + 32))
    } else {
        Err(ErrorKind::TruncatedInput)
    }
}

impl Vec8f {
    /// Read an 8-component vector.
    pub fn read(s: &[u8], pos: usize) -> (r: Result<(Self, usize), DecodeError>)
        ensures
            decodes(r, sp_vec8f(s@, pos as int)),
    {
        let (a, p1) = match Vec6f::read(s, pos) {
            Ok(v) => v,
            Err(e) => {
                return Err(e);
            },
        };
        let (x3, p2) = match read_f32_bits(s, p1) {
            Ok(v) => v,
            Err(e) => {
                return Err(e.context("x"));
            },
        };
        match read_f32_bits(s, p2) {
            Ok((y3, p3)) => Ok(
                (
                    Vec8f {
                        x1: a.x1,
                        y1: a.y1,
                        z1: a.z1,
                        x2: a.x2,
                        y2: a.y2,
                        z2: a.z2,
                        x3,
                        y3,
                    },
                    p3,
                ),
            ),
            Err(e) => Err(e.context("y")),
        }
    }
}

/// A transform: three axis vectors and a position.
#[derive(Clone, Copy, Debug, PartialEq, Eq, Structural)]
pub struct TransformationMatrix {
    pub x_axis: Vec3f,
    pub y_axis: Vec3f,
    pub z_axis: Vec3f,
    pub position: Vec3f,
}

impl DeepView for TransformationMatrix {
    type V = TransformationMatrix;

    open spec fn deep_view(&self) -> TransformationMatrix {
        *self
    }
}

/// The transform whose 48 bytes sit at `pos`.
pub open spec fn tm_at(s: Seq<u8>, pos: int) -> TransformationMatrix {
    TransformationMatrix {
        x_axis: vec3f_at(s, pos),
        y_axis: vec3f_at(s, pos + 12),
        z_axis: vec3f_at(s, pos + 24),
        position: vec3f_at(s, pos + 36),
    }
}

/// A transform record.
pub open spec fn sp_tm(s: Seq<u8>, pos: int) -> Result<(TransformationMatrix, int), ErrorKind> {
    if 0 <= pos && pos + 48 <= s.len() {
        Ok((tm_at(s, pos), pos + 48))
    } else {
        Err(ErrorKind::TruncatedInput)
    }
}

impl TransformationMatrix {
    /// Read a transform: x, y and z axis vectors, then the position.
    pub fn read(s: &[u8], pos: usize) -> (r: Result<(Self, usize), DecodeError>)
        ensures
            decodes(r, sp_tm(s@, pos as int)),
    {
        let (x_axis, p1) = match Vec3f::read(s, pos) {
            Ok(v) => v,
            Err(e) => {
                return Err(e.context("transformation matrix x-axis"));
            },
        };
        let (y_axis, p2) = match Vec3f::read(s, p1) {
            Ok(v) => v,
            Err(e) => {
                return Err(e.context("transformation matrix y-axis"));
            },
        };
        let (z_axis, p3) = match Vec3f::read(s, p2) {
            Ok(v) => v,
            Err(e) => {
                return Err(e.context("transformation matrix z-axis"));
            },
        };
        match Vec3f::read(s, p3) {
            Ok((position, p4)) => Ok(
                (TransformationMatrix { x_axis, y_axis, z_axis, position }, p4),
            ),
            Err(e) => Err(e.context("transformation matrix position")),
        }
    }
}

} // verus!
