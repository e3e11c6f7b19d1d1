//! Decoders for two little-endian binary asset containers of a legacy 3D
//! game engine: the "MAP" level-geometry format and the "RSB" raster-texture
//! format.
//!
//! Every decoder is a pure function over an immutable byte buffer.  Each
//! executable reader is verified against a specification-level parser over
//! `Seq<u8>`; the contract of a reader states that its result mirrors the
//! specification parser exactly, including the kind of error on failure.

pub mod dynobj;
pub mod err;
pub mod geometry;
pub mod map;
pub mod material;
pub mod prim;
pub mod room;
pub mod rsb;
pub mod section;
pub mod vecs;
