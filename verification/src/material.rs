//! The Materials section: texture material references and rendering
//! parameters.
use vstd::prelude::*;

use crate::err::{DecodeError, ErrorKind};
use crate::prim::{
    decodes, latin1, lemma_sp_many_err_mono, lemma_sp_many_snoc, read_bool, read_cstring,
    read_f32_bits, read_u32, sp_bool, sp_cstring, sp_many, sp_u32,
};
use crate::section::{section_header, sp_section_header};

verus! {

broadcast use crate::prim::lemma_vec_u8_deep_view;

/// How a texture is addressed outside its unit square.
#[derive(Clone, Copy, Debug, PartialEq, Eq, Structural)]
pub enum TextureAddressMode {
    Opaque,
    Wrap,
    Clamp,
}

impl DeepView for TextureAddressMode {
    type V = TextureAddressMode;

    open spec fn deep_view(&self) -> TextureAddressMode {
        *self
    }
}

/// A texture address mode: the 32-bit selector allows exactly 0, 1 and 3.
pub open spec fn sp_address_mode(s: Seq<u8>, pos: int) -> Result<
    (TextureAddressMode, int),
    ErrorKind,
> {
    match sp_u32(s, pos) {
        Err(k) => Err(k),
        Ok((v, p)) => if v == 0 {
            Ok((TextureAddressMode::Opaque, p))
        } else if v == 1 {
            Ok((TextureAddressMode::Wrap, p))
        } else if v == 3 {
            Ok((TextureAddressMode::Clamp, p))
        } else {
            Err(ErrorKind::UnknownDiscriminator)
        },
    }
}

impl TextureAddressMode {
    /// Read the texture address mode selector; any value outside its table
    /// is a hard failure.
    pub fn read(s: &[u8], pos: usize) -> (r: Result<(Self, usize), DecodeError>)
        ensures
            decodes(r, sp_address_mode(s@, pos as int)),
    {
        match read_u32(s, pos) {
            Err(e) => Err(e.context("texture address mode")),
            Ok((v, p)) => if v == 0 {
                Ok((TextureAddressMode::Opaque, p))
            } else if v == 1 {
                Ok((TextureAddressMode::Wrap, p))
            } else if v == 3 {
                Ok((TextureAddressMode::Clamp, p))
            } else {
                Err(
                    DecodeError::new(ErrorKind::UnknownDiscriminator).context(
                        "unknown texture mode address value",
                    ),
                )
            },
        }
    }
}

/// A color with red, green, blue and alpha components, each the raw bits of
/// a float.
#[derive(Clone, Copy, Debug, PartialEq, Eq, Structural)]
pub struct Color4f {
    pub r: u32,
    pub g: u32,
    pub b: u32,
    pub a: u32,
}

impl DeepView for Color4f {
    type V = Color4f;

    open spec fn deep_view(&self) -> Color4f {
        *self
    }
}

/// The color whose sixteen bytes sit at `pos`.
pub open spec fn color4f_at(s: Seq<u8>, pos: int) -> Color4f {
    Color4f {
        r: crate::prim::le32(s, pos),
        g: crate::prim::le32(s, pos + 4),
        b: crate::prim::le32(s, pos + 8),
        a: crate::prim::le32(s, pos + 12),
    }
}

/// A four-float color record.
pub open spec fn sp_color4f(s: Seq<u8>, pos: int) -> Result<(Color4f, int), ErrorKind> {
    if 0 <= pos && pos + 16 <= s.len() {
        Ok((color4f_at(s, pos), pos + 16))
    } else {
        Err(ErrorKind::TruncatedInput)
    }
}

impl Color4f {
    /// Read a four-float color: red, green, blue, alpha.
    pub fn read(s: &[u8], pos: usize) -> (r: Result<(Self, usize), DecodeError>)
        ensures
            decodes(r, sp_color4f(s@, pos as int)),
    {
        let (r_, p1) = match read_f32_bits(s, pos) {
            Ok(v) => v,
            Err(e) => {
                return Err(e.context("red"));
            },
        };
        let (g, p2) = match read_f32_bits(s, p1) {
            Ok(v) => v,
            Err(e) => {
                return Err(e.context("green"));
            },
        };
        let (b, p3) = match read_f32_bits(s, p2) {
            Ok(v) => v,
            Err(e) => {
                return Err(e.context("blue"));
            },
        };
        match read_f32_bits(s, p3) {
            Ok((a, p4)) => Ok((Color4f { r: r_, g, b, a }, p4)),
            Err(e) => Err(e.context("alpha")),
        }
    }
}

/// A texture material reference with its rendering parameters.
#[derive(Clone, Debug, PartialEq)]
pub struct Material {
    pub id: u32,
    pub filename: String,
    pub name: String,
    pub opacity: u32,
    pub emissive_strength: u32,
    pub address_mode: TextureAddressMode,
    pub ambient: Color4f,
    pub diffuse: Color4f,
    pub specular: Color4f,
    pub specular_level: u32,
    pub two_sided: bool,
}

/// The mathematical shape of a decoded material.
pub struct MaterialView {
    pub id: u32,
    pub filename: Seq<char>,
    pub name: Seq<char>,
    pub opacity: u32,
    pub emissive_strength: u32,
    pub address_mode: TextureAddressMode,
    pub ambient: Color4f,
    pub diffuse: Color4f,
    pub specular: Color4f,
    pub specular_level: u32,
    pub two_sided: bool,
}

impl DeepView for Material {
    type V = MaterialView;

    open spec fn deep_view(&self) -> MaterialView {
        MaterialView {
            id: self.id,
            filename: self.filename@,
            name: self.name@,
            opacity: self.opacity,
            emissive_strength: self.emissive_strength,
            address_mode: self.address_mode,
            ambient: self.ambient,
            diffuse: self.diffuse,
            specular: self.specular,
            specular_level: self.specular_level,
            two_sided: self.two_sided,
        }
    }
}

/// A material record: a section header, the texture filename, then the
/// rendering parameters in declared order.
#[verifier::opaque]
pub open spec fn sp_material(s: Seq<u8>, pos: int) -> Result<(MaterialView, int), ErrorKind> {
    match sp_section_header(s, pos) {
        Err(k) => Err(k),
        Ok(((id, name), p1)) => match sp_cstring(s, p1) {
            Err(k) => Err(k),
            Ok((filename, p2)) => match sp_u32(s, p2) {
                Err(k) => Err(k),
                Ok((opacity, p3)) => match sp_u32(s, p3) {
                    Err(k) => Err(k),
                    Ok((emissive, p4)) => match sp_address_mode(s, p4) {
                        Err(k) => Err(k),
                        Ok((address_mode, p5)) => match sp_color4f(s, p5) {
                            Err(k) => Err(k),
                            Ok((ambient, p6)) => match sp_color4f(s, p6) {
                                Err(k) => Err(k),
                                Ok((diffuse, p7)) => match sp_color4f(s, p7) {
                                    Err(k) => Err(k),
                                    Ok((specular, p8)) => match sp_u32(s, p8) {
                                        Err(k) => Err(k),
                                        Ok((specular_level, p9)) => match sp_bool(s, p9) {
                                            Err(k) => Err(k),
                                            Ok((two_sided, p10)) => Ok(
                                                (
                                                    MaterialView {
                                                        id,
                                                        filename: latin1(filename),
                                                        name,
                                                        opacity,
                                                        emissive_strength: emissive,
                                                        address_mode,
                                                        ambient,
                                                        diffuse,
                                                        specular,
                                                        specular_level,
                                                        two_sided,
                                                    },
                                                    p10,
                                                ),
                                            ),
                                        },
                                    },
                                },
                            },
                        },
                    },
                },
            },
        },
    }
}

/// The element parser of one material record.
pub open spec fn sp_material_f() -> spec_fn(Seq<u8>, int) -> Result<(MaterialView, int), ErrorKind> {
    |s: Seq<u8>, pos: int| sp_material(s, pos)
}

impl Material {
    /// Read one material record.
    pub fn read(s: &[u8], pos: usize) -> (r: Result<(Self, usize), DecodeError>)
        ensures
            decodes(r, sp_material(s@, pos as int)),
    {
        proof {
            reveal(sp_material);
        }
        let ((id, name), p1) = match section_header(s, pos) {
            Ok(v) => v,
            Err(e) => {
                return Err(e.context("material section header"));
            },
        };
        let (filename, p2) = match read_cstring(s, p1) {
            Ok(v) => v,
            Err(e) => {
                return Err(e.context("texture filename"));
            },
        };
        let (opacity, p3) = match read_f32_bits(s, p2) {
            Ok(v) => v,
            Err(e) => {
                return Err(e.context("opacity"));
            },
        };
        let (emissive_strength, p4) = match read_u32(s, p3) {
            Ok(v) => v,
            Err(e) => {
                return Err(e.context("emissive strength"));
            },
        };
        let (address_mode, p5) = match TextureAddressMode::read(s, p4) {
            Ok(v) => v,
            Err(e) => {
                return Err(e);
            },
        };
        let (ambient, p6) = match Color4f::read(s, p5) {
            Ok(v) => v,
            Err(e) => {
                return Err(e.context("ambient"));
            },
        };
        let (diffuse, p7) = match Color4f::read(s, p6) {
            Ok(v) => v,
            Err(e) => {
                return Err(e.context("diffuse"));
            },
        };
        let (specular, p8) = match Color4f::read(s, p7) {
            Ok(v) => v,
            Err(e) => {
                return Err(e.context("specular"));
            },
        };
        let (specular_level, p9) = match read_f32_bits(s, p8) {
            Ok(v) => v,
            Err(e) => {
                return Err(e.context("specular level"));
            },
        };
        match read_bool(s, p9) {
            Ok((two_sided, p10)) => Ok(
                (
                    Material {
                        id,
                        filename: crate::prim::latin1_to_utf8(filename.as_slice()),
                        name,
                        opacity,
                        emissive_strength,
                        address_mode,
                        ambient,
                        diffuse,
                        specular,
                        specular_level,
                        two_sided,
                    },
                    p10,
                ),
            ),
            Err(e) => Err(e.context("two sided")),
        }
    }
}

/// The list of all materials of the level.
#[derive(Clone, Debug, PartialEq)]
pub struct Materials {
    pub id: u32,
    pub materials: Vec<Material>,
}

/// The mathematical shape of the decoded materials section.
pub struct MaterialsView {
    pub id: u32,
    pub materials: Seq<MaterialView>,
}

impl DeepView for Materials {
    type V = MaterialsView;

    open spec fn deep_view(&self) -> MaterialsView {
        MaterialsView { id: self.id, materials: self.materials.deep_view() }
    }
}

/// The materials section: a section header (its name is not kept), a
/// 32-bit count, then exactly that many material records.
pub open spec fn sp_materials(s: Seq<u8>, pos: int) -> Result<(MaterialsView, int), ErrorKind> {
    match sp_section_header(s, pos) {
        Err(k) => Err(k),
        Ok(((id, _name), p1)) => match sp_u32(s, p1) {
            Err(k) => Err(k),
            Ok((n, p2)) => match sp_many(s, p2, n as nat, sp_material_f()) {
                Err(k) => Err(k),
                Ok((materials, p3)) => Ok((MaterialsView { id, materials }, p3)),
            },
        },
    }
}

impl Materials {
    /// Read the materials section.
    #[verifier::rlimit(50)]
    #[verifier::loop_isolation(false)]
    pub fn read(s: &[u8], pos: usize) -> (r: Result<(Self, usize), DecodeError>)
        ensures
            decodes(r, sp_materials(s@, pos as int)),
    {
        let ((id, _name), p1) = match section_header(s, pos) {
            Ok(v) => v,
            Err(e) => {
                return Err(e.context("material list section header"));
            },
        };
        let (n, p2) = match read_u32(s, p1) {
            Ok(v) => v,
            Err(e) => {
                return Err(e.context("missing number of materials"));
            },
        };
        let mut materials: Vec<Material> = Vec::new();
        let mut p = p2;
        let mut i: u32 = 0;
        assert(materials.deep_view() =~= Seq::<MaterialView>::empty());
        while i < n
            invariant
                i <= n,
                sp_many(s@, p2 as int, i as nat, sp_material_f()) == Ok::<
                    (Seq<MaterialView>, int),
                    ErrorKind,
                >((materials.deep_view(), p as int)),
            decreases n - i,
        {
            proof {
                lemma_sp_many_snoc(
                    s@,
                    p2 as int,
                    i as nat,
                    sp_material_f(),
                    materials.deep_view(),
                    p as int,
                );
            }
            match Material::read(s, p) {
                Ok((m, pnext)) => {
                    let ghost old_dv = materials.deep_view();
                    materials.push(m);
                    assert(materials.deep_view() =~= old_dv.push(m.deep_view()));
                    p = pnext;
                    i = i + 1;
                },
                Err(e) => {
                    proof {
                        lemma_sp_many_err_mono(
                            s@,
                            p2 as int,
                            i as nat + 1,
                            n as nat,
                            sp_material_f(),
                        );
                    }
                    return Err(e.context("material section header"));
                },
            }
        }
        Ok((Materials { id, materials }, p))
    }
}

} // verus!
