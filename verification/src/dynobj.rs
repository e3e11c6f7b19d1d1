//! The DynamicObjects section: a discriminator-dispatched tagged union over
//! seven payload grammars, four of which share a common prefix block.  An
//! unmapped discriminator is a hard decode failure, never a fallback shape.
use vstd::prelude::*;

use crate::err::{DecodeError, ErrorKind};
use crate::prim::{
    decodes, latin1, lemma_sp_many_err_mono, lemma_sp_many_snoc, read_f32_bits,
    read_f32_bits_array, read_name, read_name_array, read_u32, read_u32_array, sp_many, sp_name,
    sp_name_f, sp_u32, sp_u32_f,
};
use crate::section::{section_header, sp_section_header};
use crate::vecs::{sp_tm, sp_vec6f, sp_vec8f, TransformationMatrix, Vec3f, Vec6f, Vec8f};

verus! {

broadcast use crate::prim::lemma_vec_u8_deep_view, crate::prim::lemma_vec_u32_deep_view;

/// The known dynamic-object discriminators of the section-header id.
#[derive(Clone, Copy, Debug, PartialEq, Eq, Structural)]
pub enum Id {
    /// An object with adjustable runtime parameters, such as televisions.
    Dynamic,
    /// An object driving an attached animation clip.
    Animation,
    /// A door or plate the player can interact with more than once.
    RepeatableTouchplate,
    /// Breakable glass.
    Glass,
    /// A single-use interactive trigger.
    OneTimeTouchplate,
    /// A list of light-halo entries.
    Halo,
    /// Static world effects with no payload beyond the header.
    StaticEffect,
}

/// The discriminator table: 14, 15, 16, 20, 25, 31 and 36 map to the seven
/// shapes; any other value is a hard failure.
pub open spec fn sp_id(v: u32) -> Result<Id, ErrorKind> {
    if v == 14 {
        Ok(Id::Dynamic)
    } else if v == 15 {
        Ok(Id::Animation)
    } else if v == 16 {
        Ok(Id::RepeatableTouchplate)
    } else if v == 20 {
        Ok(Id::Glass)
    } else if v == 25 {
        Ok(Id::OneTimeTouchplate)
    } else if v == 31 {
        Ok(Id::Halo)
    } else if v == 36 {
        Ok(Id::StaticEffect)
    } else {
        Err(ErrorKind::UnknownDiscriminator)
    }
}

impl Id {
    /// Map a numeric discriminator to its shape; an unmapped value is a
    /// hard failure.
    pub fn try_from(v: u32) -> (r: Result<Id, DecodeError>)
        ensures
            match (r, sp_id(v)) {
                (Ok(a), Ok(b)) => a == b,
                (Err(e), Err(k)) => e.kind == k,
                _ => false,
            },
    {
        if v == 14 {
            Ok(Id::Dynamic)
        } else if v == 15 {
            Ok(Id::Animation)
        } else if v == 16 {
            Ok(Id::RepeatableTouchplate)
        } else if v == 20 {
            Ok(Id::Glass)
        } else if v == 25 {
            Ok(Id::OneTimeTouchplate)
        } else if v == 31 {
            Ok(Id::Halo)
        } else if v == 36 {
            Ok(Id::StaticEffect)
        } else {
            Err(DecodeError::new(ErrorKind::UnknownDiscriminator).context("unhandled id value"))
        }
    }
}

/// One "struct" block of the Dynamic parameter grammar: a name, nine
/// floats and two integers.
#[derive(Clone, Debug, PartialEq)]
pub struct KindDynamicParamStruct {
    pub name: String,
    pub unknown1: Vec<u32>,
    pub unknown2: Vec<u32>,
}

/// The mathematical shape of one Dynamic parameter block.
pub struct KindDynamicParamStructView {
    pub name: Seq<char>,
    pub unknown1: Seq<u32>,
    pub unknown2: Seq<u32>,
}

impl DeepView for KindDynamicParamStruct {
    type V = KindDynamicParamStructView;

    open spec fn deep_view(&self) -> KindDynamicParamStructView {
        KindDynamicParamStructView {
            name: self.name@,
            unknown1: self.unknown1.deep_view(),
            unknown2: self.unknown2.deep_view(),
        }
    }
}

/// A Dynamic parameter block: name, nine floats, two integers.
#[verifier::opaque]
pub open spec fn sp_kind_dynamic_param_struct(s: Seq<u8>, pos: int) -> Result<
    (KindDynamicParamStructView, int),
    ErrorKind,
> {
    match sp_name(s, pos) {
        Err(k) => Err(k),
        Ok((name, p1)) => match sp_many(s, p1, 9, sp_u32_f()) {
            Err(k) => Err(k),
            Ok((unknown1, p2)) => match sp_many(s, p2, 2, sp_u32_f()) {
                Err(k) => Err(k),
                Ok((unknown2, p3)) => Ok(
                    (KindDynamicParamStructView { name, unknown1, unknown2 }, p3),
                ),
            },
        },
    }
}

/// The element parser of one Dynamic parameter block.
pub open spec fn sp_kind_dynamic_param_struct_f() -> spec_fn(Seq<u8>, int) -> Result<
    (KindDynamicParamStructView, int),
    ErrorKind,
> {
    |s: Seq<u8>, pos: int| sp_kind_dynamic_param_struct(s, pos)
}

impl KindDynamicParamStruct {
    /// Read one Dynamic parameter block.
    pub fn read(s: &[u8], pos: usize) -> (r: Result<(Self, usize), DecodeError>)
        ensures
            decodes(r, sp_kind_dynamic_param_struct(s@, pos as int)),
    {
        proof {
            reveal(sp_kind_dynamic_param_struct);
        }
        let (name, p1) = match read_name(s, pos) {
            Ok(v) => v,
            Err(e) => {
                return Err(e.context("dynamic object kind struct name"));
            },
        };
        let (unknown1, p2) = match read_f32_bits_array(s, p1, 9) {
            Ok(v) => v,
            Err(e) => {
                return Err(e.context("dynamic object kind struct unknown1"));
            },
        };
        match read_u32_array(s, p2, 2) {
            Ok((unknown2, p3)) => Ok((KindDynamicParamStruct { name, unknown1, unknown2 }, p3)),
            Err(e) => Err(e.context("dynamic object kind struct unknown2")),
        }
    }
}

/// The parameter payload of a Dynamic object, with the shadow-count idiom:
/// a leading count greater than zero introduces that many "struct" blocks;
/// a leading count of exactly zero does not mean an empty list — a second,
/// independent count follows, then that many plain names, then four
/// trailing floats.
#[derive(Clone, Debug, PartialEq)]
pub enum KindDynamicParams {
    /// The leading count was greater than zero.
    Struct(Vec<KindDynamicParamStruct>),
    /// The leading count was exactly zero.
    Flat { names: Vec<String>, unknown: Vec<u32> },
}

/// The mathematical shape of a Dynamic parameter payload.
pub enum KindDynamicParamsView {
    Struct(Seq<KindDynamicParamStructView>),
    Flat { names: Seq<Seq<char>>, unknown: Seq<u32> },
}

impl DeepView for KindDynamicParams {
    type V = KindDynamicParamsView;

    open spec fn deep_view(&self) -> KindDynamicParamsView {
        match self {
            KindDynamicParams::Struct(v) => KindDynamicParamsView::Struct(v.deep_view()),
            KindDynamicParams::Flat { names, unknown } => KindDynamicParamsView::Flat {
                names: names.deep_view(),
                unknown: unknown.deep_view(),
            },
        }
    }
}

/// The Dynamic parameter payload, branching on the shadow count exactly as
/// the wire format does.
#[verifier::opaque]
pub open spec fn sp_kind_dynamic_params(s: Seq<u8>, pos: int) -> Result<
    (KindDynamicParamsView, int),
    ErrorKind,
> {
    match sp_u32(s, pos) {
        Err(k) => Err(k),
        Ok((count, p1)) => if count > 0 {
            match sp_many(s, p1, count as nat, sp_kind_dynamic_param_struct_f()) {
                Err(k) => Err(k),
                Ok((structs, p2)) => Ok((KindDynamicParamsView::Struct(structs), p2)),
            }
        } else {
            match sp_u32(s, p1) {
                Err(k) => Err(k),
                Ok((count2, p2)) => match sp_many(s, p2, count2 as nat, sp_name_f()) {
                    Err(k) => Err(k),
                    Ok((names, p3)) => match sp_many(s, p3, 4, sp_u32_f()) {
                        Err(k) => Err(k),
                        Ok((unknown, p4)) => Ok(
                            (KindDynamicParamsView::Flat { names, unknown }, p4),
                        ),
                    },
                },
            }
        },
    }
}

impl KindDynamicParams {
    /// Read the Dynamic parameter payload, preserving the shadow-count
    /// branching verbatim.
    #[verifier::rlimit(50)]
    #[verifier::loop_isolation(false)]
    pub fn read(s: &[u8], pos: usize) -> (r: Result<(Self, usize), DecodeError>)
        ensures
            decodes(r, sp_kind_dynamic_params(s@, pos as int)),
    {
        proof {
            reveal(sp_kind_dynamic_params);
        }
        let (count, p1) = match read_u32(s, pos) {
            Ok(v) => v,
            Err(e) => {
                return Err(e.context("dynamic object kind count"));
            },
        };
        if count > 0 {
            let mut structs: Vec<KindDynamicParamStruct> = Vec::new();
            let mut p = p1;
            let mut i: u32 = 0;
            assert(structs.deep_view() =~= Seq::<KindDynamicParamStructView>::empty());
            while i < count
                invariant
                    i <= count,
                    sp_many(s@, p1 as int, i as nat, sp_kind_dynamic_param_struct_f()) == Ok::<
                        (Seq<KindDynamicParamStructView>, int),
                        ErrorKind,
                    >((structs.deep_view(), p as int)),
                decreases count - i,
            {
                proof {
                    lemma_sp_many_snoc(
                        s@,
                        p1 as int,
                        i as nat,
                        sp_kind_dynamic_param_struct_f(),
                        structs.deep_view(),
                        p as int,
                    );
                }
                match KindDynamicParamStruct::read(s, p) {
                    Ok((v, p2x)) => {
                        let ghost old_dv = structs.deep_view();
                        structs.push(v);
                        assert(structs.deep_view() =~= old_dv.push(v.deep_view()));
                        p = p2x;
                        i = i + 1;
                    },
                    Err(e) => {
                        proof {
                            lemma_sp_many_err_mono(
                                s@,
                                p1 as int,
                                i as nat + 1,
                                count as nat,
                                sp_kind_dynamic_param_struct_f(),
                            );
                        }
                        return Err(e.context("dynamic object kind struct"));
                    },
                }
            }
            Ok((KindDynamicParams::Struct(structs), p))
        } else {
            let (count2, p2) = match read_u32(s, p1) {
                Ok(v) => v,
                Err(e) => {
                    return Err(e.context("dynamic object flat count"));
                },
            };
            let (names, p3) = match read_name_array(s, p2, count2) {
                Ok(v) => v,
                Err(e) => {
                    return Err(e.context("dynamic object kind flat name"));
                },
            };
            match read_f32_bits_array(s, p3, 4) {
                Ok((unknown, p4)) => Ok((KindDynamicParams::Flat { names, unknown }, p4)),
                Err(e) => Err(e.context("dynamic object kind flat unknown")),
            }
        }
    }
}

/// The common prefix block shared by the Dynamic, Animation and
/// RepeatableTouchplate grammars: a transform, a name, one flag integer,
/// four sound names and six classification strings plus a second name.
#[derive(Clone, Debug, PartialEq)]
pub struct DynamicObjectKindCommon {
    pub tm: TransformationMatrix,
    pub name: String,
    pub unknown1: u32,
    pub sounds: Vec<String>,
    pub collision_type_2d: String,
    pub collision_type_3d: String,
    pub destruction_action: String,
    pub destruction_category: String,
    pub penetration_type: String,
    pub name2: String,
    pub destruction_category2: String,
}

/// The mathematical shape of the common prefix block.
pub struct DynamicObjectKindCommonView {
    pub tm: TransformationMatrix,
    pub name: Seq<char>,
    pub unknown1: u32,
    pub sounds: Seq<Seq<char>>,
    pub collision_type_2d: Seq<char>,
    pub collision_type_3d: Seq<char>,
    pub destruction_action: Seq<char>,
    pub destruction_category: Seq<char>,
    pub penetration_type: Seq<char>,
    pub name2: Seq<char>,
    pub destruction_category2: Seq<char>,
}

impl DeepView for DynamicObjectKindCommon {
    type V = DynamicObjectKindCommonView;

    open spec fn deep_view(&self) -> DynamicObjectKindCommonView {
        DynamicObjectKindCommonView {
            tm: self.tm,
            name: self.name@,
            unknown1: self.unknown1,
            sounds: self.sounds.deep_view(),
            collision_type_2d: self.collision_type_2d@,
            collision_type_3d: self.collision_type_3d@,
            destruction_action: self.destruction_action@,
            destruction_category: self.destruction_category@,
            penetration_type: self.penetration_type@,
            name2: self.name2@,
            destruction_category2: self.destruction_category2@,
        }
    }
}

/// The common prefix block, in declared order.
#[verifier::opaque]
pub open spec fn sp_common(s: Seq<u8>, pos: int) -> Result<
    (DynamicObjectKindCommonView, int),
    ErrorKind,
> {
    match sp_tm(s, pos) {
        Err(k) => Err(k),
        Ok((tm, p1)) => match sp_name(s, p1) {
            Err(k) => Err(k),
            Ok((name, p2)) => match sp_u32(s, p2) {
                Err(k) => Err(k),
                Ok((unknown1, p3)) => match sp_many(s, p3, 4, sp_name_f()) {
                    Err(k) => Err(k),
                    Ok((sounds, p4)) => match sp_name(s, p4) {
                        Err(k) => Err(k),
                        Ok((c2d, p5)) => match sp_name(s, p5) {
                            Err(k) => Err(k),
                            Ok((c3d, p6)) => match sp_name(s, p6) {
                                Err(k) => Err(k),
                                Ok((da, p7)) => match sp_name(s, p7) {
                                    Err(k) => Err(k),
                                    Ok((dc, p8)) => match sp_name(s, p8) {
                                        Err(k) => Err(k),
                                        Ok((pt, p9)) => match sp_name(s, p9) {
                                            Err(k) => Err(k),
                                            Ok((name2, p10)) => match sp_name(s, p10) {
                                                Err(k) => Err(k),
                                                Ok((dc2, p11)) => Ok(
                                                    (
                                                        DynamicObjectKindCommonView {
                                                            tm,
                                                            name,
                                                            unknown1,
                                                            sounds,
                                                            collision_type_2d: c2d,
                                                            collision_type_3d: c3d,
                                                            destruction_action: da,
                                                            destruction_category: dc,
                                                            penetration_type: pt,
                                                            name2,
                                                            destruction_category2: dc2,
                                                        },
                                                        p11,
                                                    ),
                                                ),
                                            },
                                        },
                                    },
                                },
                            },
                        },
                    },
                },
            },
        },
    }
}

impl DynamicObjectKindCommon {
    /// Read the common prefix block.
    #[verifier::rlimit(50)]
    pub fn read(s: &[u8], pos: usize) -> (r: Result<(Self, usize), DecodeError>)
        ensures
            decodes(r, sp_common(s@, pos as int)),
    {
        proof {
            reveal(sp_common);
        }
        let (tm, p1) = match TransformationMatrix::read(s, pos) {
            Ok(v) => v,
            Err(e) => {
                return Err(e.context("transformation matrix"));
            },
        };
        let (name, p2) = match read_name(s, p1) {
            Ok(v) => v,
            Err(e) => {
                return Err(e.context("name"));
            },
        };
        let (unknown1, p3) = match read_u32(s, p2) {
            Ok(v) => v,
            Err(e) => {
                return Err(e.context("unknown1"));
            },
        };
        let (sounds, p4) = match read_name_array(s, p3, 4) {
            Ok(v) => v,
            Err(e) => {
                return Err(e.context("sound"));
            },
        };
        let (collision_type_2d, p5) = match read_name(s, p4) {
            Ok(v) => v,
            Err(e) => {
                return Err(e.context("2D collision type"));
            },
        };
        let (collision_type_3d, p6) = match read_name(s, p5) {
            Ok(v) => v,
            Err(e) => {
                return Err(e.context("3D collision type"));
            },
        };
        let (destruction_action, p7) = match read_name(s, p6) {
            Ok(v) => v,
            Err(e) => {
                return Err(e.context("destruction action"));
            },
        };
        let (destruction_category, p8) = match read_name(s, p7) {
            Ok(v) => v,
            Err(e) => {
                return Err(e.context("destruction category"));
            },
        };
        let (penetration_type, p9) = match read_name(s, p8) {
            Ok(v) => v,
            Err(e) => {
                return Err(e.context("penetration type"));
            },
        };
        let (name2, p10) = match read_name(s, p9) {
            Ok(v) => v,
            Err(e) => {
                return Err(e.context("name2"));
            },
        };
        match read_name(s, p10) {
            Ok((destruction_category2, p11)) => Ok(
                (
                    DynamicObjectKindCommon {
                        tm,
                        name,
                        unknown1,
                        sounds,
                        collision_type_2d,
                        collision_type_3d,
                        destruction_action,
                        destruction_category,
                        penetration_type,
                        name2,
                        destruction_category2,
                    },
                    p11,
                ),
            ),
            Err(e) => Err(e.context("destruction category 2")),
        }
    }
}

/// The payload of a dynamic object, one variant per discriminator.
#[derive(Clone, Debug, PartialEq)]
pub enum DynamicObjectKind {
    /// An object with adjustable runtime parameters.
    Dynamic { common: DynamicObjectKindCommon, params: KindDynamicParams },
    /// An object driving an attached animation clip.
    Animation {
        common: DynamicObjectKindCommon,
        unknown2: u32,
        names: Vec<String>,
        unknown3: Vec<u32>,
        unknown4: u32,
        name3: String,
        name4: String,
        animation_type: String,
        direction: Vec3f,
        distance: u32,
        velocity: u32,
    },
    /// A door or plate the player can interact with more than once.
    RepeatableTouchplate {
        common: DynamicObjectKindCommon,
        unknown1: u32,
        attachments: Vec<String>,
        unknown2: Vec<u32>,
        names: Vec<String>,
        name2: String,
        name3: String,
        animation_type: String,
        direction: Vec3f,
        distance: u32,
        velocity: u32,
    },
    /// Breakable glass: a name only.
    Glass { name: String },
    /// A single-use interactive trigger.
    OneTimeTouchplate {
        collision_type_2d: String,
        collision_type_3d: String,
        coordinates: Vec6f,
        attachments: Vec<String>,
    },
    /// A list of (name, 8-float vector) light-halo entries.
    Halo { halos: Vec<(String, Vec8f)> },
    /// No payload beyond the header.
    StaticEffect,
}

/// The mathematical shape of a dynamic-object payload.
pub enum DynamicObjectKindView {
    Dynamic { common: DynamicObjectKindCommonView, params: KindDynamicParamsView },
    Animation {
        common: DynamicObjectKindCommonView,
        unknown2: u32,
        names: Seq<Seq<char>>,
        unknown3: Seq<u32>,
        unknown4: u32,
        name3: Seq<char>,
        name4: Seq<char>,
        animation_type: Seq<char>,
        direction: Vec3f,
        distance: u32,
        velocity: u32,
    },
    RepeatableTouchplate {
        common: DynamicObjectKindCommonView,
        unknown1: u32,
        attachments: Seq<Seq<char>>,
        unknown2: Seq<u32>,
        names: Seq<Seq<char>>,
        name2: Seq<char>,
        name3: Seq<char>,
        animation_type: Seq<char>,
        direction: Vec3f,
        distance: u32,
        velocity: u32,
    },
    Glass { name: Seq<char> },
    OneTimeTouchplate {
        collision_type_2d: Seq<char>,
        collision_type_3d: Seq<char>,
        coordinates: Vec6f,
        attachments: Seq<Seq<char>>,
    },
    Halo { halos: Seq<(Seq<char>, Vec8f)> },
    StaticEffect,
}

impl DeepView for DynamicObjectKind {
    type V = DynamicObjectKindView;

    open spec fn deep_view(&self) -> DynamicObjectKindView {
        match self {
            DynamicObjectKind::Dynamic { common, params } => DynamicObjectKindView::Dynamic {
                common: common.deep_view(),
                params: params.deep_view(),
            },
            DynamicObjectKind::Animation {
                common,
                unknown2,
                names,
                unknown3,
                unknown4,
                name3,
                name4,
                animation_type,
                direction,
                distance,
                velocity,
            } => DynamicObjectKindView::Animation {
                common: common.deep_view(),
                unknown2: *unknown2,
                names: names.deep_view(),
                unknown3: unknown3.deep_view(),
                unknown4: *unknown4,
                name3: name3@,
                name4: name4@,
                animation_type: animation_type@,
                direction: *direction,
                distance: *distance,
                velocity: *velocity,
            },
            DynamicObjectKind::RepeatableTouchplate {
                common,
                unknown1,
                attachments,
                unknown2,
                names,
                name2,
                name3,
                animation_type,
                direction,
                distance,
                velocity,
            } => DynamicObjectKindView::RepeatableTouchplate {
                common: common.deep_view(),
                unknown1: *unknown1,
                attachments: attachments.deep_view(),
                unknown2: unknown2.deep_view(),
                names: names.deep_view(),
                name2: name2@,
                name3: name3@,
                animation_type: animation_type@,
                direction: *direction,
                distance: *distance,
                velocity: *velocity,
            },
            DynamicObjectKind::Glass { name } => DynamicObjectKindView::Glass { name: name@ },
            DynamicObjectKind::OneTimeTouchplate {
                collision_type_2d,
                collision_type_3d,
                coordinates,
                attachments,
            } => DynamicObjectKindView::OneTimeTouchplate {
                collision_type_2d: collision_type_2d@,
                collision_type_3d: collision_type_3d@,
                coordinates: *coordinates,
                attachments: attachments.deep_view(),
            },
            DynamicObjectKind::Halo { halos } => DynamicObjectKindView::Halo {
                halos: halos.deep_view(),
            },
            DynamicObjectKind::StaticEffect => DynamicObjectKindView::StaticEffect,
        }
    }
}

/// The Dynamic payload: the common block, then the parameter grammar.
#[verifier::opaque]
pub open spec fn sp_kind_dynamic(s: Seq<u8>, pos: int) -> Result<
    (DynamicObjectKindView, int),
    ErrorKind,
> {
    match sp_common(s, pos) {
        Err(k) => Err(k),
        Ok((common, p1)) => match sp_kind_dynamic_params(s, p1) {
            Err(k) => Err(k),
            Ok((params, p2)) => Ok((DynamicObjectKindView::Dynamic { common, params }, p2)),
        },
    }
}

/// The Animation payload.
#[verifier::opaque]
pub open spec fn sp_kind_animation(s: Seq<u8>, pos: int) -> Result<
    (DynamicObjectKindView, int),
    ErrorKind,
> {
    match sp_common(s, pos) {
        Err(k) => Err(k),
        Ok((common, p1)) => match sp_u32(s, p1) {
            Err(k) => Err(k),
            Ok((unknown2, p2)) => match sp_u32(s, p2) {
                Err(k) => Err(k),
                Ok((n, p3)) => match sp_many(s, p3, n as nat, sp_name_f()) {
                    Err(k) => Err(k),
                    Ok((names, p4)) => match sp_many(s, p4, 3, sp_u32_f()) {
                        Err(k) => Err(k),
                        Ok((unknown3, p5)) => match sp_u32(s, p5) {
                            Err(k) => Err(k),
                            Ok((unknown4, p6)) => match sp_name(s, p6) {
                                Err(k) => Err(k),
                                Ok((name3, p7)) => match sp_name(s, p7) {
                                    Err(k) => Err(k),
                                    Ok((name4, p8)) => match sp_name(s, p8) {
                                        Err(k) => Err(k),
                                        Ok((animation_type, p9)) => match crate::vecs::sp_vec3f(
                                            s,
                                            p9,
                                        ) {
                                            Err(k) => Err(k),
                                            Ok((direction, p10)) => match sp_u32(s, p10) {
                                                Err(k) => Err(k),
                                                Ok((distance, p11)) => match sp_u32(s, p11) {
                                                    Err(k) => Err(k),
                                                    Ok((velocity, p12)) => Ok(
                                                        (
                                                            DynamicObjectKindView::Animation {
                                                                common,
                                                                unknown2,
                                                                names,
                                                                unknown3,
                                                                unknown4,
                                                                name3,
                                                                name4,
                                                                animation_type,
                                                                direction,
                                                                distance,
                                                                velocity,
                                                            },
                                                            p12,
                                                        ),
                                                    ),
                                                },
                                            },
                                        },
                                    },
                                },
                            },
                        },
                    },
                },
            },
        },
    }
}

/// The RepeatableTouchplate payload.
#[verifier::opaque]
pub open spec fn sp_kind_repeatable_touchplate(s: Seq<u8>, pos: int) -> Result<
    (DynamicObjectKindView, int),
    ErrorKind,
> {
    match sp_common(s, pos) {
        Err(k) => Err(k),
        Ok((common, p1)) => match sp_u32(s, p1) {
            Err(k) => Err(k),
            Ok((unknown1, p2)) => match sp_u32(s, p2) {
                Err(k) => Err(k),
                Ok((na, p3)) => match sp_many(s, p3, na as nat, sp_name_f()) {
                    Err(k) => Err(k),
                    Ok((attachments, p4)) => match sp_many(s, p4, 3, sp_u32_f()) {
                        Err(k) => Err(k),
                        Ok((unknown2, p5)) => match sp_u32(s, p5) {
                            Err(k) => Err(k),
                            Ok((nn, p6)) => match sp_many(s, p6, nn as nat, sp_name_f()) {
                                Err(k) => Err(k),
                                Ok((names, p7)) => match sp_name(s, p7) {
                                    Err(k) => Err(k),
                                    Ok((name2, p8)) => match sp_name(s, p8) {
                                        Err(k) => Err(k),
                                        Ok((name3, p9)) => match sp_name(s, p9) {
                                            Err(k) => Err(k),
                                            Ok((animation_type, p10)) => match crate::vecs::sp_vec3f(
                                                s,
                                                p10,
                                            ) {
                                                Err(k) => Err(k),
                                                Ok((direction, p11)) => match sp_u32(s, p11) {
                                                    Err(k) => Err(k),
                                                    Ok((distance, p12)) => match sp_u32(s, p12) {
                                                        Err(k) => Err(k),
                                                        Ok((velocity, p13)) => Ok(
                                                            (
                                                                DynamicObjectKindView::RepeatableTouchplate {
                                                                    common,
                                                                    unknown1,
                                                                    attachments,
                                                                    unknown2,
                                                                    names,
                                                                    name2,
                                                                    name3,
                                                                    animation_type,
                                                                    direction,
                                                                    distance,
                                                                    velocity,
                                                                },
                                                                p13,
                                                            ),
                                                        ),
                                                    },
                                                },
                                            },
                                        },
                                    },
                                },
                            },
                        },
                    },
                },
            },
        },
    }
}

/// The Glass payload: a name only.
pub open spec fn sp_kind_glass(s: Seq<u8>, pos: int) -> Result<
    (DynamicObjectKindView, int),
    ErrorKind,
> {
    match sp_name(s, pos) {
        Err(k) => Err(k),
        Ok((name, p1)) => Ok((DynamicObjectKindView::Glass { name }, p1)),
    }
}

/// The OneTimeTouchplate payload.
#[verifier::opaque]
pub open spec fn sp_kind_one_time_touchplate(s: Seq<u8>, pos: int) -> Result<
    (DynamicObjectKindView, int),
    ErrorKind,
> {
    match sp_name(s, pos) {
        Err(k) => Err(k),
        Ok((c2d, p1)) => match sp_name(s, p1) {
            Err(k) => Err(k),
            Ok((c3d, p2)) => match sp_vec6f(s, p2) {
                Err(k) => Err(k),
                Ok((coordinates, p3)) => match sp_u32(s, p3) {
                    Err(k) => Err(k),
                    Ok((n, p4)) => match sp_many(s, p4, n as nat, sp_name_f()) {
                        Err(k) => Err(k),
                        Ok((attachments, p5)) => Ok(
                            (
                                DynamicObjectKindView::OneTimeTouchplate {
                                    collision_type_2d: c2d,
                                    collision_type_3d: c3d,
                                    coordinates,
                                    attachments,
                                },
                                p5,
                            ),
                        ),
                    },
                },
            },
        },
    }
}

/// One halo entry: a name and an 8-float vector.
pub open spec fn sp_halo_entry(s: Seq<u8>, pos: int) -> Result<
    ((Seq<char>, Vec8f), int),
    ErrorKind,
> {
    match sp_name(s, pos) {
        Err(k) => Err(k),
        Ok((name, p1)) => match sp_vec8f(s, p1) {
            Err(k) => Err(k),
            Ok((vec, p2)) => Ok(((name, vec), p2)),
        },
    }
}

/// The element parser of one halo entry.
pub open spec fn sp_halo_entry_f() -> spec_fn(Seq<u8>, int) -> Result<
    ((Seq<char>, Vec8f), int),
    ErrorKind,
> {
    |s: Seq<u8>, pos: int| sp_halo_entry(s, pos)
}

/// The Halo payload: a count, then that many halo entries.
#[verifier::opaque]
pub open spec fn sp_kind_halo(s: Seq<u8>, pos: int) -> Result<
    (DynamicObjectKindView, int),
    ErrorKind,
> {
    match sp_u32(s, pos) {
        Err(k) => Err(k),
        Ok((n, p1)) => match sp_many(s, p1, n as nat, sp_halo_entry_f()) {
            Err(k) => Err(k),
            Ok((halos, p2)) => Ok((DynamicObjectKindView::Halo { halos }, p2)),
        },
    }
}

/// Whenever the Halo payload decodes, its list holds exactly as many
/// entries as the leading count field: one instance of the list-length law
/// that [`crate::prim::lemma_sp_many_len`] states for every repeated list.
pub proof fn lemma_halo_count(s: Seq<u8>, pos: int)
    ensures
        sp_kind_halo(s, pos) matches Ok(k) ==> (sp_u32(s, pos) matches Ok(c)
            && k.0 matches DynamicObjectKindView::Halo { halos } && halos.len() == c.0),
{
    reveal(sp_kind_halo);
    if sp_kind_halo(s, pos) is Ok {
        match sp_u32(s, pos) {
            Err(_) => {
                assert(false);
            },
            Ok((n, p1)) => {
                crate::prim::lemma_sp_many_len(s, p1, n as nat, sp_halo_entry_f());
            },
        }
    }
}

/// The payload grammar selected by a discriminator.
pub open spec fn sp_kind(s: Seq<u8>, pos: int, id: Id) -> Result<
    (DynamicObjectKindView, int),
    ErrorKind,
> {
    match id {
        Id::Dynamic => sp_kind_dynamic(s, pos),
        Id::Animation => sp_kind_animation(s, pos),
        Id::RepeatableTouchplate => sp_kind_repeatable_touchplate(s, pos),
        Id::Glass => sp_kind_glass(s, pos),
        Id::OneTimeTouchplate => sp_kind_one_time_touchplate(s, pos),
        Id::Halo => sp_kind_halo(s, pos),
        Id::StaticEffect => Ok((DynamicObjectKindView::StaticEffect, pos)),
    }
}

impl DynamicObjectKind {
    /// Read the payload selected by the given discriminator.
    pub fn read(id: Id, s: &[u8], pos: usize) -> (r: Result<(Self, usize), DecodeError>)
        ensures
            decodes(r, sp_kind(s@, pos as int, id)),
    {
        match id {
            Id::Dynamic => Self::dynamic(s, pos),
            Id::Animation => Self::animation(s, pos),
            Id::RepeatableTouchplate => Self::repeatable_touchplate(s, pos),
            Id::Glass => Self::glass(s, pos),
            Id::OneTimeTouchplate => Self::one_time_touchplate(s, pos),
            Id::Halo => Self::halo(s, pos),
            Id::StaticEffect => Self::static_effect(s, pos),
        }
    }

    /// An object with adjustable runtime parameters.
    fn dynamic(s: &[u8], pos: usize) -> (r: Result<(Self, usize), DecodeError>)
        ensures
            decodes(r, sp_kind_dynamic(s@, pos as int)),
    {
        proof {
            reveal(sp_kind_dynamic);
        }
        let (common, p1) = match DynamicObjectKindCommon::read(s, pos) {
            Ok(v) => v,
            Err(e) => {
                return Err(e);
            },
        };
        match KindDynamicParams::read(s, p1) {
            Ok((params, p2)) => Ok((DynamicObjectKind::Dynamic { common, params }, p2)),
            Err(e) => Err(e),
        }
    }

    /// An object with an attached animation.
    #[verifier::rlimit(50)]
    fn animation(s: &[u8], pos: usize) -> (r: Result<(Self, usize), DecodeError>)
        ensures
            decodes(r, sp_kind_animation(s@, pos as int)),
    {
        proof {
            reveal(sp_kind_animation);
        }
        let (common, p1) = match DynamicObjectKindCommon::read(s, pos) {
            Ok(v) => v,
            Err(e) => {
                return Err(e);
            },
        };
        let (unknown2, p2) = match read_u32(s, p1) {
            Ok(v) => v,
            Err(e) => {
                return Err(e.context("unknown2"));
            },
        };
        let (n, p3) = match read_u32(s, p2) {
            Ok(v) => v,
            Err(e) => {
                return Err(e.context("name count"));
            },
        };
        let (names, p4) = match read_name_array(s, p3, n) {
            Ok(v) => v,
            Err(e) => {
                return Err(e.context("animation name"));
            },
        };
        let (unknown3, p5) = match read_f32_bits_array(s, p4, 3) {
            Ok(v) => v,
            Err(e) => {
                return Err(e.context("animation unknown3"));
            },
        };
        let (unknown4, p6) = match read_u32(s, p5) {
            Ok(v) => v,
            Err(e) => {
                return Err(e.context("animation unknown4"));
            },
        };
        let (name3, p7) = match read_name(s, p6) {
            Ok(v) => v,
            Err(e) => {
                return Err(e.context("animation name3"));
            },
        };
        let (name4, p8) = match read_name(s, p7) {
            Ok(v) => v,
            Err(e) => {
                return Err(e.context("animation name4"));
            },
        };
        let (animation_type, p9) = match read_name(s, p8) {
            Ok(v) => v,
            Err(e) => {
                return Err(e.context("animation type"));
            },
        };
        let (direction, p10) = match Vec3f::read(s, p9) {
            Ok(v) => v,
            Err(e) => {
                return Err(e.context("animation direction"));
            },
        };
        let (distance, p11) = match read_f32_bits(s, p10) {
            Ok(v) => v,
            Err(e) => {
                return Err(e.context("animation distance"));
            },
        };
        match read_f32_bits(s, p11) {
            Ok((velocity, p12)) => Ok(
                (
                    DynamicObjectKind::Animation {
                        common,
                        unknown2,
                        names,
                        unknown3,
                        unknown4,
                        name3,
                        name4,
                        animation_type,
                        direction,
                        distance,
                        velocity,
                    },
                    p12,
                ),
            ),
            Err(e) => Err(e.context("animation velocity")),
        }
    }

    /// A door or automatic door the player can use repeatedly.
    #[verifier::rlimit(50)]
    fn repeatable_touchplate(s: &[u8], pos: usize) -> (r: Result<(Self, usize), DecodeError>)
        ensures
            decodes(r, sp_kind_repeatable_touchplate(s@, pos as int)),
    {
        proof {
            reveal(sp_kind_repeatable_touchplate);
        }
        let (common, p1) = match DynamicObjectKindCommon::read(s, pos) {
            Ok(v) => v,
            Err(e) => {
                return Err(e);
            },
        };
        let (unknown1, p2) = match read_u32(s, p1) {
            Ok(v) => v,
            Err(e) => {
                return Err(e.context("ADT unknown1"));
            },
        };
        let (na, p3) = match read_u32(s, p2) {
            Ok(v) => v,
            Err(e) => {
                return Err(e.context("ADT attachment count"));
            },
        };
        let (attachments, p4) = match read_name_array(s, p3, na) {
            Ok(v) => v,
            Err(e) => {
                return Err(e.context("ADT attachment"));
            },
        };
        let (unknown2, p5) = match read_f32_bits_array(s, p4, 3) {
            Ok(v) => v,
            Err(e) => {
                return Err(e.context("ADT unknown2"));
            },
        };
        let (nn, p6) = match read_u32(s, p5) {
            Ok(v) => v,
            Err(e) => {
                return Err(e.context("name count"));
            },
        };
        let (names, p7) = match read_name_array(s, p6, nn) {
            Ok(v) => v,
            Err(e) => {
                return Err(e.context("ADT name"));
            },
        };
        let (name2, p8) = match read_name(s, p7) {
            Ok(v) => v,
            Err(e) => {
                return Err(e.context("ADT name2"));
            },
        };
        let (name3, p9) = match read_name(s, p8) {
            Ok(v) => v,
            Err(e) => {
                return Err(e.context("ADT name3"));
            },
        };
        let (animation_type, p10) = match read_name(s, p9) {
            Ok(v) => v,
            Err(e) => {
                return Err(e.context("animation type"));
            },
        };
        let (direction, p11) = match Vec3f::read(s, p10) {
            Ok(v) => v,
            Err(e) => {
                return Err(e.context("animation direction"));
            },
        };
        let (distance, p12) = match read_f32_bits(s, p11) {
            Ok(v) => v,
            Err(e) => {
                return Err(e.context("animation distance"));
            },
        };
        match read_f32_bits(s, p12) {
            Ok((velocity, p13)) => Ok(
                (
                    DynamicObjectKind::RepeatableTouchplate {
                        common,
                        unknown1,
                        attachments,
                        unknown2,
                        names,
                        name2,
                        name3,
                        animation_type,
                        direction,
                        distance,
                        velocity,
                    },
                    p13,
                ),
            ),
            Err(e) => Err(e.context("animation velocity")),
        }
    }

    /// Breakable glass.
    fn glass(s: &[u8], pos: usize) -> (r: Result<(Self, usize), DecodeError>)
        ensures
            decodes(r, sp_kind_glass(s@, pos as int)),
    {
        match read_name(s, pos) {
            Ok((name, p1)) => Ok((DynamicObjectKind::Glass { name }, p1)),
            Err(e) => Err(e),
        }
    }

    /// A one-time interaction, such as doors that open once.
    fn one_time_touchplate(s: &[u8], pos: usize) -> (r: Result<(Self, usize), DecodeError>)
        ensures
            decodes(r, sp_kind_one_time_touchplate(s@, pos as int)),
    {
        proof {
            reveal(sp_kind_one_time_touchplate);
        }
        let (collision_type_2d, p1) = match read_name(s, pos) {
            Ok(v) => v,
            Err(e) => {
                return Err(e.context("one-time touchplate 2D collision type"));
            },
        };
        let (collision_type_3d, p2) = match read_name(s, p1) {
            Ok(v) => v,
            Err(e) => {
                return Err(e.context("one-time touchplate 3D collision type"));
            },
        };
        let (coordinates, p3) = match Vec6f::read(s, p2) {
            Ok(v) => v,
            Err(e) => {
                return Err(e.context("one-time touchplate coordinates"));
            },
        };
        let (n, p4) = match read_u32(s, p3) {
            Ok(v) => v,
            Err(e) => {
                return Err(e.context("one-time touchplate attachment count"));
            },
        };
        match read_name_array(s, p4, n) {
            Ok((attachments, p5)) => Ok(
                (
                    DynamicObjectKind::OneTimeTouchplate {
                        collision_type_2d,
                        collision_type_3d,
                        coordinates,
                        attachments,
                    },
                    p5,
                ),
            ),
            Err(e) => Err(e.context("one-time touchplate attachment name")),
        }
    }

    /// A list of light halos.
    #[verifier::rlimit(50)]
    #[verifier::loop_isolation(false)]
    fn halo(s: &[u8], pos: usize) -> (r: Result<(Self, usize), DecodeError>)
        ensures
            decodes(r, sp_kind_halo(s@, pos as int)),
    {
        proof {
            reveal(sp_kind_halo);
        }
        let (n, p1) = match read_u32(s, pos) {
            Ok(v) => v,
            Err(e) => {
                return Err(e.context("halo count"));
            },
        };
        let mut halos: Vec<(String, Vec8f)> = Vec::new();
        let mut p = p1;
        let mut i: u32 = 0;
        assert(halos.deep_view() =~= Seq::<(Seq<char>, Vec8f)>::empty());
        while i < n
            invariant
                i <= n,
                sp_many(s@, p1 as int, i as nat, sp_halo_entry_f()) == Ok::<
                    (Seq<(Seq<char>, Vec8f)>, int),
                    ErrorKind,
                >((halos.deep_view(), p as int)),
            decreases n - i,
        {
            proof {
                lemma_sp_many_snoc(
                    s@,
                    p1 as int,
                    i as nat,
                    sp_halo_entry_f(),
                    halos.deep_view(),
                    p as int,
                );
            }
            let (name, px) = match read_name(s, p) {
                Ok(v) => v,
                Err(e) => {
                    proof {
                        lemma_sp_many_err_mono(
                            s@,
                            p1 as int,
                            i as nat + 1,
                            n as nat,
                            sp_halo_entry_f(),
                        );
                    }
                    return Err(e.context("halo name"));
                },
            };
            match Vec8f::read(s, px) {
                Ok((vec, p2x)) => {
                    let ghost old_dv = halos.deep_view();
                    halos.push((name, vec));
                    assert(halos.deep_view() =~= old_dv.push((name@, vec)));
                    p = p2x;
                    i = i + 1;
                },
                Err(e) => {
                    proof {
                        lemma_sp_many_err_mono(
                            s@,
                            p1 as int,
                            i as nat + 1,
                            n as nat,
                            sp_halo_entry_f(),
                        );
                    }
                    return Err(e.context("halo vec"));
                },
            }
        }
        Ok((DynamicObjectKind::Halo { halos }, p))
    }

    /// Static world effects: nothing to read.
    fn static_effect(s: &[u8], pos: usize) -> (r: Result<(Self, usize), DecodeError>)
        ensures
            decodes(r, Ok::<(DynamicObjectKindView, int), ErrorKind>(
                (DynamicObjectKindView::StaticEffect, pos as int),
            )),
    {
        let _ = s;
        Ok((DynamicObjectKind::StaticEffect, pos))
    }
}

/// One dynamic object: its section header, a name, a transform, then the
/// payload selected by the section-header id.
#[derive(Clone, Debug, PartialEq)]
pub struct DynamicObject {
    pub section_id: u32,
    pub section_name: String,
    pub name: String,
    pub tm: TransformationMatrix,
    pub kind: DynamicObjectKind,
}

/// The mathematical shape of one dynamic object.
pub struct DynamicObjectView {
    pub section_id: u32,
    pub section_name: Seq<char>,
    pub name: Seq<char>,
    pub tm: TransformationMatrix,
    pub kind: DynamicObjectKindView,
}

impl DeepView for DynamicObject {
    type V = DynamicObjectView;

    open spec fn deep_view(&self) -> DynamicObjectView {
        DynamicObjectView {
            section_id: self.section_id,
            section_name: self.section_name@,
            name: self.name@,
            tm: self.tm,
            kind: self.kind.deep_view(),
        }
    }
}

/// A dynamic-object record: header, name, transform, then the dispatch on
/// the discriminator.
#[verifier::opaque]
pub open spec fn sp_dynamic_object(s: Seq<u8>, pos: int) -> Result<
    (DynamicObjectView, int),
    ErrorKind,
> {
    match sp_section_header(s, pos) {
        Err(k) => Err(k),
        Ok(((section_id, section_name), p1)) => match sp_name(s, p1) {
            Err(k) => Err(k),
            Ok((name, p2)) => match sp_tm(s, p2) {
                Err(k) => Err(k),
                Ok((tm, p3)) => match sp_id(section_id) {
                    Err(k) => Err(k),
                    Ok(id) => match sp_kind(s, p3, id) {
                        Err(k) => Err(k),
                        Ok((kind, p4)) => Ok(
                            (DynamicObjectView { section_id, section_name, name, tm, kind }, p4),
                        ),
                    },
                },
            },
        },
    }
}

/// The element parser of one dynamic object.
pub open spec fn sp_dynamic_object_f() -> spec_fn(Seq<u8>, int) -> Result<
    (DynamicObjectView, int),
    ErrorKind,
> {
    |s: Seq<u8>, pos: int| sp_dynamic_object(s, pos)
}

impl DynamicObject {
    /// Read one dynamic object.
    pub fn read(s: &[u8], pos: usize) -> (r: Result<(Self, usize), DecodeError>)
        ensures
            decodes(r, sp_dynamic_object(s@, pos as int)),
    {
        proof {
            reveal(sp_dynamic_object);
        }
        let ((section_id, section_name), p1) = match section_header(s, pos) {
            Ok(v) => v,
            Err(e) => {
                return Err(e.context("dynamic object section header"));
            },
        };
        let (name, p2) = match read_name(s, p1) {
            Ok(v) => v,
            Err(e) => {
                return Err(e.context("name"));
            },
        };
        let (tm, p3) = match TransformationMatrix::read(s, p2) {
            Ok(v) => v,
            Err(e) => {
                return Err(e.context("transformation matrix"));
            },
        };
        let kind_id = match Id::try_from(section_id) {
            Ok(v) => v,
            Err(e) => {
                return Err(e);
            },
        };
        match DynamicObjectKind::read(kind_id, s, p3) {
            Ok((kind, p4)) => Ok(
                (DynamicObject { section_id, section_name, name, tm, kind }, p4),
            ),
            Err(e) => Err(e),
        }
    }
}

/// The DynamicObjects section.
#[derive(Clone, Debug, PartialEq)]
pub struct DynamicObjects {
    pub id: u32,
    pub name: String,
    pub dynamic_objects: Vec<DynamicObject>,
}

/// The mathematical shape of the decoded dynamic-object section.
pub struct DynamicObjectsView {
    pub id: u32,
    pub name: Seq<char>,
    pub dynamic_objects: Seq<DynamicObjectView>,
}

impl DeepView for DynamicObjects {
    type V = DynamicObjectsView;

    open spec fn deep_view(&self) -> DynamicObjectsView {
        DynamicObjectsView {
            id: self.id,
            name: self.name@,
            dynamic_objects: self.dynamic_objects.deep_view(),
        }
    }
}

/// The dynamic-object section: header, count, then that many objects.
#[verifier::opaque]
pub open spec fn sp_dynamic_objects(s: Seq<u8>, pos: int) -> Result<
    (DynamicObjectsView, int),
    ErrorKind,
> {
    match sp_section_header(s, pos) {
        Err(k) => Err(k),
        Ok(((id, name), p1)) => match sp_u32(s, p1) {
            Err(k) => Err(k),
            Ok((n, p2)) => match sp_many(s, p2, n as nat, sp_dynamic_object_f()) {
                Err(k) => Err(k),
                Ok((dynamic_objects, p3)) => Ok(
                    (DynamicObjectsView { id, name, dynamic_objects }, p3),
                ),
            },
        },
    }
}

impl DynamicObjects {
    /// Read the dynamic-object section.
    #[verifier::rlimit(50)]
    #[verifier::loop_isolation(false)]
    pub fn read(s: &[u8], pos: usize) -> (r: Result<(Self, usize), DecodeError>)
        ensures
            decodes(r, sp_dynamic_objects(s@, pos as int)),
    {
        proof {
            reveal(sp_dynamic_objects);
        }
        let ((id, name), p1) = match section_header(s, pos) {
            Ok(v) => v,
            Err(e) => {
                return Err(e.context("dynamic objects section header"));
            },
        };
        let (n, p2) = match read_u32(s, p1) {
            Ok(v) => v,
            Err(e) => {
                return Err(e.context("dynamic object count"));
            },
        };
        let mut dynamic_objects: Vec<DynamicObject> = Vec::new();
        let mut p = p2;
        let mut i: u32 = 0;
        assert(dynamic_objects.deep_view() =~= Seq::<DynamicObjectView>::empty());
        while i < n
            invariant
                i <= n,
                sp_many(s@, p2 as int, i as nat, sp_dynamic_object_f()) == Ok::<
                    (Seq<DynamicObjectView>, int),
                    ErrorKind,
                >((dynamic_objects.deep_view(), p as int)),
            decreases n - i,
        {
            proof {
                lemma_sp_many_snoc(
                    s@,
                    p2 as int,
                    i as nat,
                    sp_dynamic_object_f(),
                    dynamic_objects.deep_view(),
                    p as int,
                );
            }
            match DynamicObject::read(s, p) {
                Ok((v, p2x)) => {
                    let ghost old_dv = dynamic_objects.deep_view();
                    dynamic_objects.push(v);
                    assert(dynamic_objects.deep_view() =~= old_dv.push(v.deep_view()));
                    p = p2x;
                    i = i + 1;
                },
                Err(e) => {
                    proof {
                        lemma_sp_many_err_mono(
                            s@,
                            p2 as int,
                            i as nat + 1,
                            n as nat,
                            sp_dynamic_object_f(),
                        );
                    }
                    return Err(e.context("dynamic object"));
                },
            }
        }
        Ok((DynamicObjects { id, name, dynamic_objects }, p))
    }
}

} // verus!
