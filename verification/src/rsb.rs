//! The RSB raster-texture container: a small state machine over
//! (version, palette-mode) that selects the pixel-array shape, plus the
//! bit-channel mask and its two intentionally mirrored channel-extraction
//! formulas.
use vstd::prelude::*;

use crate::err::{DecodeError, ErrorKind};
use crate::prim::{
    decodes, le16, le32, lemma_sp_many_err_mono, lemma_sp_many_snoc, read_u16, read_u32, read_u8,
    sp_many, sp_u16, sp_u32, sp_u8,
};

verus! {

/// The color-depth bit mask: the bit widths of the red, green, blue and
/// alpha channels of packed pixel data.
#[derive(Clone, Copy, Debug, PartialEq, Eq, Structural)]
pub struct BitMask {
    pub r: u32,
    pub g: u32,
    pub b: u32,
    pub a: u32,
}

impl DeepView for BitMask {
    type V = BitMask;

    open spec fn deep_view(&self) -> BitMask {
        *self
    }
}

impl BitMask {
    /// The total bit depth: always the sum of the four channel widths.
    pub open spec fn spec_bits(&self) -> int {
        self.r + self.g + self.b + self.a
    }

    /// The bit depth of this mask: the sum of the four channel widths.
    pub fn bits(&self) -> (n: u64)
        ensures
            n == self.spec_bits(),
    {
        self.r as u64 + self.g as u64 + self.b as u64 + self.a as u64
    }

    /// ARGB order is used for packed pixel data exactly when the channel
    /// depths sum to 32 bits; otherwise BGRA is expected.  This equality is
    /// the only discriminator between the two layouts.
    pub fn is_argb(&self) -> (argb: bool)
        ensures
            argb == (self.spec_bits() == 32),
    {
        self.bits() == 32
    }
}

/// The bit mask whose sixteen bytes sit at `pos`: four 32-bit widths in
/// r, g, b, a order.
pub open spec fn bitmask_at(s: Seq<u8>, pos: int) -> BitMask {
    BitMask { r: le32(s, pos), g: le32(s, pos + 4), b: le32(s, pos + 8), a: le32(s, pos + 12) }
}

/// A bit-mask record.
pub open spec fn sp_bitmask(s: Seq<u8>, pos: int) -> Result<(BitMask, int), ErrorKind> {
    if 0 <= pos && pos + 16 <= s.len() {
        Ok((bitmask_at(s, pos), pos + 16))
    } else {
        Err(ErrorKind::TruncatedInput)
    }
}

impl BitMask {
    /// Read a bit mask: the four channel widths.
    pub fn read(s: &[u8], pos: usize) -> (r: Result<(Self, usize), DecodeError>)
        ensures
            decodes(r, sp_bitmask(s@, pos as int)),
    {
        let (rw, p1) = match read_u32(s, pos) {
            Ok(v) => v,
            Err(e) => {
                return Err(e);
            },
        };
        let (gw, p2) = match read_u32(s, p1) {
            Ok(v) => v,
            Err(e) => {
                return Err(e);
            },
        };
        let (bw, p3) = match read_u32(s, p2) {
            Ok(v) => v,
            Err(e) => {
                return Err(e);
            },
        };
        match read_u32(s, p3) {
            Ok((aw, p4)) => Ok((BitMask { r: rw, g: gw, b: bw, a: aw }, p4)),
            Err(e) => Err(e),
        }
    }
}

/// One entry of the 256-color palette, stored on disk in B, G, R, A byte
/// order.
#[derive(Clone, Copy, Debug, PartialEq, Eq, Structural)]
pub struct PaletteColor {
    pub b: u8,
    pub g: u8,
    pub r: u8,
    pub a: u8,
}

impl DeepView for PaletteColor {
    type V = PaletteColor;

    open spec fn deep_view(&self) -> PaletteColor {
        *self
    }
}

impl PaletteColor {
    /// Assemble a palette color from its four raw bytes.
    pub fn new(b: u8, g: u8, r: u8, a: u8) -> (c: Self)
        ensures
            c == (PaletteColor { b, g, r, a }),
    {
        PaletteColor { b, g, r, a }
    }
}

/// The element parser of one palette color: four raw bytes, B, G, R, A.
pub open spec fn sp_palette_color_f() -> spec_fn(Seq<u8>, int) -> Result<
    (PaletteColor, int),
    ErrorKind,
> {
    |s: Seq<u8>, pos: int|
        if 0 <= pos && pos + 4 <= s.len() {
            Ok::<(PaletteColor, int), ErrorKind>(
                (PaletteColor { b: s[pos], g: s[pos + 1], r: s[pos + 2], a: s[pos + 3] }, pos + 4),
            )
        } else {
            Err::<(PaletteColor, int), ErrorKind>(ErrorKind::TruncatedInput)
        }
}

/// The 32-bit channel extraction of the packed-pixel formulas:
/// `mask = ((1 << channel) - 1) << shift; value = (raw & mask) >> shift`,
/// and a channel of width zero is absent.
pub open spec fn spec_masked32(value: u32, channel: u32, shift: u32) -> Option<u32> {
    if channel > 0 {
        Some((value & ((((1u32 << channel) - 1) as u32) << shift)) >> shift)
    } else {
        None
    }
}

/// The 16-bit channel extraction of the masked-pixel formula.
pub open spec fn spec_masked16(value: u16, channel: u32, shift: u32) -> Option<u16> {
    if channel > 0 {
        Some((value & ((((1u16 << channel) - 1) as u16) << shift)) >> shift)
    } else {
        None
    }
}

/// One pixel of the main pixel array.  The representation is decided once
/// per array by (version, palette-mode) and the bit mask, never per pixel.
#[derive(Clone, Copy, Debug, PartialEq, Eq, Structural)]
pub enum Pixel {
    /// A single-byte palette index: version 0, palette mode 1.
    PaletteColorIndex(u8),
    /// Packed channels in ARGB order: the mask widths sum to exactly 32.
    Argb(u32),
    /// Packed channels in BGRA order: any other mask depth.
    Bgra(u32),
}

impl DeepView for Pixel {
    type V = Pixel;

    open spec fn deep_view(&self) -> Pixel {
        *self
    }
}

/// The red channel of a packed pixel: in ARGB the shift is the alpha
/// width; in BGRA it is the blue width plus the green width.
pub open spec fn spec_pixel_r(p: Pixel, m: BitMask) -> Option<u32> {
    match p {
        Pixel::Argb(bits) => spec_masked32(bits, m.r, m.a),
        Pixel::Bgra(bits) => spec_masked32(bits, m.r, (m.b + m.g) as u32),
        Pixel::PaletteColorIndex(_) => None,
    }
}

/// The green channel of a packed pixel.
pub open spec fn spec_pixel_g(p: Pixel, m: BitMask) -> Option<u32> {
    match p {
        Pixel::Argb(bits) => spec_masked32(bits, m.g, (m.a + m.r) as u32),
        Pixel::Bgra(bits) => spec_masked32(bits, m.g, m.b),
        Pixel::PaletteColorIndex(_) => None,
    }
}

/// The blue channel of a packed pixel.
pub open spec fn spec_pixel_b(p: Pixel, m: BitMask) -> Option<u32> {
    match p {
        Pixel::Argb(bits) => spec_masked32(bits, m.b, (m.a + m.r + m.g) as u32),
        Pixel::Bgra(bits) => spec_masked32(bits, m.b, 0),
        Pixel::PaletteColorIndex(_) => None,
    }
}

/// The alpha channel of a packed pixel.
pub open spec fn spec_pixel_a(p: Pixel, m: BitMask) -> Option<u32> {
    match p {
        Pixel::Argb(bits) => spec_masked32(bits, m.a, 0),
        Pixel::Bgra(bits) => spec_masked32(bits, m.a, (m.b + m.g + m.r) as u32),
        Pixel::PaletteColorIndex(_) => None,
    }
}

impl Pixel {
    /// Extract one channel with the shared mask-and-shift formula.
    pub fn masked(value: u32, channel: u32, shift: u32) -> (r: Option<u32>)
        requires
            channel > 0 ==> channel < 32 && shift < 32,
        ensures
            r == spec_masked32(value, channel, shift),
    {
        if channel > 0 {
            proof {
                assert(1u32 << channel >= 1) by (bit_vector)
                    requires
                        channel < 32u32,
                ;
            }
            let mask = ((1u32 << channel) - 1) << shift;
            Some((value & mask) >> shift)
        } else {
            None
        }
    }

    /// The red channel.  A palette index has no channels to extract.  The
    /// preconditions are exactly the machine limits of the 32-bit shift
    /// arithmetic for the layout at hand, per channel.
    pub fn r(&self, bitmask: &BitMask) -> (res: Option<u32>)
        requires
            !(self is PaletteColorIndex),
            self is Argb ==> (bitmask.r > 0 ==> bitmask.r < 32 && bitmask.a < 32),
            self is Bgra ==> (bitmask.r > 0 ==> bitmask.r < 32 && bitmask.b + bitmask.g < 32),
        ensures
            res == spec_pixel_r(*self, *bitmask),
    {
        match *self {
            Pixel::PaletteColorIndex(_) => None,
            Pixel::Argb(bits) => Self::masked(bits, bitmask.r, bitmask.a),
            Pixel::Bgra(bits) => if bitmask.r > 0 {
                Self::masked(bits, bitmask.r, bitmask.b + bitmask.g)
            } else {
                None
            },
        }
    }

    /// The green channel.
    pub fn g(&self, bitmask: &BitMask) -> (res: Option<u32>)
        requires
            !(self is PaletteColorIndex),
            self is Argb ==> (bitmask.g > 0 ==> bitmask.g < 32 && bitmask.a + bitmask.r < 32),
            self is Bgra ==> (bitmask.g > 0 ==> bitmask.g < 32 && bitmask.b < 32),
        ensures
            res == spec_pixel_g(*self, *bitmask),
    {
        match *self {
            Pixel::PaletteColorIndex(_) => None,
            Pixel::Argb(bits) => if bitmask.g > 0 {
                Self::masked(bits, bitmask.g, bitmask.a + bitmask.r)
            } else {
                None
            },
            Pixel::Bgra(bits) => Self::masked(bits, bitmask.g, bitmask.b),
        }
    }

    /// The blue channel.
    pub fn b(&self, bitmask: &BitMask) -> (res: Option<u32>)
        requires
            !(self is PaletteColorIndex),
            self is Argb ==> (bitmask.b > 0 ==> bitmask.b < 32 && bitmask.a + bitmask.r
                + bitmask.g < 32),
            self is Bgra ==> (bitmask.b > 0 ==> bitmask.b < 32),
        ensures
            res == spec_pixel_b(*self, *bitmask),
    {
        match *self {
            Pixel::PaletteColorIndex(_) => None,
            Pixel::Argb(bits) => if bitmask.b > 0 {
                Self::masked(bits, bitmask.b, bitmask.a + bitmask.r + bitmask.g)
            } else {
                None
            },
            Pixel::Bgra(bits) => Self::masked(bits, bitmask.b, 0),
        }
    }

    /// The alpha channel.
    pub fn a(&self, bitmask: &BitMask) -> (res: Option<u32>)
        requires
            !(self is PaletteColorIndex),
            self is Argb ==> (bitmask.a > 0 ==> bitmask.a < 32),
            self is Bgra ==> (bitmask.a > 0 ==> bitmask.a < 32 && bitmask.b + bitmask.g
                + bitmask.r < 32),
        ensures
            res == spec_pixel_a(*self, *bitmask),
    {
        match *self {
            Pixel::PaletteColorIndex(_) => None,
            Pixel::Argb(bits) => Self::masked(bits, bitmask.a, 0),
            Pixel::Bgra(bits) => if bitmask.a > 0 {
                Self::masked(bits, bitmask.a, bitmask.b + bitmask.g + bitmask.r)
            } else {
                None
            },
        }
    }
}

/// A 16-bit masked pixel of the palette-mode companion array.  The bit
/// mask gives the channel layout: red from bit zero upward, then green,
/// blue and alpha.
#[derive(Clone, Copy, Debug, PartialEq, Eq, Structural)]
pub struct MaskedPixel(pub u16);

impl DeepView for MaskedPixel {
    type V = MaskedPixel;

    open spec fn deep_view(&self) -> MaskedPixel {
        *self
    }
}

/// The red channel of a masked pixel: shift zero.
pub open spec fn spec_masked_pixel_r(p: MaskedPixel, m: BitMask) -> Option<u16> {
    spec_masked16(p.0, m.r, 0)
}

/// The green channel of a masked pixel: shifted past red.
pub open spec fn spec_masked_pixel_g(p: MaskedPixel, m: BitMask) -> Option<u16> {
    spec_masked16(p.0, m.g, m.r)
}

/// The blue channel of a masked pixel: shifted past green and red.
pub open spec fn spec_masked_pixel_b(p: MaskedPixel, m: BitMask) -> Option<u16> {
    spec_masked16(p.0, m.b, (m.g + m.r) as u32)
}

/// The alpha channel of a masked pixel: shifted past blue, green and red.
pub open spec fn spec_masked_pixel_a(p: MaskedPixel, m: BitMask) -> Option<u16> {
    spec_masked16(p.0, m.a, (m.b + m.g + m.r) as u32)
}

impl MaskedPixel {
    /// Extract one channel with the 16-bit mask-and-shift formula.
    pub fn masked(&self, channel: u32, shift: u32) -> (r: Option<u16>)
        requires
            channel > 0 ==> channel < 16 && shift < 16,
        ensures
            r == spec_masked16(self.0, channel, shift),
    {
        if channel > 0 {
            proof {
                assert(1u16 << channel >= 1) by (bit_vector)
                    requires
                        0 < channel < 16u32,
                ;
            }
            let mask = ((1u16 << channel) - 1) << shift;
            Some((self.0 & mask) >> shift)
        } else {
            None
        }
    }

    /// The red channel.  As on the packed layouts, each precondition is
    /// exactly the machine limit of the 16-bit shift arithmetic for its
    /// own channel.
    pub fn r(&self, bitmask: &BitMask) -> (res: Option<u16>)
        requires
            bitmask.r > 0 ==> bitmask.r < 16,
        ensures
            res == spec_masked_pixel_r(*self, *bitmask),
    {
        self.masked(bitmask.r, 0)
    }

    /// The green channel.
    pub fn g(&self, bitmask: &BitMask) -> (res: Option<u16>)
        requires
            bitmask.g > 0 ==> bitmask.g < 16 && bitmask.r < 16,
        ensures
            res == spec_masked_pixel_g(*self, *bitmask),
    {
        self.masked(bitmask.g, bitmask.r)
    }

    /// The blue channel.
    pub fn b(&self, bitmask: &BitMask) -> (res: Option<u16>)
        requires
            bitmask.b > 0 ==> bitmask.b < 16 && bitmask.g + bitmask.r < 16,
        ensures
            res == spec_masked_pixel_b(*self, *bitmask),
    {
        if bitmask.b > 0 {
            self.masked(bitmask.b, bitmask.g + bitmask.r)
        } else {
            None
        }
    }

    /// The alpha channel.
    pub fn a(&self, bitmask: &BitMask) -> (res: Option<u16>)
        requires
            bitmask.a > 0 ==> bitmask.a < 16 && bitmask.b + bitmask.g + bitmask.r < 16,
        ensures
            res == spec_masked_pixel_a(*self, *bitmask),
    {
        if bitmask.a > 0 {
            self.masked(bitmask.a, bitmask.b + bitmask.g + bitmask.r)
        } else {
            None
        }
    }
}

/// The element parser of one palette-index pixel: a single byte.
pub open spec fn sp_pixel_pal_f() -> spec_fn(Seq<u8>, int) -> Result<(Pixel, int), ErrorKind> {
    |s: Seq<u8>, pos: int|
        match sp_u8(s, pos) {
            Err(k) => Err::<(Pixel, int), ErrorKind>(k),
            Ok((b, p)) => Ok::<(Pixel, int), ErrorKind>((Pixel::PaletteColorIndex(b), p)),
        }
}

/// The element parser of one packed 16-bit pixel, tagged once per array as
/// ARGB or BGRA by the mask.
pub open spec fn sp_pixel16_f(argb: bool) -> spec_fn(Seq<u8>, int) -> Result<(Pixel, int), ErrorKind> {
    |s: Seq<u8>, pos: int|
        match sp_u16(s, pos) {
            Err(k) => Err::<(Pixel, int), ErrorKind>(k),
            Ok((v, p)) => Ok::<(Pixel, int), ErrorKind>(
                (
                    if argb {
                        Pixel::Argb(v as u32)
                    } else {
                        Pixel::Bgra(v as u32)
                    },
                    p,
                ),
            ),
        }
}

/// The element parser of one 16-bit masked pixel.
pub open spec fn sp_masked_pixel_f() -> spec_fn(Seq<u8>, int) -> Result<(MaskedPixel, int), ErrorKind> {
    |s: Seq<u8>, pos: int|
        match sp_u16(s, pos) {
            Err(k) => Err::<(MaskedPixel, int), ErrorKind>(k),
            Ok((v, p)) => Ok::<(MaskedPixel, int), ErrorKind>((MaskedPixel(v), p)),
        }
}

/// A fully decoded RSB texture.
#[derive(Clone, Debug, PartialEq)]
pub struct Rsb {
    /// The format version; only 0 and 1 are handled.
    pub version: u32,
    /// Texture width.
    pub width: u32,
    /// Texture height.
    pub height: u32,
    /// The palette-mode selector, present only when `version == 0`.
    pub palette: Option<u32>,
    /// The 256-entry palette, present only for palette mode 1.
    pub palette_colors: Option<Vec<PaletteColor>>,
    /// The channel widths governing pixel extraction.
    pub bitmask: BitMask,
    /// Pixel data of length `width * height`.
    pub pixels: Vec<Pixel>,
    /// The companion masked-pixel array, present only when `version == 0`
    /// and the palette mode is 1.
    pub masked_pixels: Option<Vec<MaskedPixel>>,
}

/// The mathematical shape of a decoded RSB texture.
pub struct RsbView {
    pub version: u32,
    pub width: u32,
    pub height: u32,
    pub palette: Option<u32>,
    pub palette_colors: Option<Seq<PaletteColor>>,
    pub bitmask: BitMask,
    pub pixels: Seq<Pixel>,
    pub masked_pixels: Option<Seq<MaskedPixel>>,
}

impl DeepView for Rsb {
    type V = RsbView;

    open spec fn deep_view(&self) -> RsbView {
        RsbView {
            version: self.version,
            width: self.width,
            height: self.height,
            palette: self.palette,
            palette_colors: self.palette_colors.deep_view(),
            bitmask: self.bitmask,
            pixels: self.pixels.deep_view(),
            masked_pixels: self.masked_pixels.deep_view(),
        }
    }
}

/// A whole RSB buffer, as the (version, palette-mode) state machine reads
/// it: version 2 or above is rejected; version 1 reads a mask and packed
/// pixels; version 0 reads a palette selector that must be 0 (mask and
/// packed pixels) or 1 (a 256-entry palette, palette-index pixels, then a
/// second mask and the masked-pixel array).
#[verifier::opaque]
pub open spec fn sp_rsb(s: Seq<u8>, pos: int) -> Result<(RsbView, int), ErrorKind> {
    match sp_u32(s, pos) {
        Err(k) => Err(k),
        Ok((version, p1)) => if version >= 2 {
            Err(ErrorKind::UnsupportedVersion)
        } else {
            match sp_u32(s, p1) {
                Err(k) => Err(k),
                Ok((width, p2)) => match sp_u32(s, p2) {
                    Err(k) => Err(k),
                    Ok((height, p3)) => {
                        let n = (width * height) as nat;
                        if version == 0 {
                            match sp_u32(s, p3) {
                                Err(k) => Err(k),
                                Ok((sel, p4)) => if sel == 0 {
                                    match sp_bitmask(s, p4) {
                                        Err(k) => Err(k),
                                        Ok((bm, p5)) => match sp_many(
                                            s,
                                            p5,
                                            n,
                                            sp_pixel16_f(bm.spec_bits() == 32),
                                        ) {
                                            Err(k) => Err(k),
                                            Ok((pixels, p6)) => Ok(
                                                (
                                                    RsbView {
                                                        version,
                                                        width,
                                                        height,
                                                        palette: Some(0u32),
                                                        palette_colors: None,
                                                        bitmask: bm,
                                                        pixels,
                                                        masked_pixels: None,
                                                    },
                                                    p6,
                                                ),
                                            ),
                                        },
                                    }
                                } else if sel == 1 {
                                    match sp_many(s, p4, 256, sp_palette_color_f()) {
                                        Err(k) => Err(k),
                                        Ok((colors, p5)) => match sp_many(s, p5, n, sp_pixel_pal_f()) {
                                            Err(k) => Err(k),
                                            Ok((pixels, p6)) => match sp_bitmask(s, p6) {
                                                Err(k) => Err(k),
                                                Ok((bm, p7)) => match sp_many(
                                                    s,
                                                    p7,
                                                    n,
                                                    sp_masked_pixel_f(),
                                                ) {
                                                    Err(k) => Err(k),
                                                    Ok((masked, p8)) => Ok(
                                                        (
                                                            RsbView {
                                                                version,
                                                                width,
                                                                height,
                                                                palette: Some(1u32),
                                                                palette_colors: Some(colors),
                                                                bitmask: bm,
                                                                pixels,
                                                                masked_pixels: Some(masked),
                                                            },
                                                            p8,
                                                        ),
                                                    ),
                                                },
                                            },
                                        },
                                    }
                                } else {
                                    Err(ErrorKind::UnsupportedPaletteValue)
                                },
                            }
                        } else {
                            match sp_bitmask(s, p3) {
                                Err(k) => Err(k),
                                Ok((bm, p4)) => match sp_many(
                                    s,
                                    p4,
                                    n,
                                    sp_pixel16_f(bm.spec_bits() == 32),
                                ) {
                                    Err(k) => Err(k),
                                    Ok((pixels, p5)) => Ok(
                                        (
                                            RsbView {
                                                version,
                                                width,
                                                height,
                                                palette: None,
                                                palette_colors: None,
                                                bitmask: bm,
                                                pixels,
                                                masked_pixels: None,
                                            },
                                            p5,
                                        ),
                                    ),
                                },
                            }
                        }
                    },
                },
            }
        },
    }
}

impl Rsb {
    /// The `width * height` pixel count of this texture.
    pub fn size(&self) -> (n: u64)
        ensures
            n == self.width * self.height,
    {
        proof {
            assert((self.width as int) * (self.height as int) <= 0xffff_ffff * 0xffff_ffff)
                by (nonlinear_arith)
                requires
                    self.width as int <= 0xffff_ffff,
                    self.height as int <= 0xffff_ffff,
            ;
        }
        self.width as u64 * self.height as u64
    }

    /// Read the packed 16-bit pixel array: `n` entries, each tagged ARGB or
    /// BGRA by the one flag decided from the mask.
    #[verifier::loop_isolation(false)]
    fn read_pixels16(s: &[u8], pos: usize, n: u64, argb: bool) -> (r: Result<
        (Vec<Pixel>, usize),
        DecodeError,
    >)
        ensures
            decodes(r, sp_many(s@, pos as int, n as nat, sp_pixel16_f(argb))),
    {
        let mut items: Vec<Pixel> = Vec::new();
        let mut p = pos;
        let mut i: u64 = 0;
        assert(items.deep_view() =~= Seq::<Pixel>::empty());
        while i < n
            invariant
                i <= n,
                sp_many(s@, pos as int, i as nat, sp_pixel16_f(argb)) == Ok::<
                    (Seq<Pixel>, int),
                    ErrorKind,
                >((items.deep_view(), p as int)),
            decreases n - i,
        {
            proof {
                lemma_sp_many_snoc(
                    s@,
                    pos as int,
                    i as nat,
                    sp_pixel16_f(argb),
                    items.deep_view(),
                    p as int,
                );
            }
            match read_u16(s, p) {
                Ok((v, p2)) => {
                    let pixel = if argb {
                        Pixel::Argb(v as u32)
                    } else {
                        Pixel::Bgra(v as u32)
                    };
                    let ghost old_dv = items.deep_view();
                    items.push(pixel);
                    assert(items.deep_view() =~= old_dv.push(pixel));
                    p = p2;
                    i = i + 1;
                },
                Err(e) => {
                    proof {
                        lemma_sp_many_err_mono(
                            s@,
                            pos as int,
                            i as nat + 1,
                            n as nat,
                            sp_pixel16_f(argb),
                        );
                    }
                    return Err(e);
                },
            }
        }
        Ok((items, p))
    }

    /// Read the palette-index pixel array: `n` single-byte entries.
    #[verifier::loop_isolation(false)]
    fn read_pixels_pal(s: &[u8], pos: usize, n: u64) -> (r: Result<(Vec<Pixel>, usize), DecodeError>)
        ensures
            decodes(r, sp_many(s@, pos as int, n as nat, sp_pixel_pal_f())),
    {
        let mut items: Vec<Pixel> = Vec::new();
        let mut p = pos;
        let mut i: u64 = 0;
        assert(items.deep_view() =~= Seq::<Pixel>::empty());
        while i < n
            invariant
                i <= n,
                sp_many(s@, pos as int, i as nat, sp_pixel_pal_f()) == Ok::<
                    (Seq<Pixel>, int),
                    ErrorKind,
                >((items.deep_view(), p as int)),
            decreases n - i,
        {
            proof {
                lemma_sp_many_snoc(
                    s@,
                    pos as int,
                    i as nat,
                    sp_pixel_pal_f(),
                    items.deep_view(),
                    p as int,
                );
            }
            match read_u8(s, p) {
                Ok((v, p2)) => {
                    let pixel = Pixel::PaletteColorIndex(v);
                    let ghost old_dv = items.deep_view();
                    items.push(pixel);
                    assert(items.deep_view() =~= old_dv.push(pixel));
                    p = p2;
                    i = i + 1;
                },
                Err(e) => {
                    proof {
                        lemma_sp_many_err_mono(
                            s@,
                            pos as int,
                            i as nat + 1,
                            n as nat,
                            sp_pixel_pal_f(),
                        );
                    }
                    return Err(e);
                },
            }
        }
        Ok((items, p))
    }

    /// Read the masked-pixel array: `n` 16-bit entries.
    #[verifier::loop_isolation(false)]
    fn read_masked_pixels(s: &[u8], pos: usize, n: u64) -> (r: Result<
        (Vec<MaskedPixel>, usize),
        DecodeError,
    >)
        ensures
            decodes(r, sp_many(s@, pos as int, n as nat, sp_masked_pixel_f())),
    {
        let mut items: Vec<MaskedPixel> = Vec::new();
        let mut p = pos;
        let mut i: u64 = 0;
        assert(items.deep_view() =~= Seq::<MaskedPixel>::empty());
        while i < n
            invariant
                i <= n,
                sp_many(s@, pos as int, i as nat, sp_masked_pixel_f()) == Ok::<
                    (Seq<MaskedPixel>, int),
                    ErrorKind,
                >((items.deep_view(), p as int)),
            decreases n - i,
        {
            proof {
                lemma_sp_many_snoc(
                    s@,
                    pos as int,
                    i as nat,
                    sp_masked_pixel_f(),
                    items.deep_view(),
                    p as int,
                );
            }
            match read_u16(s, p) {
                Ok((v, p2)) => {
                    let pixel = MaskedPixel(v);
                    let ghost old_dv = items.deep_view();
                    items.push(pixel);
                    assert(items.deep_view() =~= old_dv.push(pixel));
                    p = p2;
                    i = i + 1;
                },
                Err(e) => {
                    proof {
                        lemma_sp_many_err_mono(
                            s@,
                            pos as int,
                            i as nat + 1,
                            n as nat,
                            sp_masked_pixel_f(),
                        );
                    }
                    return Err(e);
                },
            }
        }
        Ok((items, p))
    }

    /// Read the 256-entry palette: each entry four raw bytes in B, G, R, A
    /// order.
    #[verifier::loop_isolation(false)]
    fn read_palette(s: &[u8], pos: usize) -> (r: Result<(Vec<PaletteColor>, usize), DecodeError>)
        ensures
            decodes(r, sp_many(s@, pos as int, 256, sp_palette_color_f())),
    {
        let mut items: Vec<PaletteColor> = Vec::new();
        let mut p = pos;
        let mut i: u32 = 0;
        assert(items.deep_view() =~= Seq::<PaletteColor>::empty());
        while i < 256
            invariant
                i <= 256,
                sp_many(s@, pos as int, i as nat, sp_palette_color_f()) == Ok::<
                    (Seq<PaletteColor>, int),
                    ErrorKind,
                >((items.deep_view(), p as int)),
            decreases 256 - i,
    {
            proof {
                lemma_sp_many_snoc(
                    s@,
                    pos as int,
                    i as nat,
                    sp_palette_color_f(),
                    items.deep_view(),
                    p as int,
                );
            }
            let (b, p1) = match read_u8(s, p) {
                Ok(v) => v,
                Err(e) => {
                    proof {
                        lemma_sp_many_err_mono(
                            s@,
                            pos as int,
                            i as nat + 1,
                            256,
                            sp_palette_color_f(),
                        );
                    }
                    return Err(e);
                },
            };
            let (g, p2) = match read_u8(s, p1) {
                Ok(v) => v,
                Err(e) => {
                    proof {
                        lemma_sp_many_err_mono(
                            s@,
                            pos as int,
                            i as nat + 1,
                            256,
                            sp_palette_color_f(),
                        );
                    }
                    return Err(e);
                },
            };
            let (rb, p3) = match read_u8(s, p2) {
                Ok(v) => v,
                Err(e) => {
                    proof {
                        lemma_sp_many_err_mono(
                            s@,
                            pos as int,
                            i as nat + 1,
                            256,
                            sp_palette_color_f(),
                        );
                    }
                    return Err(e);
                },
            };
            let (a, p4) = match read_u8(s, p3) {
                Ok(v) => v,
                Err(e) => {
                    proof {
                        lemma_sp_many_err_mono(
                            s@,
                            pos as int,
                            i as nat + 1,
                            256,
                            sp_palette_color_f(),
                        );
                    }
                    return Err(e);
                },
            };
            let color = PaletteColor::new(b, g, rb, a);
            let ghost old_dv = items.deep_view();
            items.push(color);
            assert(items.deep_view() =~= old_dv.push(color));
            p = p4;
            i = i + 1;
        }
        Ok((items, p))
    }

    /// Decode a whole RSB buffer, returning the texture and the position
    /// just past the last array read.
    #[verifier::rlimit(80)]
    pub fn read(s: &[u8], pos: usize) -> (r: Result<(Self, usize), DecodeError>)
        ensures
            decodes(r, sp_rsb(s@, pos as int)),
    {
        proof {
            reveal(sp_rsb);
        }
        let (version, p1) = match read_u32(s, pos) {
            Ok(v) => v,
            Err(e) => {
                return Err(e);
            },
        };
        if version >= 2 {
            return Err(
                DecodeError::new(ErrorKind::UnsupportedVersion).context("RSB version not supported"),
            );
        }
        let (width, p2) = match read_u32(s, p1) {
            Ok(v) => v,
            Err(e) => {
                return Err(e);
            },
        };
        let (height, p3) = match read_u32(s, p2) {
            Ok(v) => v,
            Err(e) => {
                return Err(e);
            },
        };
        proof {
            assert((width as int) * (height as int) <= 0xffff_ffff * 0xffff_ffff)
                by (nonlinear_arith)
                requires
                    width as int <= 0xffff_ffff,
                    height as int <= 0xffff_ffff,
            ;
        }
        let n: u64 = width as u64 * height as u64;
        if version == 0 {
            let (sel, p4) = match read_u32(s, p3) {
                Ok(v) => v,
                Err(e) => {
                    return Err(e);
                },
            };
            if sel == 0 {
                let (bm, p5) = match BitMask::read(s, p4) {
                    Ok(v) => v,
                    Err(e) => {
                        return Err(e);
                    },
                };
                let argb = bm.is_argb();
                match Self::read_pixels16(s, p5, n, argb) {
                    Ok((pixels, p6)) => Ok(
                        (
                            Rsb {
                                version,
                                width,
                                height,
                                palette: Some(0),
                                palette_colors: None,
                                bitmask: bm,
                                pixels,
                                masked_pixels: None,
                            },
                            p6,
                        ),
                    ),
                    Err(e) => Err(e),
                }
            } else if sel == 1 {
                let (colors, p5) = match Self::read_palette(s, p4) {
                    Ok(v) => v,
                    Err(e) => {
                        return Err(e);
                    },
                };
                let (pixels, p6) = match Self::read_pixels_pal(s, p5, n) {
                    Ok(v) => v,
                    Err(e) => {
                        return Err(e);
                    },
                };
                let (bm, p7) = match BitMask::read(s, p6) {
                    Ok(v) => v,
                    Err(e) => {
                        return Err(e);
                    },
                };
                match Self::read_masked_pixels(s, p7, n) {
                    Ok((masked, p8)) => Ok(
                        (
                            Rsb {
                                version,
                                width,
                                height,
                                palette: Some(1),
                                palette_colors: Some(colors),
                                bitmask: bm,
                                pixels,
                                masked_pixels: Some(masked),
                            },
                            p8,
                        ),
                    ),
                    Err(e) => Err(e),
                }
            } else {
                Err(
                    DecodeError::new(ErrorKind::UnsupportedPaletteValue).context(
                        "palette is unhandled",
                    ),
                )
            }
        } else {
            let (bm, p4) = match BitMask::read(s, p3) {
                Ok(v) => v,
                Err(e) => {
                    return Err(e);
                },
            };
            let argb = bm.is_argb();
            match Self::read_pixels16(s, p4, n, argb) {
                Ok((pixels, p5)) => Ok(
                    (
                        Rsb {
                            version,
                            width,
                            height,
                            palette: None,
                            palette_colors: None,
                            bitmask: bm,
                            pixels,
                            masked_pixels: None,
                        },
                        p5,
                    ),
                ),
                Err(e) => Err(e),
            }
        }
    }
}

/// Decoding is a pure function of the buffer: any two decode results that
/// meet the decoder's contract on equal buffers are equal in every decoded
/// field — decoding an identical buffer twice yields structurally equal
/// results.
pub proof fn lemma_rsb_decode_deterministic(
    s1: Seq<u8>,
    s2: Seq<u8>,
    r1: Result<(Rsb, usize), DecodeError>,
    r2: Result<(Rsb, usize), DecodeError>,
)
    requires
        s1 == s2,
        decodes(r1, sp_rsb(s1, 0)),
        decodes(r2, sp_rsb(s2, 0)),
    ensures
        r1 is Ok <==> r2 is Ok,
        r1 matches Ok(a) ==> r2 matches Ok(b) && a.0.deep_view() == b.0.deep_view() && a.1 == b.1,
        r1 matches Err(e1) ==> r2 matches Err(e2) && e1.kind == e2.kind,
{
}

} // verus!
