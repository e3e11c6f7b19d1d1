use rse_assets::err::ErrorKind;
use rse_assets::rsb::{BitMask, MaskedPixel, Pixel, Rsb};

fn le32(buf: &mut Vec<u8>, v: u32) {
    buf.push((v & 0xff) as u8);
    buf.push(((v >> 8) & 0xff) as u8);
    buf.push(((v >> 16) & 0xff) as u8);
    buf.push(((v >> 24) & 0xff) as u8);
}

fn le16(buf: &mut Vec<u8>, v: u16) {
    buf.push((v & 0xff) as u8);
    buf.push(((v >> 8) & 0xff) as u8);
}

fn bitmask_bytes(buf: &mut Vec<u8>, m: &BitMask) {
    le32(buf, m.r);
    le32(buf, m.g);
    le32(buf, m.b);
    le32(buf, m.a);
}

#[test]
fn masked_pixel_16bit_extracts_correctly_with_bitmask() {
    // Sample pixel data from 'data/texture/sky_night_rainy_BK.rsb'
    let data: Vec<u8> = vec![
        0x46, 0x29,
        0x66, 0x29,
        0x45, 0x21,
        0x25, 0x21,
        0x05, 0x21,
    ];

    // Construct a 16-bit bitmask for the pixel data
    let bitmask = BitMask { r: 5, g: 6, b: 5, a: 0 };
    assert_eq!(bitmask.bits(), 16, "this test must use 16-bit pixel depth");
    assert!(!bitmask.is_argb(), "channel data is not 32-bit ARGB");

    // Treat the data as 16-bit chunks
    let size = data.len() / 2;

    // Read in the 16-bit pixel data
    let masked_pixels = (0..size)
        .map(|i| u16::from(data[2 * i]) | (u16::from(data[2 * i + 1]) << 8))
        .map(MaskedPixel)
        .collect::<Vec<_>>();

    // 0x46, 0x29
    assert_eq!(masked_pixels[0].r(&bitmask), Some(6));
    assert_eq!(masked_pixels[0].g(&bitmask), Some(10));
    assert_eq!(masked_pixels[0].b(&bitmask), Some(5));
    assert_eq!(masked_pixels[0].a(&bitmask), None);

    // 0x66, 0x29
    assert_eq!(masked_pixels[1].r(&bitmask), Some(6));
    assert_eq!(masked_pixels[1].g(&bitmask), Some(11));
    assert_eq!(masked_pixels[1].b(&bitmask), Some(5));
    assert_eq!(masked_pixels[1].a(&bitmask), None);

    // 0x45, 0x21
    assert_eq!(masked_pixels[2].r(&bitmask), Some(5));
    assert_eq!(masked_pixels[2].g(&bitmask), Some(10));
    assert_eq!(masked_pixels[2].b(&bitmask), Some(4));
    assert_eq!(masked_pixels[2].a(&bitmask), None);

    // 0x25, 0x21
    assert_eq!(masked_pixels[3].r(&bitmask), Some(5));
    assert_eq!(masked_pixels[3].g(&bitmask), Some(9));
    assert_eq!(masked_pixels[3].b(&bitmask), Some(4));
    assert_eq!(masked_pixels[3].a(&bitmask), None);

    // 0x05, 0x21,
    assert_eq!(masked_pixels[4].r(&bitmask), Some(5));
    assert_eq!(masked_pixels[4].g(&bitmask), Some(8));
    assert_eq!(masked_pixels[4].b(&bitmask), Some(4));
    assert_eq!(masked_pixels[4].a(&bitmask), None);

    // None of the Rogue Spear game files have version=1, palette=0, and
    // a nonzero alpha channel.
}

#[test]
fn pixel_bgra_extracts_correctly_with_bitmask() {
    // Sample pixel data from 'data/texture/rsw_mp5k.rsb'
    let data: Vec<u8> = vec![
        0x08, 0x42,
        0x62, 0x10,
        0xa3, 0x10,
        0x04, 0x21,
    ];

    // Construct a 16-bit bitmask for the pixel data
    let bitmask = BitMask { r: 5, g: 6, b: 5, a: 0 };
    assert_eq!(bitmask.bits(), 16, "this test must use 16-bit pixel depth");
    assert!(!bitmask.is_argb(), "channel data is not 32-bit ARGB");

    // Treat the data as 16-bit chunks
    let size = data.len() / 2;

    // Read in the 16-bit pixel data
    let pixels = (0..size)
        .map(|i| u32::from(u16::from(data[2 * i]) | (u16::from(data[2 * i + 1]) << 8)))
        .map(Pixel::Bgra)
        .collect::<Vec<_>>();

    // 0x08, 0x42
    assert_eq!(pixels[0].b(&bitmask), Some(8));
    assert_eq!(pixels[0].g(&bitmask), Some(16));
    assert_eq!(pixels[0].r(&bitmask), Some(8));
    assert_eq!(pixels[0].a(&bitmask), None);

    // 0x62, 0x10
    assert_eq!(pixels[1].b(&bitmask), Some(2));
    assert_eq!(pixels[1].g(&bitmask), Some(3));
    assert_eq!(pixels[1].r(&bitmask), Some(2));
    assert_eq!(pixels[1].a(&bitmask), None);

    // 0xa3, 0x10
    assert_eq!(pixels[2].b(&bitmask), Some(3));
    assert_eq!(pixels[2].g(&bitmask), Some(5));
    assert_eq!(pixels[2].r(&bitmask), Some(2));
    assert_eq!(pixels[2].a(&bitmask), None);

    // 0xa3, 0x10
    assert_eq!(pixels[3].b(&bitmask), Some(4));
    assert_eq!(pixels[3].g(&bitmask), Some(8));
    assert_eq!(pixels[3].r(&bitmask), Some(4));
    assert_eq!(pixels[3].a(&bitmask), None);
}

#[test]
fn bitmask_bits_is_channel_sum() {
    let m = BitMask { r: 5, g: 6, b: 5, a: 0 };
    assert_eq!(m.bits(), 16);
    assert!(!m.is_argb());
    let m32 = BitMask { r: 8, g: 8, b: 8, a: 8 };
    assert_eq!(m32.bits(), 32);
    assert!(m32.is_argb());
    let big = BitMask {
        r: u32::MAX,
        g: u32::MAX,
        b: u32::MAX,
        a: u32::MAX,
    };
    assert_eq!(big.bits(), 4 * u64::from(u32::MAX));
    assert!(!big.is_argb());
}

#[test]
fn pixel_argb_extraction_uses_argb_shifts() {
    let bitmask = BitMask { r: 8, g: 8, b: 8, a: 8 };
    assert!(bitmask.is_argb());
    // A=0x12, R=0x34, G=0x56, B=0x78 packed as B|G|R|A from the high end:
    // value = B << 24 | G << 16 | R << 8 | A
    let value: u32 = 0x7856_3412;
    let p = Pixel::Argb(value);
    assert_eq!(p.a(&bitmask), Some(0x12));
    assert_eq!(p.r(&bitmask), Some(0x34));
    assert_eq!(p.g(&bitmask), Some(0x56));
    assert_eq!(p.b(&bitmask), Some(0x78));
}

#[test]
fn extraction_handles_oversized_masks_per_channel() {
    // Channel widths summing past the word size are extractable wherever
    // the channel's own width and shift stay below it.
    let wide = BitMask { r: 31, g: 31, b: 0, a: 0 };
    let p = Pixel::Argb(0xffff_ffff);
    // ARGB red: shift is the alpha width, zero here.
    assert_eq!(p.r(&wide), Some(0x7fff_ffff));
    // Alpha has width zero in both layouts.
    assert_eq!(p.a(&wide), None);

    let tall = BitMask { r: 5, g: 5, b: 0, a: 10 };
    let mp = MaskedPixel(0b0000_0011_1110_0001);
    // Masked-pixel green: width 5, shift past the 5 red bits.
    assert_eq!(mp.g(&tall), Some(0b11111));
    assert_eq!(mp.r(&tall), Some(1));
    // Blue has width zero; no shift is taken for an absent channel.
    assert_eq!(mp.b(&tall), None);
}

#[test]
fn rsb_version_1_decodes_two_pixels() {
    let mut buf = Vec::new();
    le32(&mut buf, 1); // version
    le32(&mut buf, 2); // width
    le32(&mut buf, 1); // height
    bitmask_bytes(&mut buf, &BitMask { r: 5, g: 6, b: 5, a: 0 });
    le16(&mut buf, 0x4208);
    le16(&mut buf, 0x1062);

    let (rsb, end) = Rsb::read(&buf, 0).expect("a well-formed version-1 texture decodes");
    assert_eq!(end, buf.len());
    assert_eq!(rsb.version, 1);
    assert_eq!(rsb.width, 2);
    assert_eq!(rsb.height, 1);
    assert_eq!(rsb.size(), 2);
    assert_eq!(rsb.pixels.len(), 2);
    assert!(rsb.masked_pixels.is_none());
    assert!(rsb.palette.is_none());
    assert!(rsb.palette_colors.is_none());
    // 16-bit depth selects the BGRA representation, decided once per array.
    assert_eq!(rsb.pixels[0], Pixel::Bgra(0x4208));
    assert_eq!(rsb.pixels[1], Pixel::Bgra(0x1062));
}

#[test]
fn rsb_version_0_palette_1_reads_companion_arrays() {
    let mut buf = Vec::new();
    le32(&mut buf, 0); // version
    le32(&mut buf, 2); // width
    le32(&mut buf, 1); // height
    le32(&mut buf, 1); // palette mode
    for i in 0..256u32 {
        // palette entries in B, G, R, A byte order
        buf.push((i & 0xff) as u8);
        buf.push(1);
        buf.push(2);
        buf.push(3);
    }
    buf.push(7); // pixel 0: palette index
    buf.push(9); // pixel 1: palette index
    bitmask_bytes(&mut buf, &BitMask { r: 5, g: 6, b: 5, a: 0 });
    le16(&mut buf, 0x2946);
    le16(&mut buf, 0x2966);

    let (rsb, end) = Rsb::read(&buf, 0).expect("a well-formed palette texture decodes");
    assert_eq!(end, buf.len());
    assert_eq!(rsb.palette, Some(1));
    let colors = rsb.palette_colors.as_ref().expect("palette mode 1 keeps the palette");
    assert_eq!(colors.len(), 256);
    assert_eq!(colors[5], rse_assets::rsb::PaletteColor::new(5, 1, 2, 3));
    assert_eq!(rsb.pixels.len(), 2);
    assert_eq!(rsb.pixels[0], Pixel::PaletteColorIndex(7));
    assert_eq!(rsb.pixels[1], Pixel::PaletteColorIndex(9));
    let masked = rsb.masked_pixels.as_ref().expect("palette mode 1 has masked pixels");
    assert_eq!(masked.len(), 2);
    assert_eq!(masked[0], MaskedPixel(0x2946));
    assert_eq!(masked[0].r(&rsb.bitmask), Some(6));
    assert_eq!(masked[0].g(&rsb.bitmask), Some(10));
    assert_eq!(masked[0].b(&rsb.bitmask), Some(5));
    assert_eq!(masked[0].a(&rsb.bitmask), None);
}

#[test]
fn rsb_version_0_palette_0_reads_packed_pixels() {
    let mut buf = Vec::new();
    le32(&mut buf, 0); // version
    le32(&mut buf, 1); // width
    le32(&mut buf, 1); // height
    le32(&mut buf, 0); // palette mode
    bitmask_bytes(&mut buf, &BitMask { r: 5, g: 6, b: 5, a: 0 });
    le16(&mut buf, 0x2104);

    let (rsb, _) = Rsb::read(&buf, 0).expect("a well-formed palette-0 texture decodes");
    assert_eq!(rsb.palette, Some(0));
    assert!(rsb.palette_colors.is_none());
    assert!(rsb.masked_pixels.is_none());
    assert_eq!(rsb.pixels, vec![Pixel::Bgra(0x2104)]);
}

#[test]
fn rsb_version_2_is_rejected() {
    let mut buf = Vec::new();
    le32(&mut buf, 2);
    le32(&mut buf, 1);
    le32(&mut buf, 1);
    let e = Rsb::read(&buf, 0).expect_err("version 2 must be rejected");
    assert_eq!(e.kind, ErrorKind::UnsupportedVersion);
}

#[test]
fn rsb_unknown_palette_value_is_rejected() {
    let mut buf = Vec::new();
    le32(&mut buf, 0);
    le32(&mut buf, 1);
    le32(&mut buf, 1);
    le32(&mut buf, 7); // palette selector outside {0, 1}
    let e = Rsb::read(&buf, 0).expect_err("an unmapped palette value must be rejected");
    assert_eq!(e.kind, ErrorKind::UnsupportedPaletteValue);
}

#[test]
fn rsb_truncated_buffer_fails_cleanly() {
    let mut buf = Vec::new();
    le32(&mut buf, 1);
    le32(&mut buf, 4);
    buf.push(0); // height cut off mid-field
    let e = Rsb::read(&buf, 0).expect_err("a truncated buffer must fail");
    assert_eq!(e.kind, ErrorKind::TruncatedInput);
}

#[test]
fn rsb_decode_is_idempotent() {
    let mut buf = Vec::new();
    le32(&mut buf, 1);
    le32(&mut buf, 2);
    le32(&mut buf, 2);
    bitmask_bytes(&mut buf, &BitMask { r: 5, g: 6, b: 5, a: 0 });
    for v in [0x4208u16, 0x1062, 0x10a3, 0x2104] {
        le16(&mut buf, v);
    }
    let first = Rsb::read(&buf, 0).expect("decodes");
    let second = Rsb::read(&buf, 0).expect("decodes again");
    assert_eq!(first, second);
}

#[test]
fn rsb_pixel_count_matches_dimensions() {
    let mut buf = Vec::new();
    le32(&mut buf, 1);
    le32(&mut buf, 3);
    le32(&mut buf, 2);
    bitmask_bytes(&mut buf, &BitMask { r: 5, g: 6, b: 5, a: 0 });
    for _ in 0..6 {
        le16(&mut buf, 0x2104);
    }
    let (rsb, _) = Rsb::read(&buf, 0).expect("decodes");
    assert_eq!(rsb.pixels.len() as u64, rsb.size());
    assert_eq!(rsb.pixels.len(), 6);
}
