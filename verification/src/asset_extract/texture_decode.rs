//! Texture formats and decoding of texture data to pixels.
//!
//! Compressed formats are decoded by `texture2ddecoder`; what each of its
//! decoders produces is named here and not restated.

use vstd::prelude::*;

use crate::chars::push_chars;
use super::astc::{astc_blocks_ok, astc_blocks_ok_exec};

verus! {

/// The pixel format of a texture, as Unity numbers them.
#[derive(Debug, Clone, Copy, PartialEq, Eq, PartialOrd, Ord, Structural)]
pub enum TextureFormat {
    Alpha8,
    Argb4444,
    Rgb24,
    Rgba32,
    Argb32,
    Rgb565,
    R16,
    Dxt1,
    Dxt5,
    RgbA4444,
    Bgra32,
    RHalf,
    RgHalf,
    RgbaHalf,
    RFloat,
    RgFloat,
    RgbaFloat,
    Yuy2,
    Rgb9e5Float,
    Bc6H,
    Bc7,
    Bc4,
    Bc5,
    Dxt1Crunched,
    Dxt5Crunched,
    PvrtcRgb2,
    PvrtcRgba2,
    PvrtcRgb4,
    PvrtcRgba4,
    EtcRgb4,
    AtcRgb4,
    AtcRgba8,
    EacR,
    EacRSigned,
    EacRg,
    EacRgSigned,
    Etc2Rgb,
    Etc2Rgba1,
    Etc2Rgba8,
    AstcRgb4x4,
    AstcRgb5x5,
    AstcRgb6x6,
    AstcRgb8x8,
    AstcRgb10x10,
    AstcRgb12x12,
    AstcRgba4x4,
    AstcRgba5x5,
    AstcRgba6x6,
    AstcRgba8x8,
    AstcRgba10x10,
    AstcRgba12x12,
    EtcRgb43ds,
    EtcRgba83ds,
    Rg16,
    R8,
    EtcRgb4crunched,
    Etc2Rgba8crunched,
    AstcHdr4x4,
    AstcHdr5x5,
    AstcHdr6x6,
    AstcHdr8x8,
    AstcHdr10x10,
    AstcHdr12x12,
}

/// Unity's number for a texture format.
pub open spec fn format_code(f: TextureFormat) -> i32 {
    match f {
        TextureFormat::Alpha8 => 1,
        TextureFormat::Argb4444 => 2,
        TextureFormat::Rgb24 => 3,
        TextureFormat::Rgba32 => 4,
        TextureFormat::Argb32 => 5,
        TextureFormat::Rgb565 => 7,
        TextureFormat::R16 => 9,
        TextureFormat::Dxt1 => 10,
        TextureFormat::Dxt5 => 12,
        TextureFormat::RgbA4444 => 13,
        TextureFormat::Bgra32 => 14,
        TextureFormat::RHalf => 15,
        TextureFormat::RgHalf => 16,
        TextureFormat::RgbaHalf => 17,
        TextureFormat::RFloat => 18,
        TextureFormat::RgFloat => 19,
        TextureFormat::RgbaFloat => 20,
        TextureFormat::Yuy2 => 21,
        TextureFormat::Rgb9e5Float => 22,
        TextureFormat::Bc6H => 24,
        TextureFormat::Bc7 => 25,
        TextureFormat::Bc4 => 26,
        TextureFormat::Bc5 => 27,
        TextureFormat::Dxt1Crunched => 28,
        TextureFormat::Dxt5Crunched => 29,
        TextureFormat::PvrtcRgb2 => 30,
        TextureFormat::PvrtcRgba2 => 31,
        TextureFormat::PvrtcRgb4 => 32,
        TextureFormat::PvrtcRgba4 => 33,
        TextureFormat::EtcRgb4 => 34,
        TextureFormat::AtcRgb4 => 35,
        TextureFormat::AtcRgba8 => 36,
        TextureFormat::EacR => 41,
        TextureFormat::EacRSigned => 42,
        TextureFormat::EacRg => 43,
        TextureFormat::EacRgSigned => 44,
        TextureFormat::Etc2Rgb => 45,
        TextureFormat::Etc2Rgba1 => 46,
        TextureFormat::Etc2Rgba8 => 47,
        TextureFormat::AstcRgb4x4 => 48,
        TextureFormat::AstcRgb5x5 => 49,
        TextureFormat::AstcRgb6x6 => 50,
        TextureFormat::AstcRgb8x8 => 51,
        TextureFormat::AstcRgb10x10 => 52,
        TextureFormat::AstcRgb12x12 => 53,
        TextureFormat::AstcRgba4x4 => 54,
        TextureFormat::AstcRgba5x5 => 55,
        TextureFormat::AstcRgba6x6 => 56,
        TextureFormat::AstcRgba8x8 => 57,
        TextureFormat::AstcRgba10x10 => 58,
        TextureFormat::AstcRgba12x12 => 59,
        TextureFormat::EtcRgb43ds => 60,
        TextureFormat::EtcRgba83ds => 61,
        TextureFormat::Rg16 => 62,
        TextureFormat::R8 => 63,
        TextureFormat::EtcRgb4crunched => 64,
        TextureFormat::Etc2Rgba8crunched => 65,
        TextureFormat::AstcHdr4x4 => 66,
        TextureFormat::AstcHdr5x5 => 67,
        TextureFormat::AstcHdr6x6 => 68,
        TextureFormat::AstcHdr8x8 => 69,
        TextureFormat::AstcHdr10x10 => 70,
        TextureFormat::AstcHdr12x12 => 71,
    }
}

/// The texture format that Unity numbers `n`, if any.
pub open spec fn format_of_code(n: i32) -> Option<TextureFormat> {
    match n {
        1 => Some(TextureFormat::Alpha8),
        2 => Some(TextureFormat::Argb4444),
        3 => Some(TextureFormat::Rgb24),
        4 => Some(TextureFormat::Rgba32),
        5 => Some(TextureFormat::Argb32),
        7 => Some(TextureFormat::Rgb565),
        9 => Some(TextureFormat::R16),
        10 => Some(TextureFormat::Dxt1),
        12 => Some(TextureFormat::Dxt5),
        13 => Some(TextureFormat::RgbA4444),
        14 => Some(TextureFormat::Bgra32),
        15 => Some(TextureFormat::RHalf),
        16 => Some(TextureFormat::RgHalf),
        17 => Some(TextureFormat::RgbaHalf),
        18 => Some(TextureFormat::RFloat),
        19 => Some(TextureFormat::RgFloat),
        20 => Some(TextureFormat::RgbaFloat),
        21 => Some(TextureFormat::Yuy2),
        22 => Some(TextureFormat::Rgb9e5Float),
        24 => Some(TextureFormat::Bc6H),
        25 => Some(TextureFormat::Bc7),
        26 => Some(TextureFormat::Bc4),
        27 => Some(TextureFormat::Bc5),
        28 => Some(TextureFormat::Dxt1Crunched),
        29 => Some(TextureFormat::Dxt5Crunched),
        30 => Some(TextureFormat::PvrtcRgb2),
        31 => Some(TextureFormat::PvrtcRgba2),
        32 => Some(TextureFormat::PvrtcRgb4),
        33 => Some(TextureFormat::PvrtcRgba4),
        34 => Some(TextureFormat::EtcRgb4),
        35 => Some(TextureFormat::AtcRgb4),
        36 => Some(TextureFormat::AtcRgba8),
        41 => Some(TextureFormat::EacR),
        42 => Some(TextureFormat::EacRSigned),
        43 => Some(TextureFormat::EacRg),
        44 => Some(TextureFormat::EacRgSigned),
        45 => Some(TextureFormat::Etc2Rgb),
        46 => Some(TextureFormat::Etc2Rgba1),
        47 => Some(TextureFormat::Etc2Rgba8),
        48 => Some(TextureFormat::AstcRgb4x4),
        49 => Some(TextureFormat::AstcRgb5x5),
        50 => Some(TextureFormat::AstcRgb6x6),
        51 => Some(TextureFormat::AstcRgb8x8),
        52 => Some(TextureFormat::AstcRgb10x10),
        53 => Some(TextureFormat::AstcRgb12x12),
        54 => Some(TextureFormat::AstcRgba4x4),
        55 => Some(TextureFormat::AstcRgba5x5),
        56 => Some(TextureFormat::AstcRgba6x6),
        57 => Some(TextureFormat::AstcRgba8x8),
        58 => Some(TextureFormat::AstcRgba10x10),
        59 => Some(TextureFormat::AstcRgba12x12),
        60 => Some(TextureFormat::EtcRgb43ds),
        61 => Some(TextureFormat::EtcRgba83ds),
        62 => Some(TextureFormat::Rg16),
        63 => Some(TextureFormat::R8),
        64 => Some(TextureFormat::EtcRgb4crunched),
        65 => Some(TextureFormat::Etc2Rgba8crunched),
        66 => Some(TextureFormat::AstcHdr4x4),
        67 => Some(TextureFormat::AstcHdr5x5),
        68 => Some(TextureFormat::AstcHdr6x6),
        69 => Some(TextureFormat::AstcHdr8x8),
        70 => Some(TextureFormat::AstcHdr10x10),
        71 => Some(TextureFormat::AstcHdr12x12),
        _ => None,
    }
}

impl TextureFormat {
    /// Unity's number for this format.
    pub fn code(&self) -> (c: i32)
        ensures
            c == format_code(*self),
    {
        match self {
            TextureFormat::Alpha8 => 1,
            TextureFormat::Argb4444 => 2,
            TextureFormat::Rgb24 => 3,
            TextureFormat::Rgba32 => 4,
            TextureFormat::Argb32 => 5,
            TextureFormat::Rgb565 => 7,
            TextureFormat::R16 => 9,
            TextureFormat::Dxt1 => 10,
            TextureFormat::Dxt5 => 12,
            TextureFormat::RgbA4444 => 13,
            TextureFormat::Bgra32 => 14,
            TextureFormat::RHalf => 15,
            TextureFormat::RgHalf => 16,
            TextureFormat::RgbaHalf => 17,
            TextureFormat::RFloat => 18,
            TextureFormat::RgFloat => 19,
            TextureFormat::RgbaFloat => 20,
            TextureFormat::Yuy2 => 21,
            TextureFormat::Rgb9e5Float => 22,
            TextureFormat::Bc6H => 24,
            TextureFormat::Bc7 => 25,
            TextureFormat::Bc4 => 26,
            TextureFormat::Bc5 => 27,
            TextureFormat::Dxt1Crunched => 28,
            TextureFormat::Dxt5Crunched => 29,
            TextureFormat::PvrtcRgb2 => 30,
            TextureFormat::PvrtcRgba2 => 31,
            TextureFormat::PvrtcRgb4 => 32,
            TextureFormat::PvrtcRgba4 => 33,
            TextureFormat::EtcRgb4 => 34,
            TextureFormat::AtcRgb4 => 35,
            TextureFormat::AtcRgba8 => 36,
            TextureFormat::EacR => 41,
            TextureFormat::EacRSigned => 42,
            TextureFormat::EacRg => 43,
            TextureFormat::EacRgSigned => 44,
            TextureFormat::Etc2Rgb => 45,
            TextureFormat::Etc2Rgba1 => 46,
            TextureFormat::Etc2Rgba8 => 47,
            TextureFormat::AstcRgb4x4 => 48,
            TextureFormat::AstcRgb5x5 => 49,
            TextureFormat::AstcRgb6x6 => 50,
            TextureFormat::AstcRgb8x8 => 51,
            TextureFormat::AstcRgb10x10 => 52,
            TextureFormat::AstcRgb12x12 => 53,
            TextureFormat::AstcRgba4x4 => 54,
            TextureFormat::AstcRgba5x5 => 55,
            TextureFormat::AstcRgba6x6 => 56,
            TextureFormat::AstcRgba8x8 => 57,
            TextureFormat::AstcRgba10x10 => 58,
            TextureFormat::AstcRgba12x12 => 59,
            TextureFormat::EtcRgb43ds => 60,
            TextureFormat::EtcRgba83ds => 61,
            TextureFormat::Rg16 => 62,
            TextureFormat::R8 => 63,
            TextureFormat::EtcRgb4crunched => 64,
            TextureFormat::Etc2Rgba8crunched => 65,
            TextureFormat::AstcHdr4x4 => 66,
            TextureFormat::AstcHdr5x5 => 67,
            TextureFormat::AstcHdr6x6 => 68,
            TextureFormat::AstcHdr8x8 => 69,
            TextureFormat::AstcHdr10x10 => 70,
            TextureFormat::AstcHdr12x12 => 71,
        }
    }

    /// The format that Unity numbers `n`, if any.
    pub fn from_i32(n: i32) -> (f: Option<TextureFormat>)
        ensures
            f == format_of_code(n),
    {
        match n {
            1 => Some(TextureFormat::Alpha8),
            2 => Some(TextureFormat::Argb4444),
            3 => Some(TextureFormat::Rgb24),
            4 => Some(TextureFormat::Rgba32),
            5 => Some(TextureFormat::Argb32),
            7 => Some(TextureFormat::Rgb565),
            9 => Some(TextureFormat::R16),
            10 => Some(TextureFormat::Dxt1),
            12 => Some(TextureFormat::Dxt5),
            13 => Some(TextureFormat::RgbA4444),
            14 => Some(TextureFormat::Bgra32),
            15 => Some(TextureFormat::RHalf),
            16 => Some(TextureFormat::RgHalf),
            17 => Some(TextureFormat::RgbaHalf),
            18 => Some(TextureFormat::RFloat),
            19 => Some(TextureFormat::RgFloat),
            20 => Some(TextureFormat::RgbaFloat),
            21 => Some(TextureFormat::Yuy2),
            22 => Some(TextureFormat::Rgb9e5Float),
            24 => Some(TextureFormat::Bc6H),
            25 => Some(TextureFormat::Bc7),
            26 => Some(TextureFormat::Bc4),
            27 => Some(TextureFormat::Bc5),
            28 => Some(TextureFormat::Dxt1Crunched),
            29 => Some(TextureFormat::Dxt5Crunched),
            30 => Some(TextureFormat::PvrtcRgb2),
            31 => Some(TextureFormat::PvrtcRgba2),
            32 => Some(TextureFormat::PvrtcRgb4),
            33 => Some(TextureFormat::PvrtcRgba4),
            34 => Some(TextureFormat::EtcRgb4),
            35 => Some(TextureFormat::AtcRgb4),
            36 => Some(TextureFormat::AtcRgba8),
            41 => Some(TextureFormat::EacR),
            42 => Some(TextureFormat::EacRSigned),
            43 => Some(TextureFormat::EacRg),
            44 => Some(TextureFormat::EacRgSigned),
            45 => Some(TextureFormat::Etc2Rgb),
            46 => Some(TextureFormat::Etc2Rgba1),
            47 => Some(TextureFormat::Etc2Rgba8),
            48 => Some(TextureFormat::AstcRgb4x4),
            49 => Some(TextureFormat::AstcRgb5x5),
            50 => Some(TextureFormat::AstcRgb6x6),
            51 => Some(TextureFormat::AstcRgb8x8),
            52 => Some(TextureFormat::AstcRgb10x10),
            53 => Some(TextureFormat::AstcRgb12x12),
            54 => Some(TextureFormat::AstcRgba4x4),
            55 => Some(TextureFormat::AstcRgba5x5),
            56 => Some(TextureFormat::AstcRgba6x6),
            57 => Some(TextureFormat::AstcRgba8x8),
            58 => Some(TextureFormat::AstcRgba10x10),
            59 => Some(TextureFormat::AstcRgba12x12),
            60 => Some(TextureFormat::EtcRgb43ds),
            61 => Some(TextureFormat::EtcRgba83ds),
            62 => Some(TextureFormat::Rg16),
            63 => Some(TextureFormat::R8),
            64 => Some(TextureFormat::EtcRgb4crunched),
            65 => Some(TextureFormat::Etc2Rgba8crunched),
            66 => Some(TextureFormat::AstcHdr4x4),
            67 => Some(TextureFormat::AstcHdr5x5),
            68 => Some(TextureFormat::AstcHdr6x6),
            69 => Some(TextureFormat::AstcHdr8x8),
            70 => Some(TextureFormat::AstcHdr10x10),
            71 => Some(TextureFormat::AstcHdr12x12),
            _ => None,
        }
    }
}

/// `ceil(a / b)`, the number of blocks of size `b` that cover `a`.
pub open spec fn blocks(a: usize, b: usize) -> int {
    (a + b - 1) / (b as int)
}

/// The bytes a block decoder needs for a `width` x `height` image of
/// `bw` x `bh` blocks of `size` bytes each.
pub open spec fn need(width: usize, height: usize, bw: usize, bh: usize, size: usize) -> int {
    blocks(width, bw) * blocks(height, bh) * size
}

/// The sizes a decoder can work with: its image and its input both fit
/// the address space.
pub open spec fn sizes_fit(width: usize, height: usize, bw: usize, bh: usize, size: usize) -> bool {
    width * height <= usize::MAX && need(width, height, bw, bh, size) <= usize::MAX
}

/// The result of a decoder: the pixels when the data was long enough.
pub open spec fn decoded(r: Option<Vec<u32>>, ok: bool, pixels: Seq<u32>, width: usize, height: usize) -> bool {
    match r {
        Some(px) => ok && px@ == pixels && px@.len() == width * height,
        None => !ok,
    }
}

/// The pixels (`0xAARRGGBB`) that `texture2ddecoder::decode_atc_rgb4` decodes from
/// `data` for a `width` x `height` image.
pub uninterp spec fn atc_rgb4_pixels(data: Seq<u8>, width: usize, height: usize) -> Seq<u32>;

/// Decodes ATC RGB (4x4 blocks of 8 bytes) with `texture2ddecoder::decode_atc_rgb4`.
///
/// Trusted: the decoder fails exactly when `data` is shorter than the
/// blocks that cover the image; otherwise it fills all `width * height`
/// pixels, as its source shows. Which pixels is left to the decoder.
#[verifier::external_body]
fn decode_atc_rgb4(data: &[u8], width: usize, height: usize) -> (r: Option<Vec<u32>>)
    requires
        sizes_fit(width, height, 4, 4, 8),
    ensures
        decoded(r, data@.len() >= need(width, height, 4, 4, 8), atc_rgb4_pixels(data@, width, height), width, height),
{
    let mut image = vec![0u32; width * height];
    match texture2ddecoder::decode_atc_rgb4(data, width, height, &mut image) {
        Ok(()) => Some(image),
        Err(_) => None,
    }
}

/// The pixels (`0xAARRGGBB`) that `texture2ddecoder::decode_atc_rgba8` decodes from
/// `data` for a `width` x `height` image.
pub uninterp spec fn atc_rgba8_pixels(data: Seq<u8>, width: usize, height: usize) -> Seq<u32>;

/// Decodes ATC RGBA (4x4 blocks of 16 bytes) with `texture2ddecoder::decode_atc_rgba8`.
///
/// Trusted: the decoder fails exactly when `data` is shorter than the
/// blocks that cover the image; otherwise it fills all `width * height`
/// pixels, as its source shows. Which pixels is left to the decoder.
#[verifier::external_body]
fn decode_atc_rgba8(data: &[u8], width: usize, height: usize) -> (r: Option<Vec<u32>>)
    requires
        sizes_fit(width, height, 4, 4, 16),
    ensures
        decoded(r, data@.len() >= need(width, height, 4, 4, 16), atc_rgba8_pixels(data@, width, height), width, height),
{
    let mut image = vec![0u32; width * height];
    match texture2ddecoder::decode_atc_rgba8(data, width, height, &mut image) {
        Ok(()) => Some(image),
        Err(_) => None,
    }
}

/// The pixels (`0xAARRGGBB`) that `texture2ddecoder::decode_bc1` decodes from
/// `data` for a `width` x `height` image.
pub uninterp spec fn bc1_pixels(data: Seq<u8>, width: usize, height: usize) -> Seq<u32>;

/// Decodes BC1 (4x4 blocks of 8 bytes) with `texture2ddecoder::decode_bc1`.
///
/// Trusted: the decoder fails exactly when `data` is shorter than the
/// blocks that cover the image; otherwise it fills all `width * height`
/// pixels, as its source shows. Which pixels is left to the decoder.
#[verifier::external_body]
fn decode_bc1(data: &[u8], width: usize, height: usize) -> (r: Option<Vec<u32>>)
    requires
        sizes_fit(width, height, 4, 4, 8),
    ensures
        decoded(r, data@.len() >= need(width, height, 4, 4, 8), bc1_pixels(data@, width, height), width, height),
{
    let mut image = vec![0u32; width * height];
    match texture2ddecoder::decode_bc1(data, width, height, &mut image) {
        Ok(()) => Some(image),
        Err(_) => None,
    }
}

/// The pixels (`0xAARRGGBB`) that `texture2ddecoder::decode_bc3` decodes from
/// `data` for a `width` x `height` image.
pub uninterp spec fn bc3_pixels(data: Seq<u8>, width: usize, height: usize) -> Seq<u32>;

/// Decodes BC3 (4x4 blocks of 16 bytes) with `texture2ddecoder::decode_bc3`.
///
/// Trusted: the decoder fails exactly when `data` is shorter than the
/// blocks that cover the image; otherwise it fills all `width * height`
/// pixels, as its source shows. Which pixels is left to the decoder.
#[verifier::external_body]
fn decode_bc3(data: &[u8], width: usize, height: usize) -> (r: Option<Vec<u32>>)
    requires
        sizes_fit(width, height, 4, 4, 16),
    ensures
        decoded(r, data@.len() >= need(width, height, 4, 4, 16), bc3_pixels(data@, width, height), width, height),
{
    let mut image = vec![0u32; width * height];
    match texture2ddecoder::decode_bc3(data, width, height, &mut image) {
        Ok(()) => Some(image),
        Err(_) => None,
    }
}

/// The pixels (`0xAARRGGBB`) that `texture2ddecoder::decode_bc4` decodes from
/// `data` for a `width` x `height` image.
pub uninterp spec fn bc4_pixels(data: Seq<u8>, width: usize, height: usize) -> Seq<u32>;

/// Decodes BC4 (4x4 blocks of 8 bytes) with `texture2ddecoder::decode_bc4`.
///
/// Trusted: the decoder fails exactly when `data` is shorter than the
/// blocks that cover the image; otherwise it fills all `width * height`
/// pixels, as its source shows. Which pixels is left to the decoder.
#[verifier::external_body]
fn decode_bc4(data: &[u8], width: usize, height: usize) -> (r: Option<Vec<u32>>)
    requires
        sizes_fit(width, height, 4, 4, 8),
    ensures
        decoded(r, data@.len() >= need(width, height, 4, 4, 8), bc4_pixels(data@, width, height), width, height),
{
    let mut image = vec![0u32; width * height];
    match texture2ddecoder::decode_bc4(data, width, height, &mut image) {
        Ok(()) => Some(image),
        Err(_) => None,
    }
}

/// The pixels (`0xAARRGGBB`) that `texture2ddecoder::decode_bc5` decodes from
/// `data` for a `width` x `height` image.
pub uninterp spec fn bc5_pixels(data: Seq<u8>, width: usize, height: usize) -> Seq<u32>;

/// Decodes BC5 (4x4 blocks of 16 bytes) with `texture2ddecoder::decode_bc5`.
///
/// Trusted: the decoder fails exactly when `data` is shorter than the
/// blocks that cover the image; otherwise it fills all `width * height`
/// pixels, as its source shows. Which pixels is left to the decoder.
#[verifier::external_body]
fn decode_bc5(data: &[u8], width: usize, height: usize) -> (r: Option<Vec<u32>>)
    requires
        sizes_fit(width, height, 4, 4, 16),
    ensures
        decoded(r, data@.len() >= need(width, height, 4, 4, 16), bc5_pixels(data@, width, height), width, height),
{
    let mut image = vec![0u32; width * height];
    match texture2ddecoder::decode_bc5(data, width, height, &mut image) {
        Ok(()) => Some(image),
        Err(_) => None,
    }
}

/// The pixels (`0xAARRGGBB`) that `texture2ddecoder::decode_bc6_unsigned` decodes from
/// `data` for a `width` x `height` image.
pub uninterp spec fn bc6_unsigned_pixels(data: Seq<u8>, width: usize, height: usize) -> Seq<u32>;

/// Decodes unsigned BC6H (4x4 blocks of 16 bytes) with `texture2ddecoder::decode_bc6_unsigned`.
///
/// Trusted: the decoder fails exactly when `data` is shorter than the
/// blocks that cover the image; otherwise it fills all `width * height`
/// pixels, as its source shows. Which pixels is left to the decoder.
#[verifier::external_body]
fn decode_bc6_unsigned(data: &[u8], width: usize, height: usize) -> (r: Option<Vec<u32>>)
    requires
        sizes_fit(width, height, 4, 4, 16),
    ensures
        decoded(r, data@.len() >= need(width, height, 4, 4, 16), bc6_unsigned_pixels(data@, width, height), width, height),
{
    let mut image = vec![0u32; width * height];
    match texture2ddecoder::decode_bc6_unsigned(data, width, height, &mut image) {
        Ok(()) => Some(image),
        Err(_) => None,
    }
}

/// The pixels (`0xAARRGGBB`) that `texture2ddecoder::decode_bc7` decodes from
/// `data` for a `width` x `height` image.
pub uninterp spec fn bc7_pixels(data: Seq<u8>, width: usize, height: usize) -> Seq<u32>;

/// Decodes BC7 (4x4 blocks of 16 bytes) with `texture2ddecoder::decode_bc7`.
///
/// Trusted: the decoder fails exactly when `data` is shorter than the
/// blocks that cover the image; otherwise it fills all `width * height`
/// pixels, as its source shows. Which pixels is left to the decoder.
#[verifier::external_body]
fn decode_bc7(data: &[u8], width: usize, height: usize) -> (r: Option<Vec<u32>>)
    requires
        sizes_fit(width, height, 4, 4, 16),
    ensures
        decoded(r, data@.len() >= need(width, height, 4, 4, 16), bc7_pixels(data@, width, height), width, height),
{
    let mut image = vec![0u32; width * height];
    match texture2ddecoder::decode_bc7(data, width, height, &mut image) {
        Ok(()) => Some(image),
        Err(_) => None,
    }
}

/// The pixels (`0xAARRGGBB`) that `texture2ddecoder::decode_eacr` decodes from
/// `data` for a `width` x `height` image.
pub uninterp spec fn eacr_pixels(data: Seq<u8>, width: usize, height: usize) -> Seq<u32>;

/// Decodes EAC R11 (4x4 blocks of 8 bytes) with `texture2ddecoder::decode_eacr`.
///
/// Trusted: the decoder fails exactly when `data` is shorter than the
/// blocks that cover the image; otherwise it fills all `width * height`
/// pixels, as its source shows. Which pixels is left to the decoder.
#[verifier::external_body]
fn decode_eacr(data: &[u8], width: usize, height: usize) -> (r: Option<Vec<u32>>)
    requires
        sizes_fit(width, height, 4, 4, 8),
    ensures
        decoded(r, data@.len() >= need(width, height, 4, 4, 8), eacr_pixels(data@, width, height), width, height),
{
    let mut image = vec![0u32; width * height];
    match texture2ddecoder::decode_eacr(data, width, height, &mut image) {
        Ok(()) => Some(image),
        Err(_) => None,
    }
}

/// The pixels (`0xAARRGGBB`) that `texture2ddecoder::decode_eacr_signed` decodes from
/// `data` for a `width` x `height` image.
pub uninterp spec fn eacr_signed_pixels(data: Seq<u8>, width: usize, height: usize) -> Seq<u32>;

/// Decodes signed EAC R11 (4x4 blocks of 8 bytes) with `texture2ddecoder::decode_eacr_signed`.
///
/// Trusted: the decoder fails exactly when `data` is shorter than the
/// blocks that cover the image; otherwise it fills all `width * height`
/// pixels, as its source shows. Which pixels is left to the decoder.
#[verifier::external_body]
fn decode_eacr_signed(data: &[u8], width: usize, height: usize) -> (r: Option<Vec<u32>>)
    requires
        sizes_fit(width, height, 4, 4, 8),
    ensures
        decoded(r, data@.len() >= need(width, height, 4, 4, 8), eacr_signed_pixels(data@, width, height), width, height),
{
    let mut image = vec![0u32; width * height];
    match texture2ddecoder::decode_eacr_signed(data, width, height, &mut image) {
        Ok(()) => Some(image),
        Err(_) => None,
    }
}

/// The pixels (`0xAARRGGBB`) that `texture2ddecoder::decode_eacrg` decodes from
/// `data` for a `width` x `height` image.
pub uninterp spec fn eacrg_pixels(data: Seq<u8>, width: usize, height: usize) -> Seq<u32>;

/// Decodes EAC RG11 (4x4 blocks of 16 bytes) with `texture2ddecoder::decode_eacrg`.
///
/// Trusted: the decoder fails exactly when `data` is shorter than the
/// blocks that cover the image; otherwise it fills all `width * height`
/// pixels, as its source shows. Which pixels is left to the decoder.
#[verifier::external_body]
fn decode_eacrg(data: &[u8], width: usize, height: usize) -> (r: Option<Vec<u32>>)
    requires
        sizes_fit(width, height, 4, 4, 16),
    ensures
        decoded(r, data@.len() >= need(width, height, 4, 4, 16), eacrg_pixels(data@, width, height), width, height),
{
    let mut image = vec![0u32; width * height];
    match texture2ddecoder::decode_eacrg(data, width, height, &mut image) {
        Ok(()) => Some(image),
        Err(_) => None,
    }
}

/// The pixels (`0xAARRGGBB`) that `texture2ddecoder::decode_eacrg_signed` decodes from
/// `data` for a `width` x `height` image.
pub uninterp spec fn eacrg_signed_pixels(data: Seq<u8>, width: usize, height: usize) -> Seq<u32>;

/// Decodes signed EAC RG11 (4x4 blocks of 16 bytes) with `texture2ddecoder::decode_eacrg_signed`.
///
/// Trusted: the decoder fails exactly when `data` is shorter than the
/// blocks that cover the image; otherwise it fills all `width * height`
/// pixels, as its source shows. Which pixels is left to the decoder.
#[verifier::external_body]
fn decode_eacrg_signed(data: &[u8], width: usize, height: usize) -> (r: Option<Vec<u32>>)
    requires
        sizes_fit(width, height, 4, 4, 16),
    ensures
        decoded(r, data@.len() >= need(width, height, 4, 4, 16), eacrg_signed_pixels(data@, width, height), width, height),
{
    let mut image = vec![0u32; width * height];
    match texture2ddecoder::decode_eacrg_signed(data, width, height, &mut image) {
        Ok(()) => Some(image),
        Err(_) => None,
    }
}

/// The pixels (`0xAARRGGBB`) that `texture2ddecoder::decode_etc1` decodes from
/// `data` for a `width` x `height` image.
pub uninterp spec fn etc1_pixels(data: Seq<u8>, width: usize, height: usize) -> Seq<u32>;

/// Decodes ETC1 (4x4 blocks of 8 bytes) with `texture2ddecoder::decode_etc1`.
///
/// Trusted: the decoder fails exactly when `data` is shorter than the
/// blocks that cover the image; otherwise it fills all `width * height`
/// pixels, as its source shows. Which pixels is left to the decoder.
#[verifier::external_body]
fn decode_etc1(data: &[u8], width: usize, height: usize) -> (r: Option<Vec<u32>>)
    requires
        sizes_fit(width, height, 4, 4, 8),
    ensures
        decoded(r, data@.len() >= need(width, height, 4, 4, 8), etc1_pixels(data@, width, height), width, height),
{
    let mut image = vec![0u32; width * height];
    match texture2ddecoder::decode_etc1(data, width, height, &mut image) {
        Ok(()) => Some(image),
        Err(_) => None,
    }
}

/// The pixels (`0xAARRGGBB`) that `texture2ddecoder::decode_etc2_rgb` decodes from
/// `data` for a `width` x `height` image.
pub uninterp spec fn etc2_rgb_pixels(data: Seq<u8>, width: usize, height: usize) -> Seq<u32>;

/// Decodes ETC2 RGB (4x4 blocks of 8 bytes) with `texture2ddecoder::decode_etc2_rgb`.
///
/// Trusted: the decoder fails exactly when `data` is shorter than the
/// blocks that cover the image; otherwise it fills all `width * height`
/// pixels, as its source shows. Which pixels is left to the decoder.
#[verifier::external_body]
fn decode_etc2_rgb(data: &[u8], width: usize, height: usize) -> (r: Option<Vec<u32>>)
    requires
        sizes_fit(width, height, 4, 4, 8),
    ensures
        decoded(r, data@.len() >= need(width, height, 4, 4, 8), etc2_rgb_pixels(data@, width, height), width, height),
{
    let mut image = vec![0u32; width * height];
    match texture2ddecoder::decode_etc2_rgb(data, width, height, &mut image) {
        Ok(()) => Some(image),
        Err(_) => None,
    }
}

/// The pixels (`0xAARRGGBB`) that `texture2ddecoder::decode_etc2_rgba1` decodes from
/// `data` for a `width` x `height` image.
pub uninterp spec fn etc2_rgba1_pixels(data: Seq<u8>, width: usize, height: usize) -> Seq<u32>;

/// Decodes ETC2 RGB with 1-bit alpha (4x4 blocks of 8 bytes) with `texture2ddecoder::decode_etc2_rgba1`.
///
/// Trusted: the decoder fails exactly when `data` is shorter than the
/// blocks that cover the image; otherwise it fills all `width * height`
/// pixels, as its source shows. Which pixels is left to the decoder.
#[verifier::external_body]
fn decode_etc2_rgba1(data: &[u8], width: usize, height: usize) -> (r: Option<Vec<u32>>)
    requires
        sizes_fit(width, height, 4, 4, 8),
    ensures
        decoded(r, data@.len() >= need(width, height, 4, 4, 8), etc2_rgba1_pixels(data@, width, height), width, height),
{
    let mut image = vec![0u32; width * height];
    match texture2ddecoder::decode_etc2_rgba1(data, width, height, &mut image) {
        Ok(()) => Some(image),
        Err(_) => None,
    }
}

/// The pixels (`0xAARRGGBB`) that `texture2ddecoder::decode_etc2_rgba8` decodes from
/// `data` for a `width` x `height` image.
pub uninterp spec fn etc2_rgba8_pixels(data: Seq<u8>, width: usize, height: usize) -> Seq<u32>;

/// Decodes ETC2 RGBA (4x4 blocks of 16 bytes) with `texture2ddecoder::decode_etc2_rgba8`.
///
/// Trusted: the decoder fails exactly when `data` is shorter than the
/// blocks that cover the image; otherwise it fills all `width * height`
/// pixels, as its source shows. Which pixels is left to the decoder.
#[verifier::external_body]
fn decode_etc2_rgba8(data: &[u8], width: usize, height: usize) -> (r: Option<Vec<u32>>)
    requires
        sizes_fit(width, height, 4, 4, 16),
    ensures
        decoded(r, data@.len() >= need(width, height, 4, 4, 16), etc2_rgba8_pixels(data@, width, height), width, height),
{
    let mut image = vec![0u32; width * height];
    match texture2ddecoder::decode_etc2_rgba8(data, width, height, &mut image) {
        Ok(()) => Some(image),
        Err(_) => None,
    }
}

/// The pixels (`0xAARRGGBB`) that `texture2ddecoder::decode_astc` decodes
/// from `data` for a `width` x `height` image of `bw` x `bh` blocks.
pub uninterp spec fn astc_pixels(data: Seq<u8>, width: usize, height: usize, bw: usize, bh: usize) -> Seq<u32>;

/// Decodes ASTC (`bw` x `bh` blocks of 16 bytes) with
/// `texture2ddecoder::decode_astc`.
///
/// Trusted: the decoder fails exactly when `data` is shorter than the
/// blocks that cover the image, and otherwise fills all `width * height`
/// pixels. It is only called on data whose blocks `astc_block_ok`
/// accepts: on other blocks its header arithmetic in `decode_block_params`
/// underflows (`128 - config_bits - weight_bits`), its weight-grid
/// interpolation indexes past its 128 weight slots, or its endpoint reads
/// run past the block. Which pixels it decodes is left to the decoder.
#[verifier::external_body]
fn decode_astc(data: &[u8], width: usize, height: usize, bw: usize, bh: usize) -> (r: Option<Vec<u32>>)
    requires
        4 <= bw <= 12,
        4 <= bh <= 12,
        sizes_fit(width, height, bw, bh, 16),
        data@.len() >= need(width, height, bw, bh, 16) ==> astc_blocks_ok(data@, blocks(width, bw) * blocks(height, bh)),
    ensures
        decoded(r, data@.len() >= need(width, height, bw, bh, 16), astc_pixels(data@, width, height, bw, bh), width, height),
{
    let mut image = vec![0u32; width * height];
    match texture2ddecoder::decode_astc(data, width, height, bw, bh, &mut image) {
        Ok(()) => Some(image),
        Err(_) => None,
    }
}

/// Whether PVRTC data of `len` bytes can be decoded to a `width` x
/// `height` image: it holds the 8 bytes that the decoder reads for each
/// block, and the numbers of blocks across and down are powers of two.
pub open spec fn pvrtc_ok(len: nat, width: usize, height: usize, two_bpp: bool) -> bool {
    let bw: usize = if two_bpp { 8 } else { 4 };
    let nx = blocks(width, bw) as usize;
    let ny = blocks(height, 4) as usize;
    &&& len >= need(width, height, bw, 4, 8)
    &&& nx & ((nx - 1) as usize) == 0
    &&& ny & ((ny - 1) as usize) == 0
}

/// The pixels (`0xAARRGGBB`) that `texture2ddecoder::decode_pvrtc` decodes
/// from `data` for a `width` x `height` image.
pub uninterp spec fn pvrtc_pixels(data: Seq<u8>, width: usize, height: usize, two_bpp: bool) -> Seq<u32>;

/// Decodes PVRTC (2 or 4 bits per pixel) with
/// `texture2ddecoder::decode_pvrtc`.
///
/// Trusted: given the 8 bytes per block that the decoder reads (its own
/// length test asks only 4 per block at 4 bits per pixel, and shorter data
/// makes it index past the end), it fails exactly when the block counts
/// are not powers of two; otherwise it fills all `width * height` pixels.
/// Which pixels is left to the decoder.
#[verifier::external_body]
fn decode_pvrtc(data: &[u8], width: usize, height: usize, two_bpp: bool) -> (r: Option<Vec<u32>>)
    requires
        width > 0,
        height > 0,
        sizes_fit(width, height, if two_bpp { 8 } else { 4 }, 4, if two_bpp { 8 } else { 4 }),
        data@.len() >= need(width, height, if two_bpp { 8 } else { 4 }, 4, 8),
    ensures
        decoded(r, pvrtc_ok(data@.len(), width, height, two_bpp), pvrtc_pixels(data@, width, height, two_bpp), width, height),
{
    let mut image = vec![0u32; width * height];
    match texture2ddecoder::decode_pvrtc(data, width, height, &mut image, two_bpp) {
        Ok(()) => Some(image),
        Err(_) => None,
    }
}


/// Which decoder a texture format goes to.
#[derive(Debug, Clone, Copy, PartialEq, Eq, Structural)]
pub enum Decoder {
    AtcRgb4,
    AtcRgba8,
    /// ASTC with the given block width and height.
    Astc(usize, usize),
    Bc1,
    Bc3,
    Bc4,
    Bc5,
    Bc6Unsigned,
    Bc7,
    EacR,
    EacRSigned,
    EacRg,
    EacRgSigned,
    Etc1,
    Etc2Rgb,
    Etc2Rgba1,
    Etc2Rgba8,
    /// PVRTC, 2 bits per pixel if `true`, else 4.
    Pvrtc(bool),
    /// One byte of alpha per pixel, kept as it is.
    Alpha8,
    /// A format that is not decoded.
    Unsupported,
}

/// The decoder of each texture format; crunched formats go to the decoder
/// of their uncrunched form.
pub open spec fn decoder_of(f: TextureFormat) -> Decoder {
    match f {
        TextureFormat::AtcRgba8 => Decoder::AtcRgba8,
        TextureFormat::AtcRgb4 => Decoder::AtcRgb4,
        TextureFormat::AstcRgb4x4 | TextureFormat::AstcRgba4x4 | TextureFormat::AstcHdr4x4 => Decoder::Astc(4, 4),
        TextureFormat::AstcRgb5x5 | TextureFormat::AstcRgba5x5 | TextureFormat::AstcHdr5x5 => Decoder::Astc(5, 5),
        TextureFormat::AstcRgb6x6 | TextureFormat::AstcRgba6x6 | TextureFormat::AstcHdr6x6 => Decoder::Astc(6, 6),
        TextureFormat::AstcRgb8x8 | TextureFormat::AstcRgba8x8 | TextureFormat::AstcHdr8x8 => Decoder::Astc(8, 8),
        TextureFormat::AstcRgb10x10 | TextureFormat::AstcRgba10x10 | TextureFormat::AstcHdr10x10 => Decoder::Astc(10, 10),
        TextureFormat::AstcRgb12x12 | TextureFormat::AstcRgba12x12 | TextureFormat::AstcHdr12x12 => Decoder::Astc(12, 12),
        TextureFormat::Dxt1 | TextureFormat::Dxt1Crunched => Decoder::Bc1,
        TextureFormat::Dxt5 | TextureFormat::Dxt5Crunched => Decoder::Bc3,
        TextureFormat::Bc4 => Decoder::Bc4,
        TextureFormat::Bc5 => Decoder::Bc5,
        TextureFormat::Bc6H => Decoder::Bc6Unsigned,
        TextureFormat::Bc7 => Decoder::Bc7,
        TextureFormat::EacR => Decoder::EacR,
        TextureFormat::EacRg => Decoder::EacRg,
        TextureFormat::EacRgSigned => Decoder::EacRgSigned,
        TextureFormat::EacRSigned => Decoder::EacRSigned,
        TextureFormat::EtcRgb4 | TextureFormat::EtcRgb43ds | TextureFormat::EtcRgba83ds
        | TextureFormat::EtcRgb4crunched => Decoder::Etc1,
        TextureFormat::Etc2Rgb => Decoder::Etc2Rgb,
        TextureFormat::Etc2Rgba1 => Decoder::Etc2Rgba1,
        TextureFormat::Etc2Rgba8 | TextureFormat::Etc2Rgba8crunched => Decoder::Etc2Rgba8,
        TextureFormat::PvrtcRgb2 | TextureFormat::PvrtcRgba2 => Decoder::Pvrtc(true),
        TextureFormat::PvrtcRgb4 | TextureFormat::PvrtcRgba4 => Decoder::Pvrtc(false),
        TextureFormat::Alpha8 => Decoder::Alpha8,
        _ => Decoder::Unsupported,
    }
}

/// The decoder of a texture format.
pub fn decoder_for(f: TextureFormat) -> (d: Decoder)
    ensures
        d == decoder_of(f),
{
    match f {
        TextureFormat::AtcRgba8 => Decoder::AtcRgba8,
        TextureFormat::AtcRgb4 => Decoder::AtcRgb4,
        TextureFormat::AstcRgb4x4 | TextureFormat::AstcRgba4x4 | TextureFormat::AstcHdr4x4 => Decoder::Astc(4, 4),
        TextureFormat::AstcRgb5x5 | TextureFormat::AstcRgba5x5 | TextureFormat::AstcHdr5x5 => Decoder::Astc(5, 5),
        TextureFormat::AstcRgb6x6 | TextureFormat::AstcRgba6x6 | TextureFormat::AstcHdr6x6 => Decoder::Astc(6, 6),
        TextureFormat::AstcRgb8x8 | TextureFormat::AstcRgba8x8 | TextureFormat::AstcHdr8x8 => Decoder::Astc(8, 8),
        TextureFormat::AstcRgb10x10 | TextureFormat::AstcRgba10x10 | TextureFormat::AstcHdr10x10 => Decoder::Astc(10, 10),
        TextureFormat::AstcRgb12x12 | TextureFormat::AstcRgba12x12 | TextureFormat::AstcHdr12x12 => Decoder::Astc(12, 12),
        TextureFormat::Dxt1 | TextureFormat::Dxt1Crunched => Decoder::Bc1,
        TextureFormat::Dxt5 | TextureFormat::Dxt5Crunched => Decoder::Bc3,
        TextureFormat::Bc4 => Decoder::Bc4,
        TextureFormat::Bc5 => Decoder::Bc5,
        TextureFormat::Bc6H => Decoder::Bc6Unsigned,
        TextureFormat::Bc7 => Decoder::Bc7,
        TextureFormat::EacR => Decoder::EacR,
        TextureFormat::EacRg => Decoder::EacRg,
        TextureFormat::EacRgSigned => Decoder::EacRgSigned,
        TextureFormat::EacRSigned => Decoder::EacRSigned,
        TextureFormat::EtcRgb4 | TextureFormat::EtcRgb43ds | TextureFormat::EtcRgba83ds
        | TextureFormat::EtcRgb4crunched => Decoder::Etc1,
        TextureFormat::Etc2Rgb => Decoder::Etc2Rgb,
        TextureFormat::Etc2Rgba1 => Decoder::Etc2Rgba1,
        TextureFormat::Etc2Rgba8 | TextureFormat::Etc2Rgba8crunched => Decoder::Etc2Rgba8,
        TextureFormat::PvrtcRgb2 | TextureFormat::PvrtcRgba2 => Decoder::Pvrtc(true),
        TextureFormat::PvrtcRgb4 | TextureFormat::PvrtcRgba4 => Decoder::Pvrtc(false),
        TextureFormat::Alpha8 => Decoder::Alpha8,
        _ => Decoder::Unsupported,
    }
}

/// The formats whose 16-bit words are stored byte-swapped (as on the
/// Xbox 360) and are swapped back before decoding.
pub open spec fn swaps_bytes(f: TextureFormat) -> bool {
    f == TextureFormat::Rgb565 || f == TextureFormat::Dxt1 || f == TextureFormat::Dxt1Crunched
        || f == TextureFormat::Dxt5 || f == TextureFormat::Dxt5Crunched
}

/// `d` with the two bytes of each whole 16-bit word exchanged; a last odd
/// byte stays.
pub open spec fn swap_pairs(d: Seq<u8>) -> Seq<u8> {
    Seq::new(d.len(), |k: int| if k < d.len() / 2 * 2 {
        if k % 2 == 0 { d[k + 1] } else { d[k - 1] }
    } else {
        d[k]
    })
}

/// The data a decoder gets for format `f`.
pub open spec fn decoder_input(d: Seq<u8>, f: TextureFormat) -> Seq<u8> {
    if swaps_bytes(f) { swap_pairs(d) } else { d }
}

/// The sizes with which decoder `dec` neither overflows nor panics: its
/// data fits the address space, the image's pixels are indexed in 32
/// bits, and PVRTC images are not empty.
pub open spec fn decoder_fits(dec: Decoder, width: usize, height: usize) -> bool {
    let pixels = width <= u32::MAX && height <= u32::MAX && width * height <= u32::MAX
        && width * height * 4 <= usize::MAX;
    match dec {
        Decoder::AtcRgb4 | Decoder::Bc1 | Decoder::Bc4 | Decoder::EacR | Decoder::EacRSigned
        | Decoder::Etc1 | Decoder::Etc2Rgb | Decoder::Etc2Rgba1 => pixels && sizes_fit(width, height, 4, 4, 8),
        Decoder::AtcRgba8 | Decoder::Bc3 | Decoder::Bc5 | Decoder::Bc6Unsigned | Decoder::Bc7
        | Decoder::EacRg | Decoder::EacRgSigned | Decoder::Etc2Rgba8 => pixels && sizes_fit(width, height, 4, 4, 16),
        Decoder::Astc(bw, bh) => pixels && 4 <= bw <= 12 && 4 <= bh <= 12 && sizes_fit(width, height, bw, bh, 16),
        Decoder::Pvrtc(two) => pixels && width > 0 && height > 0
            && sizes_fit(width, height, if two { 8 } else { 4 }, 4, if two { 8 } else { 4 }),
        Decoder::Alpha8 | Decoder::Unsupported => true,
    }
}

/// What a compressed-format decoder gives for `input`: the pixels, or
/// `None` if the data does not fit the image.
pub open spec fn decoder_pixels(dec: Decoder, input: Seq<u8>, width: usize, height: usize) -> Option<Seq<u32>> {
    let n8 = input.len() >= need(width, height, 4, 4, 8);
    let n16 = input.len() >= need(width, height, 4, 4, 16);
    match dec {
        Decoder::AtcRgb4 => if n8 { Some(atc_rgb4_pixels(input, width, height)) } else { None },
        Decoder::AtcRgba8 => if n16 { Some(atc_rgba8_pixels(input, width, height)) } else { None },
        Decoder::Astc(bw, bh) => if input.len() >= need(width, height, bw, bh, 16)
            && astc_blocks_ok(input, blocks(width, bw) * blocks(height, bh)) {
            Some(astc_pixels(input, width, height, bw, bh))
        } else {
            None
        },
        Decoder::Bc1 => if n8 { Some(bc1_pixels(input, width, height)) } else { None },
        Decoder::Bc3 => if n16 { Some(bc3_pixels(input, width, height)) } else { None },
        Decoder::Bc4 => if n8 { Some(bc4_pixels(input, width, height)) } else { None },
        Decoder::Bc5 => if n16 { Some(bc5_pixels(input, width, height)) } else { None },
        Decoder::Bc6Unsigned => if n16 { Some(bc6_unsigned_pixels(input, width, height)) } else { None },
        Decoder::Bc7 => if n16 { Some(bc7_pixels(input, width, height)) } else { None },
        Decoder::EacR => if n8 { Some(eacr_pixels(input, width, height)) } else { None },
        Decoder::EacRSigned => if n8 { Some(eacr_signed_pixels(input, width, height)) } else { None },
        Decoder::EacRg => if n16 { Some(eacrg_pixels(input, width, height)) } else { None },
        Decoder::EacRgSigned => if n16 { Some(eacrg_signed_pixels(input, width, height)) } else { None },
        Decoder::Etc1 => if n8 { Some(etc1_pixels(input, width, height)) } else { None },
        Decoder::Etc2Rgb => if n8 { Some(etc2_rgb_pixels(input, width, height)) } else { None },
        Decoder::Etc2Rgba1 => if n8 { Some(etc2_rgba1_pixels(input, width, height)) } else { None },
        Decoder::Etc2Rgba8 => if n16 { Some(etc2_rgba8_pixels(input, width, height)) } else { None },
        Decoder::Pvrtc(two) => if pvrtc_ok(input.len(), width, height, two) {
            Some(pvrtc_pixels(input, width, height, two))
        } else {
            None
        },
        Decoder::Alpha8 | Decoder::Unsupported => None,
    }
}

/// Byte `c` (0 red, 1 green, 2 blue, 3 alpha) of an `0xAARRGGBB` pixel.
pub open spec fn channel(p: u32, c: int) -> u8 {
    if c == 0 {
        ((p >> 16u32) & 0xffu32) as u8
    } else if c == 1 {
        ((p >> 8u32) & 0xffu32) as u8
    } else if c == 2 {
        (p & 0xffu32) as u8
    } else {
        (p >> 24u32) as u8
    }
}

/// `0xAARRGGBB` pixels as RGBA bytes, four per pixel.
pub open spec fn rgba_bytes(px: Seq<u32>) -> Seq<u8> {
    Seq::new(px.len() * 4, |k: int| channel(px[k / 4], k % 4))
}

/// `blocks(a, b)`, computed without overflow.
fn blocks_of(a: usize, b: usize) -> (r: usize)
    requires
        b > 0,
    ensures
        r == blocks(a, b),
{
    let q = a / b;
    let rem = a % b;
    assert(a == b * q + rem && 0 <= rem < b) by (nonlinear_arith)
        requires
            b > 0,
            q == a / b,
            rem == a % b,
    ;
    if rem == 0 {
        assert(q == blocks(a, b)) by (nonlinear_arith)
            requires
                b > 0,
                a == b * q,
        ;
        q
    } else {
        assert(q < a) by (nonlinear_arith)
            requires
                b > 0,
                a == b * q + rem,
                rem > 0,
                q >= 0,
        ;
        assert(q + 1 == blocks(a, b)) by (nonlinear_arith)
            requires
                b > 0,
                a == b * q + rem,
                0 < rem < b,
        ;
        q + 1
    }
}

/// The bytes a block decoder needs, or `None` where they do not fit in a
/// `usize`.
fn checked_need(width: usize, height: usize, bw: usize, bh: usize, size: usize) -> (r: Option<usize>)
    requires
        bw > 0,
        bh > 0,
        size > 0,
    ensures
        match r {
            Some(n) => n == need(width, height, bw, bh, size),
            None => need(width, height, bw, bh, size) > usize::MAX,
        },
{
    let bx = blocks_of(width, bw);
    let by = blocks_of(height, bh);
    match bx.checked_mul(by) {
        None => {
            assert(bx * by * size >= bx * by) by (nonlinear_arith)
                requires
                    size > 0,
                    bx >= 0,
                    by >= 0,
            ;
            None
        },
        Some(p) => p.checked_mul(size),
    }
}

/// Whether `decode_texture` can be called for a `width` x `height`
/// texture of `format`: the pixel count fits, and the decoder of the
/// format can work with the sizes.
pub fn texture_fits(format: TextureFormat, width: usize, height: usize) -> (r: bool)
    ensures
        r == (width * height <= usize::MAX && decoder_fits(decoder_of(format), width, height)),
{
    let area = match width.checked_mul(height) {
        None => return false,
        Some(a) => a,
    };
    let dec = decoder_for(format);
    match dec {
        Decoder::Alpha8 | Decoder::Unsupported => return true,
        _ => {},
    }
    let limit: usize = 0xffff_ffff;
    if width > limit || height > limit || area > limit {
        return false;
    }
    if area.checked_mul(4).is_none() {
        return false;
    }
    match dec {
        Decoder::AtcRgb4 | Decoder::Bc1 | Decoder::Bc4 | Decoder::EacR | Decoder::EacRSigned
        | Decoder::Etc1 | Decoder::Etc2Rgb | Decoder::Etc2Rgba1 => checked_need(width, height, 4, 4, 8).is_some(),
        Decoder::AtcRgba8 | Decoder::Bc3 | Decoder::Bc5 | Decoder::Bc6Unsigned | Decoder::Bc7
        | Decoder::EacRg | Decoder::EacRgSigned | Decoder::Etc2Rgba8 => checked_need(width, height, 4, 4, 16).is_some(),
        Decoder::Astc(bw, bh) => 4 <= bw && bw <= 12 && 4 <= bh && bh <= 12
            && checked_need(width, height, bw, bh, 16).is_some(),
        Decoder::Pvrtc(two) => width > 0 && height > 0 && (if two {
            checked_need(width, height, 8, 4, 8).is_some()
        } else {
            checked_need(width, height, 4, 4, 4).is_some()
        }),
        Decoder::Alpha8 | Decoder::Unsupported => true,
    }
}

/// A decoded image: its size and pixel bytes.
#[derive(Debug, Clone)]
pub enum DecodedImage {
    /// One byte per pixel.
    Luma8 { width: u32, height: u32, pixels: Vec<u8> },
    /// Four bytes per pixel: red, green, blue, alpha.
    Rgba8 { width: u32, height: u32, pixels: Vec<u8> },
}

/// Why a texture could not be decoded.
#[derive(Debug, Clone, Copy, PartialEq, Eq, Structural)]
pub enum TextureError {
    /// The decoder rejected the data (too short, or a PVRTC size that is
    /// not a power of two blocks).
    Decode,
    /// An `Alpha8` texture with fewer bytes than pixels.
    TooSmall,
    /// A format this decoder does not handle.
    Unsupported(TextureFormat),
}

/// Runs the compressed-format decoder `dec`.
fn run_decoder(dec: Decoder, input: &[u8], width: usize, height: usize) -> (r: Option<Vec<u32>>)
    requires
        decoder_fits(dec, width, height),
        dec != Decoder::Alpha8,
        dec != Decoder::Unsupported,
    ensures
        match r {
            Some(px) => decoder_pixels(dec, input@, width, height) == Some(px@) && px@.len() == width * height,
            None => decoder_pixels(dec, input@, width, height) is None,
        },
{
    match dec {
        Decoder::AtcRgb4 => decode_atc_rgb4(input, width, height),
        Decoder::AtcRgba8 => decode_atc_rgba8(input, width, height),
        Decoder::Astc(bw, bh) => {
            let len = input.len();
            match checked_need(width, height, bw, bh, 16) {
                None => None,
                Some(n) => if len < n {
                    None
                } else {
                    let nx = blocks_of(width, bw);
                    let ny = blocks_of(height, bh);
                    assert(nx * ny * 16 == n) by (nonlinear_arith)
                        requires
                            n == nx * ny * 16,
                    ;
                    if astc_blocks_ok_exec(input, nx * ny) {
                        decode_astc(input, width, height, bw, bh)
                    } else {
                        None
                    }
                },
            }
        },
        Decoder::Bc1 => decode_bc1(input, width, height),
        Decoder::Bc3 => decode_bc3(input, width, height),
        Decoder::Bc4 => decode_bc4(input, width, height),
        Decoder::Bc5 => decode_bc5(input, width, height),
        Decoder::Bc6Unsigned => decode_bc6_unsigned(input, width, height),
        Decoder::Bc7 => decode_bc7(input, width, height),
        Decoder::EacR => decode_eacr(input, width, height),
        Decoder::EacRSigned => decode_eacr_signed(input, width, height),
        Decoder::EacRg => decode_eacrg(input, width, height),
        Decoder::EacRgSigned => decode_eacrg_signed(input, width, height),
        Decoder::Etc1 => decode_etc1(input, width, height),
        Decoder::Etc2Rgb => decode_etc2_rgb(input, width, height),
        Decoder::Etc2Rgba1 => decode_etc2_rgba1(input, width, height),
        Decoder::Etc2Rgba8 => decode_etc2_rgba8(input, width, height),
        Decoder::Pvrtc(two) => {
            let bw: usize = if two { 8 } else { 4 };
            let len = input.len();
            match checked_need(width, height, bw, 4, 8) {
                None => None,
                Some(n) => if len < n {
                    None
                } else {
                    decode_pvrtc(input, width, height, two)
                },
            }
        },
        Decoder::Alpha8 | Decoder::Unsupported => None,
    }
}

/// The name of a texture format, as `Debug` writes it.
pub open spec fn texture_format_name(f: TextureFormat) -> Seq<char> {
    match f {
        TextureFormat::Alpha8 => "Alpha8"@,
        TextureFormat::Argb4444 => "Argb4444"@,
        TextureFormat::Rgb24 => "Rgb24"@,
        TextureFormat::Rgba32 => "Rgba32"@,
        TextureFormat::Argb32 => "Argb32"@,
        TextureFormat::Rgb565 => "Rgb565"@,
        TextureFormat::R16 => "R16"@,
        TextureFormat::Dxt1 => "Dxt1"@,
        TextureFormat::Dxt5 => "Dxt5"@,
        TextureFormat::RgbA4444 => "RgbA4444"@,
        TextureFormat::Bgra32 => "Bgra32"@,
        TextureFormat::RHalf => "RHalf"@,
        TextureFormat::RgHalf => "RgHalf"@,
        TextureFormat::RgbaHalf => "RgbaHalf"@,
        TextureFormat::RFloat => "RFloat"@,
        TextureFormat::RgFloat => "RgFloat"@,
        TextureFormat::RgbaFloat => "RgbaFloat"@,
        TextureFormat::Yuy2 => "Yuy2"@,
        TextureFormat::Rgb9e5Float => "Rgb9e5Float"@,
        TextureFormat::Bc6H => "Bc6H"@,
        TextureFormat::Bc7 => "Bc7"@,
        TextureFormat::Bc4 => "Bc4"@,
        TextureFormat::Bc5 => "Bc5"@,
        TextureFormat::Dxt1Crunched => "Dxt1Crunched"@,
        TextureFormat::Dxt5Crunched => "Dxt5Crunched"@,
        TextureFormat::PvrtcRgb2 => "PvrtcRgb2"@,
        TextureFormat::PvrtcRgba2 => "PvrtcRgba2"@,
        TextureFormat::PvrtcRgb4 => "PvrtcRgb4"@,
        TextureFormat::PvrtcRgba4 => "PvrtcRgba4"@,
        TextureFormat::EtcRgb4 => "EtcRgb4"@,
        TextureFormat::AtcRgb4 => "AtcRgb4"@,
        TextureFormat::AtcRgba8 => "AtcRgba8"@,
        TextureFormat::EacR => "EacR"@,
        TextureFormat::EacRSigned => "EacRSigned"@,
        TextureFormat::EacRg => "EacRg"@,
        TextureFormat::EacRgSigned => "EacRgSigned"@,
        TextureFormat::Etc2Rgb => "Etc2Rgb"@,
        TextureFormat::Etc2Rgba1 => "Etc2Rgba1"@,
        TextureFormat::Etc2Rgba8 => "Etc2Rgba8"@,
        TextureFormat::AstcRgb4x4 => "AstcRgb4x4"@,
        TextureFormat::AstcRgb5x5 => "AstcRgb5x5"@,
        TextureFormat::AstcRgb6x6 => "AstcRgb6x6"@,
        TextureFormat::AstcRgb8x8 => "AstcRgb8x8"@,
        TextureFormat::AstcRgb10x10 => "AstcRgb10x10"@,
        TextureFormat::AstcRgb12x12 => "AstcRgb12x12"@,
        TextureFormat::AstcRgba4x4 => "AstcRgba4x4"@,
        TextureFormat::AstcRgba5x5 => "AstcRgba5x5"@,
        TextureFormat::AstcRgba6x6 => "AstcRgba6x6"@,
        TextureFormat::AstcRgba8x8 => "AstcRgba8x8"@,
        TextureFormat::AstcRgba10x10 => "AstcRgba10x10"@,
        TextureFormat::AstcRgba12x12 => "AstcRgba12x12"@,
        TextureFormat::EtcRgb43ds => "EtcRgb43ds"@,
        TextureFormat::EtcRgba83ds => "EtcRgba83ds"@,
        TextureFormat::Rg16 => "Rg16"@,
        TextureFormat::R8 => "R8"@,
        TextureFormat::EtcRgb4crunched => "EtcRgb4crunched"@,
        TextureFormat::Etc2Rgba8crunched => "Etc2Rgba8crunched"@,
        TextureFormat::AstcHdr4x4 => "AstcHdr4x4"@,
        TextureFormat::AstcHdr5x5 => "AstcHdr5x5"@,
        TextureFormat::AstcHdr6x6 => "AstcHdr6x6"@,
        TextureFormat::AstcHdr8x8 => "AstcHdr8x8"@,
        TextureFormat::AstcHdr10x10 => "AstcHdr10x10"@,
        TextureFormat::AstcHdr12x12 => "AstcHdr12x12"@,
    }
}

/// The name of a texture format, as `Debug` writes it.
pub fn texture_format_str(f: TextureFormat) -> (s: &'static str)
    ensures
        s@ == texture_format_name(f),
{
    match f {
        TextureFormat::Alpha8 => "Alpha8",
        TextureFormat::Argb4444 => "Argb4444",
        TextureFormat::Rgb24 => "Rgb24",
        TextureFormat::Rgba32 => "Rgba32",
        TextureFormat::Argb32 => "Argb32",
        TextureFormat::Rgb565 => "Rgb565",
        TextureFormat::R16 => "R16",
        TextureFormat::Dxt1 => "Dxt1",
        TextureFormat::Dxt5 => "Dxt5",
        TextureFormat::RgbA4444 => "RgbA4444",
        TextureFormat::Bgra32 => "Bgra32",
        TextureFormat::RHalf => "RHalf",
        TextureFormat::RgHalf => "RgHalf",
        TextureFormat::RgbaHalf => "RgbaHalf",
        TextureFormat::RFloat => "RFloat",
        TextureFormat::RgFloat => "RgFloat",
        TextureFormat::RgbaFloat => "RgbaFloat",
        TextureFormat::Yuy2 => "Yuy2",
        TextureFormat::Rgb9e5Float => "Rgb9e5Float",
        TextureFormat::Bc6H => "Bc6H",
        TextureFormat::Bc7 => "Bc7",
        TextureFormat::Bc4 => "Bc4",
        TextureFormat::Bc5 => "Bc5",
        TextureFormat::Dxt1Crunched => "Dxt1Crunched",
        TextureFormat::Dxt5Crunched => "Dxt5Crunched",
        TextureFormat::PvrtcRgb2 => "PvrtcRgb2",
        TextureFormat::PvrtcRgba2 => "PvrtcRgba2",
        TextureFormat::PvrtcRgb4 => "PvrtcRgb4",
        TextureFormat::PvrtcRgba4 => "PvrtcRgba4",
        TextureFormat::EtcRgb4 => "EtcRgb4",
        TextureFormat::AtcRgb4 => "AtcRgb4",
        TextureFormat::AtcRgba8 => "AtcRgba8",
        TextureFormat::EacR => "EacR",
        TextureFormat::EacRSigned => "EacRSigned",
        TextureFormat::EacRg => "EacRg",
        TextureFormat::EacRgSigned => "EacRgSigned",
        TextureFormat::Etc2Rgb => "Etc2Rgb",
        TextureFormat::Etc2Rgba1 => "Etc2Rgba1",
        TextureFormat::Etc2Rgba8 => "Etc2Rgba8",
        TextureFormat::AstcRgb4x4 => "AstcRgb4x4",
        TextureFormat::AstcRgb5x5 => "AstcRgb5x5",
        TextureFormat::AstcRgb6x6 => "AstcRgb6x6",
        TextureFormat::AstcRgb8x8 => "AstcRgb8x8",
        TextureFormat::AstcRgb10x10 => "AstcRgb10x10",
        TextureFormat::AstcRgb12x12 => "AstcRgb12x12",
        TextureFormat::AstcRgba4x4 => "AstcRgba4x4",
        TextureFormat::AstcRgba5x5 => "AstcRgba5x5",
        TextureFormat::AstcRgba6x6 => "AstcRgba6x6",
        TextureFormat::AstcRgba8x8 => "AstcRgba8x8",
        TextureFormat::AstcRgba10x10 => "AstcRgba10x10",
        TextureFormat::AstcRgba12x12 => "AstcRgba12x12",
        TextureFormat::EtcRgb43ds => "EtcRgb43ds",
        TextureFormat::EtcRgba83ds => "EtcRgba83ds",
        TextureFormat::Rg16 => "Rg16",
        TextureFormat::R8 => "R8",
        TextureFormat::EtcRgb4crunched => "EtcRgb4crunched",
        TextureFormat::Etc2Rgba8crunched => "Etc2Rgba8crunched",
        TextureFormat::AstcHdr4x4 => "AstcHdr4x4",
        TextureFormat::AstcHdr5x5 => "AstcHdr5x5",
        TextureFormat::AstcHdr6x6 => "AstcHdr6x6",
        TextureFormat::AstcHdr8x8 => "AstcHdr8x8",
        TextureFormat::AstcHdr10x10 => "AstcHdr10x10",
        TextureFormat::AstcHdr12x12 => "AstcHdr12x12",
    }
}

/// The message of a texture error: the decoder's refusal, a short
/// `Alpha8` texture, or `unsupported texture format: {format:?}`.
pub open spec fn texture_error_message(e: TextureError) -> Seq<char> {
    match e {
        TextureError::Decode => "failed to decode texture data"@,
        TextureError::TooSmall => "failed to decode alpha8 texture"@,
        TextureError::Unsupported(f) => "unsupported texture format: "@ + texture_format_name(f),
    }
}

impl TextureError {
    /// The message of this error, as the extractor reports it.
    pub fn message(&self) -> (m: String)
        ensures
            m@ == texture_error_message(*self),
    {
        let mut m = String::new();
        match self {
            TextureError::Decode => push_chars(&mut m, "failed to decode texture data"),
            TextureError::TooSmall => push_chars(&mut m, "failed to decode alpha8 texture"),
            TextureError::Unsupported(f) => {
                push_chars(&mut m, "unsupported texture format: ");
                push_chars(&mut m, texture_format_str(*f));
            },
        }
        m
    }
}

/// Exchanges the two bytes of each whole 16-bit word.
fn swap_byte_pairs(d: &mut Vec<u8>)
    ensures
        final(d)@ == swap_pairs(old(d)@),
{
    let ghost orig = d@;
    let half = d.len() / 2;
    let mut i: usize = 0;
    while i < half
        invariant
            half == orig.len() / 2,
            2 * half <= orig.len() <= usize::MAX,
            i <= half,
            d@.len() == orig.len(),
            forall|k: int| 0 <= k < d@.len() ==> #[trigger] d@[k] == (if k < 2 * i {
                if k % 2 == 0 { orig[k + 1] } else { orig[k - 1] }
            } else {
                orig[k]
            }),
        decreases half - i,
    {
        let a = d[2 * i];
        let b = d[2 * i + 1];
        d[2 * i] = b;
        d[2 * i + 1] = a;
        i += 1;
    }
    assert(d@ =~= swap_pairs(orig));
}

/// RGBA bytes of `0xAARRGGBB` pixels.
fn to_rgba(px: &Vec<u32>) -> (out: Vec<u8>)
    requires
        px@.len() * 4 <= usize::MAX,
    ensures
        out@ == rgba_bytes(px@),
{
    let mut out: Vec<u8> = Vec::new();
    let mut i: usize = 0;
    while i < px.len()
        invariant
            i <= px@.len(),
            px@.len() * 4 <= usize::MAX,
            out@ =~= rgba_bytes(px@.take(i as int)),
        decreases px.len() - i,
    {
        let p = px[i];
        let ghost before = out@;
        out.push(((p >> 16u32) & 0xffu32) as u8);
        out.push(((p >> 8u32) & 0xffu32) as u8);
        out.push((p & 0xffu32) as u8);
        out.push((p >> 24u32) as u8);
        assert(out@ =~= rgba_bytes(px@.take(i + 1))) by {
            let t = px@.take(i + 1);
            assert forall|k: int| 0 <= k < t.len() * 4 implies #[trigger] out@[k] == channel(t[k / 4], k % 4) by {
                if k < 4 * i {
                    assert(before[k] == channel(px@.take(i as int)[k / 4], k % 4));
                }
            }
        }
        i += 1;
    }
    assert(px@.take(px@.len() as int) =~= px@);
    out
}

/// Decodes texture `data` of `format` into a `width` x `height` image.
///
/// The 16-bit words of some formats are byte-swapped first; compressed
/// formats are decoded to RGBA, `Alpha8` is kept as one byte per pixel,
/// and other formats are not handled. ASTC data with a block whose header
/// the decoder cannot work through (see `astc_block_ok`) gives `Decode`.
pub fn decode_texture(data: &[u8], format: TextureFormat, width: usize, height: usize) -> (r: Result<DecodedImage, TextureError>)
    requires
        width * height <= usize::MAX,
        decoder_fits(decoder_of(format), width, height),
    ensures
        match decoder_of(format) {
            Decoder::Unsupported => r == Err::<DecodedImage, TextureError>(TextureError::Unsupported(format)),
            Decoder::Alpha8 => match r {
                Ok(DecodedImage::Luma8 { width: w, height: h, pixels }) => w == width as u32 && h == height as u32
                    && pixels@ == data@ && (w as int) * (h as int) <= data@.len(),
                Ok(_) => false,
                Err(e) => e == TextureError::TooSmall && (width as u32 as int) * (height as u32 as int) > data@.len(),
            },
            dec => match decoder_pixels(dec, decoder_input(data@, format), width, height) {
                Some(px) => r matches Ok(DecodedImage::Rgba8 { width: w, height: h, pixels })
                    && w == width && h == height && pixels@ == rgba_bytes(px),
                None => r == Err::<DecodedImage, TextureError>(TextureError::Decode),
            },
        },
{
    let mut input = vstd::slice::slice_to_vec(data);
    let swap = match format {
        TextureFormat::Rgb565 | TextureFormat::Dxt1 | TextureFormat::Dxt1Crunched
        | TextureFormat::Dxt5 | TextureFormat::Dxt5Crunched => true,
        _ => false,
    };
    if swap {
        swap_byte_pairs(&mut input);
    }
    assert(input@ == decoder_input(data@, format));
    let dec = decoder_for(format);
    match dec {
        Decoder::Unsupported => Err(TextureError::Unsupported(format)),
        Decoder::Alpha8 => {
            let w = width as u32;
            let h = height as u32;
            assert((w as u64) * (h as u64) <= u64::MAX) by (nonlinear_arith)
                requires
                    w <= u32::MAX,
                    h <= u32::MAX,
            ;
            if (w as u64) * (h as u64) <= input.len() as u64 {
                Ok(DecodedImage::Luma8 { width: w, height: h, pixels: input })
            } else {
                Err(TextureError::TooSmall)
            }
        },
        _ => match run_decoder(dec, &input, width, height) {
            None => Err(TextureError::Decode),
            Some(px) => {
                let pixels = to_rgba(&px);
                Ok(DecodedImage::Rgba8 { width: width as u32, height: height as u32, pixels })
            },
        },
    }
}

/// A format's number names the format, and a number that names a format
/// is that format's number.
pub proof fn law_format_code_round_trip(f: TextureFormat, n: i32)
    ensures
        format_of_code(format_code(f)) == Some(f),
        format_of_code(n) == Some(f) ==> format_code(f) == n,
{
}

/// Swapping the bytes of each 16-bit word twice gives back the data.
pub proof fn law_swap_pairs_involution(d: Seq<u8>)
    ensures
        swap_pairs(swap_pairs(d)) == d,
{
    assert(swap_pairs(swap_pairs(d)) =~= d);
}

/// Each texture format goes to the decoder its name says: the BCn, ETC,
/// ETC2, EAC and ATC formats decode 4x4 blocks of 8 or 16 bytes as
/// their format defines (ETC2 RGBA8 takes 16 bytes a block, its alpha
/// from the EAC half), crunched formats go to their plain form, ASTC
/// formats to blocks of their size, PVRTC to 2 or 4 bits per pixel,
/// `Alpha8` is kept, and the other raw formats are not decoded.
pub proof fn law_formats_decode_by_name(f: TextureFormat, d: Seq<u8>, w: usize, h: usize)
    ensures
        f == TextureFormat::Alpha8 ==> decoder_of(f) == Decoder::Alpha8,
        f == TextureFormat::Argb4444 ==> decoder_of(f) == Decoder::Unsupported,
        f == TextureFormat::Rgb24 ==> decoder_of(f) == Decoder::Unsupported,
        f == TextureFormat::Rgba32 ==> decoder_of(f) == Decoder::Unsupported,
        f == TextureFormat::Argb32 ==> decoder_of(f) == Decoder::Unsupported,
        f == TextureFormat::Rgb565 ==> decoder_of(f) == Decoder::Unsupported,
        f == TextureFormat::R16 ==> decoder_of(f) == Decoder::Unsupported,
        f == TextureFormat::Dxt1 ==> decoder_pixels(decoder_of(f), d, w, h) == (if d.len() >= blocks(w, 4) * blocks(h, 4) * 8 {
            Some(bc1_pixels(d, w, h))
        } else {
            None
        }),
        f == TextureFormat::Dxt5 ==> decoder_pixels(decoder_of(f), d, w, h) == (if d.len() >= blocks(w, 4) * blocks(h, 4) * 16 {
            Some(bc3_pixels(d, w, h))
        } else {
            None
        }),
        f == TextureFormat::RgbA4444 ==> decoder_of(f) == Decoder::Unsupported,
        f == TextureFormat::Bgra32 ==> decoder_of(f) == Decoder::Unsupported,
        f == TextureFormat::RHalf ==> decoder_of(f) == Decoder::Unsupported,
        f == TextureFormat::RgHalf ==> decoder_of(f) == Decoder::Unsupported,
        f == TextureFormat::RgbaHalf ==> decoder_of(f) == Decoder::Unsupported,
        f == TextureFormat::RFloat ==> decoder_of(f) == Decoder::Unsupported,
        f == TextureFormat::RgFloat ==> decoder_of(f) == Decoder::Unsupported,
        f == TextureFormat::RgbaFloat ==> decoder_of(f) == Decoder::Unsupported,
        f == TextureFormat::Yuy2 ==> decoder_of(f) == Decoder::Unsupported,
        f == TextureFormat::Rgb9e5Float ==> decoder_of(f) == Decoder::Unsupported,
        f == TextureFormat::Bc6H ==> decoder_pixels(decoder_of(f), d, w, h) == (if d.len() >= blocks(w, 4) * blocks(h, 4) * 16 {
            Some(bc6_unsigned_pixels(d, w, h))
        } else {
            None
        }),
        f == TextureFormat::Bc7 ==> decoder_pixels(decoder_of(f), d, w, h) == (if d.len() >= blocks(w, 4) * blocks(h, 4) * 16 {
            Some(bc7_pixels(d, w, h))
        } else {
            None
        }),
        f == TextureFormat::Bc4 ==> decoder_pixels(decoder_of(f), d, w, h) == (if d.len() >= blocks(w, 4) * blocks(h, 4) * 8 {
            Some(bc4_pixels(d, w, h))
        } else {
            None
        }),
        f == TextureFormat::Bc5 ==> decoder_pixels(decoder_of(f), d, w, h) == (if d.len() >= blocks(w, 4) * blocks(h, 4) * 16 {
            Some(bc5_pixels(d, w, h))
        } else {
            None
        }),
        f == TextureFormat::Dxt1Crunched ==> decoder_pixels(decoder_of(f), d, w, h) == (if d.len() >= blocks(w, 4) * blocks(h, 4) * 8 {
            Some(bc1_pixels(d, w, h))
        } else {
            None
        }),
        f == TextureFormat::Dxt5Crunched ==> decoder_pixels(decoder_of(f), d, w, h) == (if d.len() >= blocks(w, 4) * blocks(h, 4) * 16 {
            Some(bc3_pixels(d, w, h))
        } else {
            None
        }),
        f == TextureFormat::PvrtcRgb2 ==> decoder_of(f) == Decoder::Pvrtc(true),
        f == TextureFormat::PvrtcRgba2 ==> decoder_of(f) == Decoder::Pvrtc(true),
        f == TextureFormat::PvrtcRgb4 ==> decoder_of(f) == Decoder::Pvrtc(false),
        f == TextureFormat::PvrtcRgba4 ==> decoder_of(f) == Decoder::Pvrtc(false),
        f == TextureFormat::EtcRgb4 ==> decoder_pixels(decoder_of(f), d, w, h) == (if d.len() >= blocks(w, 4) * blocks(h, 4) * 8 {
            Some(etc1_pixels(d, w, h))
        } else {
            None
        }),
        f == TextureFormat::AtcRgb4 ==> decoder_pixels(decoder_of(f), d, w, h) == (if d.len() >= blocks(w, 4) * blocks(h, 4) * 8 {
            Some(atc_rgb4_pixels(d, w, h))
        } else {
            None
        }),
        f == TextureFormat::AtcRgba8 ==> decoder_pixels(decoder_of(f), d, w, h) == (if d.len() >= blocks(w, 4) * blocks(h, 4) * 16 {
            Some(atc_rgba8_pixels(d, w, h))
        } else {
            None
        }),
        f == TextureFormat::EacR ==> decoder_pixels(decoder_of(f), d, w, h) == (if d.len() >= blocks(w, 4) * blocks(h, 4) * 8 {
            Some(eacr_pixels(d, w, h))
        } else {
            None
        }),
        f == TextureFormat::EacRSigned ==> decoder_pixels(decoder_of(f), d, w, h) == (if d.len() >= blocks(w, 4) * blocks(h, 4) * 8 {
            Some(eacr_signed_pixels(d, w, h))
        } else {
            None
        }),
        f == TextureFormat::EacRg ==> decoder_pixels(decoder_of(f), d, w, h) == (if d.len() >= blocks(w, 4) * blocks(h, 4) * 16 {
            Some(eacrg_pixels(d, w, h))
        } else {
            None
        }),
        f == TextureFormat::EacRgSigned ==> decoder_pixels(decoder_of(f), d, w, h) == (if d.len() >= blocks(w, 4) * blocks(h, 4) * 16 {
            Some(eacrg_signed_pixels(d, w, h))
        } else {
            None
        }),
        f == TextureFormat::Etc2Rgb ==> decoder_pixels(decoder_of(f), d, w, h) == (if d.len() >= blocks(w, 4) * blocks(h, 4) * 8 {
            Some(etc2_rgb_pixels(d, w, h))
        } else {
            None
        }),
        f == TextureFormat::Etc2Rgba1 ==> decoder_pixels(decoder_of(f), d, w, h) == (if d.len() >= blocks(w, 4) * blocks(h, 4) * 8 {
            Some(etc2_rgba1_pixels(d, w, h))
        } else {
            None
        }),
        f == TextureFormat::Etc2Rgba8 ==> decoder_pixels(decoder_of(f), d, w, h) == (if d.len() >= blocks(w, 4) * blocks(h, 4) * 16 {
            Some(etc2_rgba8_pixels(d, w, h))
        } else {
            None
        }),
        f == TextureFormat::AstcRgb4x4 ==> decoder_of(f) == Decoder::Astc(4, 4) && (d.len() >= blocks(w, 4) * blocks(h, 4) * 16
            && astc_blocks_ok(d, blocks(w, 4) * blocks(h, 4)) ==> decoder_pixels(decoder_of(f), d, w, h) == Some(astc_pixels(d, w, h, 4, 4))),
        f == TextureFormat::AstcRgb5x5 ==> decoder_of(f) == Decoder::Astc(5, 5) && (d.len() >= blocks(w, 5) * blocks(h, 5) * 16
            && astc_blocks_ok(d, blocks(w, 5) * blocks(h, 5)) ==> decoder_pixels(decoder_of(f), d, w, h) == Some(astc_pixels(d, w, h, 5, 5))),
        f == TextureFormat::AstcRgb6x6 ==> decoder_of(f) == Decoder::Astc(6, 6) && (d.len() >= blocks(w, 6) * blocks(h, 6) * 16
            && astc_blocks_ok(d, blocks(w, 6) * blocks(h, 6)) ==> decoder_pixels(decoder_of(f), d, w, h) == Some(astc_pixels(d, w, h, 6, 6))),
        f == TextureFormat::AstcRgb8x8 ==> decoder_of(f) == Decoder::Astc(8, 8) && (d.len() >= blocks(w, 8) * blocks(h, 8) * 16
            && astc_blocks_ok(d, blocks(w, 8) * blocks(h, 8)) ==> decoder_pixels(decoder_of(f), d, w, h) == Some(astc_pixels(d, w, h, 8, 8))),
        f == TextureFormat::AstcRgb10x10 ==> decoder_of(f) == Decoder::Astc(10, 10) && (d.len() >= blocks(w, 10) * blocks(h, 10) * 16
            && astc_blocks_ok(d, blocks(w, 10) * blocks(h, 10)) ==> decoder_pixels(decoder_of(f), d, w, h) == Some(astc_pixels(d, w, h, 10, 10))),
        f == TextureFormat::AstcRgb12x12 ==> decoder_of(f) == Decoder::Astc(12, 12) && (d.len() >= blocks(w, 12) * blocks(h, 12) * 16
            && astc_blocks_ok(d, blocks(w, 12) * blocks(h, 12)) ==> decoder_pixels(decoder_of(f), d, w, h) == Some(astc_pixels(d, w, h, 12, 12))),
        f == TextureFormat::AstcRgba4x4 ==> decoder_of(f) == Decoder::Astc(4, 4) && (d.len() >= blocks(w, 4) * blocks(h, 4) * 16
            && astc_blocks_ok(d, blocks(w, 4) * blocks(h, 4)) ==> decoder_pixels(decoder_of(f), d, w, h) == Some(astc_pixels(d, w, h, 4, 4))),
        f == TextureFormat::AstcRgba5x5 ==> decoder_of(f) == Decoder::Astc(5, 5) && (d.len() >= blocks(w, 5) * blocks(h, 5) * 16
            && astc_blocks_ok(d, blocks(w, 5) * blocks(h, 5)) ==> decoder_pixels(decoder_of(f), d, w, h) == Some(astc_pixels(d, w, h, 5, 5))),
        f == TextureFormat::AstcRgba6x6 ==> decoder_of(f) == Decoder::Astc(6, 6) && (d.len() >= blocks(w, 6) * blocks(h, 6) * 16
            && astc_blocks_ok(d, blocks(w, 6) * blocks(h, 6)) ==> decoder_pixels(decoder_of(f), d, w, h) == Some(astc_pixels(d, w, h, 6, 6))),
        f == TextureFormat::AstcRgba8x8 ==> decoder_of(f) == Decoder::Astc(8, 8) && (d.len() >= blocks(w, 8) * blocks(h, 8) * 16
            && astc_blocks_ok(d, blocks(w, 8) * blocks(h, 8)) ==> decoder_pixels(decoder_of(f), d, w, h) == Some(astc_pixels(d, w, h, 8, 8))),
        f == TextureFormat::AstcRgba10x10 ==> decoder_of(f) == Decoder::Astc(10, 10) && (d.len() >= blocks(w, 10) * blocks(h, 10) * 16
            && astc_blocks_ok(d, blocks(w, 10) * blocks(h, 10)) ==> decoder_pixels(decoder_of(f), d, w, h) == Some(astc_pixels(d, w, h, 10, 10))),
        f == TextureFormat::AstcRgba12x12 ==> decoder_of(f) == Decoder::Astc(12, 12) && (d.len() >= blocks(w, 12) * blocks(h, 12) * 16
            && astc_blocks_ok(d, blocks(w, 12) * blocks(h, 12)) ==> decoder_pixels(decoder_of(f), d, w, h) == Some(astc_pixels(d, w, h, 12, 12))),
        f == TextureFormat::EtcRgb43ds ==> decoder_pixels(decoder_of(f), d, w, h) == (if d.len() >= blocks(w, 4) * blocks(h, 4) * 8 {
            Some(etc1_pixels(d, w, h))
        } else {
            None
        }),
        f == TextureFormat::EtcRgba83ds ==> decoder_pixels(decoder_of(f), d, w, h) == (if d.len() >= blocks(w, 4) * blocks(h, 4) * 8 {
            Some(etc1_pixels(d, w, h))
        } else {
            None
        }),
        f == TextureFormat::Rg16 ==> decoder_of(f) == Decoder::Unsupported,
        f == TextureFormat::R8 ==> decoder_of(f) == Decoder::Unsupported,
        f == TextureFormat::EtcRgb4crunched ==> decoder_pixels(decoder_of(f), d, w, h) == (if d.len() >= blocks(w, 4) * blocks(h, 4) * 8 {
            Some(etc1_pixels(d, w, h))
        } else {
            None
        }),
        f == TextureFormat::Etc2Rgba8crunched ==> decoder_pixels(decoder_of(f), d, w, h) == (if d.len() >= blocks(w, 4) * blocks(h, 4) * 16 {
            Some(etc2_rgba8_pixels(d, w, h))
        } else {
            None
        }),
        f == TextureFormat::AstcHdr4x4 ==> decoder_of(f) == Decoder::Astc(4, 4) && (d.len() >= blocks(w, 4) * blocks(h, 4) * 16
            && astc_blocks_ok(d, blocks(w, 4) * blocks(h, 4)) ==> decoder_pixels(decoder_of(f), d, w, h) == Some(astc_pixels(d, w, h, 4, 4))),
        f == TextureFormat::AstcHdr5x5 ==> decoder_of(f) == Decoder::Astc(5, 5) && (d.len() >= blocks(w, 5) * blocks(h, 5) * 16
            && astc_blocks_ok(d, blocks(w, 5) * blocks(h, 5)) ==> decoder_pixels(decoder_of(f), d, w, h) == Some(astc_pixels(d, w, h, 5, 5))),
        f == TextureFormat::AstcHdr6x6 ==> decoder_of(f) == Decoder::Astc(6, 6) && (d.len() >= blocks(w, 6) * blocks(h, 6) * 16
            && astc_blocks_ok(d, blocks(w, 6) * blocks(h, 6)) ==> decoder_pixels(decoder_of(f), d, w, h) == Some(astc_pixels(d, w, h, 6, 6))),
        f == TextureFormat::AstcHdr8x8 ==> decoder_of(f) == Decoder::Astc(8, 8) && (d.len() >= blocks(w, 8) * blocks(h, 8) * 16
            && astc_blocks_ok(d, blocks(w, 8) * blocks(h, 8)) ==> decoder_pixels(decoder_of(f), d, w, h) == Some(astc_pixels(d, w, h, 8, 8))),
        f == TextureFormat::AstcHdr10x10 ==> decoder_of(f) == Decoder::Astc(10, 10) && (d.len() >= blocks(w, 10) * blocks(h, 10) * 16
            && astc_blocks_ok(d, blocks(w, 10) * blocks(h, 10)) ==> decoder_pixels(decoder_of(f), d, w, h) == Some(astc_pixels(d, w, h, 10, 10))),
        f == TextureFormat::AstcHdr12x12 ==> decoder_of(f) == Decoder::Astc(12, 12) && (d.len() >= blocks(w, 12) * blocks(h, 12) * 16
            && astc_blocks_ok(d, blocks(w, 12) * blocks(h, 12)) ==> decoder_pixels(decoder_of(f), d, w, h) == Some(astc_pixels(d, w, h, 12, 12))),
{
}

} // verus!
