//! Derived pixel metadata: the registry record behind each supported
//! format, and the small enumerations decoded from its integer codes.
//!
//! The wrapped codec's registry reports, for a format identifier, a raw
//! record of small integer codes (channel count, color format, bit depth,
//! flags, photometric interpretation).  This module reproduces that registry
//! as a verified table, keeps the decoding of each code domain as a fallible
//! step with a dedicated "unrecognized" error — the registry could in
//! principle evolve ahead of this layer — and proves that every record in
//! the table as shipped decodes successfully.

use vstd::prelude::*;

use crate::error::JXRError;
use crate::format::from_guid_spec;
use crate::format::guid_spec;
use crate::format::FormatId;
use crate::format::PixelFormat;

verus! {

/// Raw color-format code: luma only.
pub const COLORFORMAT_Y_ONLY: u32 = 0;
/// Raw color-format code: 4:2:0 chroma subsampling.
pub const COLORFORMAT_YUV_420: u32 = 1;
/// Raw color-format code: 4:2:2 chroma subsampling.
pub const COLORFORMAT_YUV_422: u32 = 2;
/// Raw color-format code: full-resolution chroma.
pub const COLORFORMAT_YUV_444: u32 = 3;
/// Raw color-format code: CMYK.
pub const COLORFORMAT_CMYK: u32 = 4;
/// Raw color-format code: generic multi-channel.
pub const COLORFORMAT_NCOMPONENT: u32 = 6;
/// Raw color-format code: RGB.
pub const COLORFORMAT_CF_RGB: u32 = 7;
/// Raw color-format code: RGB with a shared exponent.
pub const COLORFORMAT_CF_RGBE: u32 = 8;

/// Raw bit-depth code: one bit, white is foreground.
pub const BITDEPTH_BD_1: u32 = 0;
/// Raw bit-depth code: eight-bit unsigned.
pub const BITDEPTH_BD_8: u32 = 1;
/// Raw bit-depth code: sixteen-bit unsigned.
pub const BITDEPTH_BD_16: u32 = 2;
/// Raw bit-depth code: sixteen-bit signed fixed point.
pub const BITDEPTH_BD_16S: u32 = 3;
/// Raw bit-depth code: sixteen-bit half-precision float.
pub const BITDEPTH_BD_16F: u32 = 4;
/// Raw bit-depth code: thirty-two-bit unsigned.
pub const BITDEPTH_BD_32: u32 = 5;
/// Raw bit-depth code: thirty-two-bit signed fixed point.
pub const BITDEPTH_BD_32S: u32 = 6;
/// Raw bit-depth code: thirty-two-bit float.
pub const BITDEPTH_BD_32F: u32 = 7;
/// Raw bit-depth code: five-bit channel.
pub const BITDEPTH_BD_5: u32 = 8;
/// Raw bit-depth code: ten-bit channel.
pub const BITDEPTH_BD_10: u32 = 9;
/// Raw bit-depth code: five-six-five packed channels.
pub const BITDEPTH_BD_565: u32 = 10;
/// Raw bit-depth code: one bit, black is foreground.
pub const BITDEPTH_BD_1ALT: u32 = 15;

/// Raw photometric-interpretation code: white is zero.
pub const PI_W0: u32 = 0;
/// Raw photometric-interpretation code: black is zero.
pub const PI_B0: u32 = 1;
/// Raw photometric-interpretation code: RGB.
pub const PI_RGB: u32 = 2;
/// Raw photometric-interpretation code: palette-indexed RGB.
pub const PI_RGB_PALETTE: u32 = 3;
/// Raw photometric-interpretation code: transparency mask.
pub const PI_TRANSPARENCY_MASK: u32 = 4;
/// Raw photometric-interpretation code: CMYK.
pub const PI_CMYK: u32 = 5;
/// Raw photometric-interpretation code: YCbCr.
pub const PI_YCBCR: u32 = 6;
/// Raw photometric-interpretation code: CIE L*a*b*.
pub const PI_CIELAB: u32 = 8;
/// Raw photometric-interpretation code: generic multi-channel.
pub const PI_NCH: u32 = 100;
/// Raw photometric-interpretation code: RGB with a shared exponent.
pub const PI_RGBE: u32 = 101;

/// Flag-bit set with no flag raised.
pub const PIXFMT_NONE: u32 = 0;
/// Flag bit: the format carries an alpha channel.
pub const PIXFMT_HAS_ALPHA: u32 = 0x10;
/// Flag bit: color channels are premultiplied by alpha.
pub const PIXFMT_PREMULTIPLIED_ALPHA: u32 = 0x20;
/// Flag bit: channels are stored in blue-green-red order.
pub const PIXFMT_BGR: u32 = 0x40;

/// Color model of a pixel format, decoded from its raw registry code.
#[derive(Debug, Eq, PartialEq, Structural, Clone, Copy)]
pub enum ColorFormat {
    YOnly,
    YUV420,
    YUV422,
    YUV444,
    CMYK,
    NComponent,
    RGB,
    RGBE,
}

/// What decoding a raw color-format code yields.
pub open spec fn color_format_from_raw_spec(raw: u32) -> Result<ColorFormat, JXRError> {
    if raw == COLORFORMAT_Y_ONLY {
        Ok(ColorFormat::YOnly)
    } else if raw == COLORFORMAT_YUV_420 {
        Ok(ColorFormat::YUV420)
    } else if raw == COLORFORMAT_YUV_422 {
        Ok(ColorFormat::YUV422)
    } else if raw == COLORFORMAT_YUV_444 {
        Ok(ColorFormat::YUV444)
    } else if raw == COLORFORMAT_CMYK {
        Ok(ColorFormat::CMYK)
    } else if raw == COLORFORMAT_NCOMPONENT {
        Ok(ColorFormat::NComponent)
    } else if raw == COLORFORMAT_CF_RGB {
        Ok(ColorFormat::RGB)
    } else if raw == COLORFORMAT_CF_RGBE {
        Ok(ColorFormat::RGBE)
    } else {
        Err(JXRError::UnrecognizedColorFormat)
    }
}

impl ColorFormat {
    /// Decode a raw color-format code; any code outside the known
    /// enumeration yields [`JXRError::UnrecognizedColorFormat`].
    pub fn from_raw(raw: u32) -> (r: Result<ColorFormat, JXRError>)
        ensures
            r == color_format_from_raw_spec(raw),
    {
        if raw == COLORFORMAT_Y_ONLY {
            Ok(ColorFormat::YOnly)
        } else if raw == COLORFORMAT_YUV_420 {
            Ok(ColorFormat::YUV420)
        } else if raw == COLORFORMAT_YUV_422 {
            Ok(ColorFormat::YUV422)
        } else if raw == COLORFORMAT_YUV_444 {
            Ok(ColorFormat::YUV444)
        } else if raw == COLORFORMAT_CMYK {
            Ok(ColorFormat::CMYK)
        } else if raw == COLORFORMAT_NCOMPONENT {
            Ok(ColorFormat::NComponent)
        } else if raw == COLORFORMAT_CF_RGB {
            Ok(ColorFormat::RGB)
        } else if raw == COLORFORMAT_CF_RGBE {
            Ok(ColorFormat::RGBE)
        } else {
            Err(JXRError::UnrecognizedColorFormat)
        }
    }
}

/// Photometric interpretation of a pixel format, decoded from its raw
/// registry code.
#[derive(Debug, Eq, PartialEq, Structural, Clone, Copy)]
pub enum PhotometricInterpretation {
    WhiteIsZero,
    BlackIsZero,
    RGB,
    RGBPalette,
    TransparencyMask,
    CMYK,
    YCbCr,
    CIELab,
    NCH,
    RGBE,
}

/// What decoding a raw photometric-interpretation code yields.
pub open spec fn interpretation_from_raw_spec(raw: u32) -> Result<
    PhotometricInterpretation,
    JXRError,
> {
    if raw == PI_W0 {
        Ok(PhotometricInterpretation::WhiteIsZero)
    } else if raw == PI_B0 {
        Ok(PhotometricInterpretation::BlackIsZero)
    } else if raw == PI_RGB {
        Ok(PhotometricInterpretation::RGB)
    } else if raw == PI_RGB_PALETTE {
        Ok(PhotometricInterpretation::RGBPalette)
    } else if raw == PI_TRANSPARENCY_MASK {
        Ok(PhotometricInterpretation::TransparencyMask)
    } else if raw == PI_CMYK {
        Ok(PhotometricInterpretation::CMYK)
    } else if raw == PI_YCBCR {
        Ok(PhotometricInterpretation::YCbCr)
    } else if raw == PI_CIELAB {
        Ok(PhotometricInterpretation::CIELab)
    } else if raw == PI_NCH {
        Ok(PhotometricInterpretation::NCH)
    } else if raw == PI_RGBE {
        Ok(PhotometricInterpretation::RGBE)
    } else {
        Err(JXRError::UnrecognizedInterpretation)
    }
}

impl PhotometricInterpretation {
    /// Decode a raw photometric-interpretation code; any code outside the
    /// known enumeration yields [`JXRError::UnrecognizedInterpretation`].
    pub fn from_raw(raw: u32) -> (r: Result<PhotometricInterpretation, JXRError>)
        ensures
            r == interpretation_from_raw_spec(raw),
    {
        if raw == PI_W0 {
            Ok(PhotometricInterpretation::WhiteIsZero)
        } else if raw == PI_B0 {
            Ok(PhotometricInterpretation::BlackIsZero)
        } else if raw == PI_RGB {
            Ok(PhotometricInterpretation::RGB)
        } else if raw == PI_RGB_PALETTE {
            Ok(PhotometricInterpretation::RGBPalette)
        } else if raw == PI_TRANSPARENCY_MASK {
            Ok(PhotometricInterpretation::TransparencyMask)
        } else if raw == PI_CMYK {
            Ok(PhotometricInterpretation::CMYK)
        } else if raw == PI_YCBCR {
            Ok(PhotometricInterpretation::YCbCr)
        } else if raw == PI_CIELAB {
            Ok(PhotometricInterpretation::CIELab)
        } else if raw == PI_NCH {
            Ok(PhotometricInterpretation::NCH)
        } else if raw == PI_RGBE {
            Ok(PhotometricInterpretation::RGBE)
        } else {
            Err(JXRError::UnrecognizedInterpretation)
        }
    }
}

/// Storage width and numeric kind of one channel, decoded from its raw
/// registry code.
#[derive(Debug, Eq, PartialEq, Structural, Clone, Copy)]
pub enum BitDepthBits {
    /// One bit; white is the foreground.
    One,
    Eight,
    Sixteen,
    SixteenS,
    SixteenF,
    ThirtyTwo,
    ThirtyTwoS,
    ThirtyTwoF,
    Five,
    Ten,
    FiveSixFive,
    /// One bit; black is the foreground.
    OneAlt,
}

/// What decoding a raw bit-depth code yields.
pub open spec fn bit_depth_from_raw_spec(raw: u32) -> Result<BitDepthBits, JXRError> {
    if raw == BITDEPTH_BD_1 {
        Ok(BitDepthBits::One)
    } else if raw == BITDEPTH_BD_8 {
        Ok(BitDepthBits::Eight)
    } else if raw == BITDEPTH_BD_16 {
        Ok(BitDepthBits::Sixteen)
    } else if raw == BITDEPTH_BD_16S {
        Ok(BitDepthBits::SixteenS)
    } else if raw == BITDEPTH_BD_16F {
        Ok(BitDepthBits::SixteenF)
    } else if raw == BITDEPTH_BD_32 {
        Ok(BitDepthBits::ThirtyTwo)
    } else if raw == BITDEPTH_BD_32S {
        Ok(BitDepthBits::ThirtyTwoS)
    } else if raw == BITDEPTH_BD_32F {
        Ok(BitDepthBits::ThirtyTwoF)
    } else if raw == BITDEPTH_BD_5 {
        Ok(BitDepthBits::Five)
    } else if raw == BITDEPTH_BD_10 {
        Ok(BitDepthBits::Ten)
    } else if raw == BITDEPTH_BD_565 {
        Ok(BitDepthBits::FiveSixFive)
    } else if raw == BITDEPTH_BD_1ALT {
        Ok(BitDepthBits::OneAlt)
    } else {
        Err(JXRError::UnrecognizedBitDepth)
    }
}

impl BitDepthBits {
    /// Decode a raw bit-depth code; any code outside the known enumeration
    /// yields [`JXRError::UnrecognizedBitDepth`].
    pub fn from_raw(raw: u32) -> (r: Result<BitDepthBits, JXRError>)
        ensures
            r == bit_depth_from_raw_spec(raw),
    {
        if raw == BITDEPTH_BD_1 {
            Ok(BitDepthBits::One)
        } else if raw == BITDEPTH_BD_8 {
            Ok(BitDepthBits::Eight)
        } else if raw == BITDEPTH_BD_16 {
            Ok(BitDepthBits::Sixteen)
        } else if raw == BITDEPTH_BD_16S {
            Ok(BitDepthBits::SixteenS)
        } else if raw == BITDEPTH_BD_16F {
            Ok(BitDepthBits::SixteenF)
        } else if raw == BITDEPTH_BD_32 {
            Ok(BitDepthBits::ThirtyTwo)
        } else if raw == BITDEPTH_BD_32S {
            Ok(BitDepthBits::ThirtyTwoS)
        } else if raw == BITDEPTH_BD_32F {
            Ok(BitDepthBits::ThirtyTwoF)
        } else if raw == BITDEPTH_BD_5 {
            Ok(BitDepthBits::Five)
        } else if raw == BITDEPTH_BD_10 {
            Ok(BitDepthBits::Ten)
        } else if raw == BITDEPTH_BD_565 {
            Ok(BitDepthBits::FiveSixFive)
        } else if raw == BITDEPTH_BD_1ALT {
            Ok(BitDepthBits::OneAlt)
        } else {
            Err(JXRError::UnrecognizedBitDepth)
        }
    }
}

/// The raw registry record for one pixel format, as the foreign registry
/// reports it: small integer codes, not yet decoded.
#[derive(Debug, Eq, PartialEq, Structural, Clone, Copy)]
pub struct RawPixelInfo {
    /// Number of channels.
    pub channels: usize,
    /// Raw color-format code.
    pub color_format: u32,
    /// Raw bit-depth code.
    pub bit_depth: u32,
    /// Total bits per pixel.
    pub bits_per_pixel: u32,
    /// Flag bits: alpha presence, premultiplication, channel order.
    pub flags: u32,
    /// Raw photometric-interpretation code.
    pub interpretation: u32,
    /// Samples per pixel.
    pub samples_per_pixel: u32,
}

/// Assemble one raw registry record.
pub open spec fn row_spec(
    channels: usize,
    color_format: u32,
    bit_depth: u32,
    bits_per_pixel: u32,
    flags: u32,
    interpretation: u32,
    samples_per_pixel: u32,
) -> RawPixelInfo {
    RawPixelInfo {
        channels,
        color_format,
        bit_depth,
        bits_per_pixel,
        flags,
        interpretation,
        samples_per_pixel,
    }
}

/// The registry table: the raw record that the foreign registry reports for
/// each supported pixel format.
pub open spec fn raw_info_spec(f: PixelFormat) -> RawPixelInfo {
    match f {
        PixelFormat::PixelFormatDontCare => row_spec(1, COLORFORMAT_Y_ONLY, BITDEPTH_BD_8, 8, PIXFMT_NONE, PI_B0, 1),
        PixelFormat::PixelFormatBlackWhite => row_spec(1, COLORFORMAT_Y_ONLY, BITDEPTH_BD_1, 1, PIXFMT_NONE, PI_W0, 1),
        PixelFormat::PixelFormat8bppGray => row_spec(1, COLORFORMAT_Y_ONLY, BITDEPTH_BD_8, 8, PIXFMT_NONE, PI_B0, 1),
        PixelFormat::PixelFormat16bppRGB555 => row_spec(3, COLORFORMAT_CF_RGB, BITDEPTH_BD_5, 16, PIXFMT_NONE, PI_RGB, 3),
        PixelFormat::PixelFormat16bppRGB565 => row_spec(3, COLORFORMAT_CF_RGB, BITDEPTH_BD_565, 16, PIXFMT_NONE, PI_RGB, 3),
        PixelFormat::PixelFormat16bppGray => row_spec(1, COLORFORMAT_Y_ONLY, BITDEPTH_BD_16, 16, PIXFMT_NONE, PI_B0, 1),
        PixelFormat::PixelFormat24bppBGR => row_spec(3, COLORFORMAT_CF_RGB, BITDEPTH_BD_8, 24, PIXFMT_BGR, PI_RGB, 3),
        PixelFormat::PixelFormat24bppRGB => row_spec(3, COLORFORMAT_CF_RGB, BITDEPTH_BD_8, 24, PIXFMT_NONE, PI_RGB, 3),
        PixelFormat::PixelFormat32bppBGR => row_spec(3, COLORFORMAT_CF_RGB, BITDEPTH_BD_8, 32, PIXFMT_BGR, PI_RGB, 3),
        PixelFormat::PixelFormat32bppBGRA => row_spec(4, COLORFORMAT_CF_RGB, BITDEPTH_BD_8, 32, PIXFMT_HAS_ALPHA | PIXFMT_BGR, PI_RGB, 4),
        PixelFormat::PixelFormat32bppPBGRA => row_spec(4, COLORFORMAT_CF_RGB, BITDEPTH_BD_8, 32, PIXFMT_HAS_ALPHA | PIXFMT_PREMULTIPLIED_ALPHA | PIXFMT_BGR, PI_RGB, 4),
        PixelFormat::PixelFormat32bppGrayFloat => row_spec(1, COLORFORMAT_Y_ONLY, BITDEPTH_BD_32F, 32, PIXFMT_NONE, PI_B0, 1),
        PixelFormat::PixelFormat32bppRGB => row_spec(3, COLORFORMAT_CF_RGB, BITDEPTH_BD_8, 32, PIXFMT_NONE, PI_RGB, 3),
        PixelFormat::PixelFormat32bppRGBA => row_spec(4, COLORFORMAT_CF_RGB, BITDEPTH_BD_8, 32, PIXFMT_HAS_ALPHA, PI_RGB, 4),
        PixelFormat::PixelFormat32bppPRGBA => row_spec(4, COLORFORMAT_CF_RGB, BITDEPTH_BD_8, 32, PIXFMT_HAS_ALPHA | PIXFMT_PREMULTIPLIED_ALPHA, PI_RGB, 4),
        PixelFormat::PixelFormat48bppRGBFixedPoint => row_spec(3, COLORFORMAT_CF_RGB, BITDEPTH_BD_16S, 48, PIXFMT_NONE, PI_RGB, 3),
        PixelFormat::PixelFormat16bppGrayFixedPoint => row_spec(1, COLORFORMAT_Y_ONLY, BITDEPTH_BD_16S, 16, PIXFMT_NONE, PI_B0, 1),
        PixelFormat::PixelFormat32bppRGB101010 => row_spec(3, COLORFORMAT_CF_RGB, BITDEPTH_BD_10, 32, PIXFMT_NONE, PI_RGB, 3),
        PixelFormat::PixelFormat48bppRGB => row_spec(3, COLORFORMAT_CF_RGB, BITDEPTH_BD_16, 48, PIXFMT_NONE, PI_RGB, 3),
        PixelFormat::PixelFormat64bppRGBA => row_spec(4, COLORFORMAT_CF_RGB, BITDEPTH_BD_16, 64, PIXFMT_HAS_ALPHA, PI_RGB, 4),
        PixelFormat::PixelFormat64bppPRGBA => row_spec(4, COLORFORMAT_CF_RGB, BITDEPTH_BD_16, 64, PIXFMT_HAS_ALPHA | PIXFMT_PREMULTIPLIED_ALPHA, PI_RGB, 4),
        PixelFormat::PixelFormat96bppRGBFixedPoint => row_spec(3, COLORFORMAT_CF_RGB, BITDEPTH_BD_32S, 96, PIXFMT_NONE, PI_RGB, 3),
        PixelFormat::PixelFormat96bppRGBFloat => row_spec(3, COLORFORMAT_CF_RGB, BITDEPTH_BD_32F, 96, PIXFMT_NONE, PI_RGB, 3),
        PixelFormat::PixelFormat128bppRGBAFloat => row_spec(4, COLORFORMAT_CF_RGB, BITDEPTH_BD_32F, 128, PIXFMT_HAS_ALPHA, PI_RGB, 4),
        PixelFormat::PixelFormat128bppPRGBAFloat => row_spec(4, COLORFORMAT_CF_RGB, BITDEPTH_BD_32F, 128, PIXFMT_HAS_ALPHA | PIXFMT_PREMULTIPLIED_ALPHA, PI_RGB, 4),
        PixelFormat::PixelFormat128bppRGBFloat => row_spec(3, COLORFORMAT_CF_RGB, BITDEPTH_BD_32F, 128, PIXFMT_NONE, PI_RGB, 3),
        PixelFormat::PixelFormat32bpp => row_spec(4, COLORFORMAT_CMYK, BITDEPTH_BD_8, 32, PIXFMT_NONE, PI_CMYK, 4),
        PixelFormat::PixelFormat64bppRGBAFixedPoint => row_spec(4, COLORFORMAT_CF_RGB, BITDEPTH_BD_16S, 64, PIXFMT_HAS_ALPHA, PI_RGB, 4),
        PixelFormat::PixelFormat64bppRGBFixedPoint => row_spec(3, COLORFORMAT_CF_RGB, BITDEPTH_BD_16S, 64, PIXFMT_NONE, PI_RGB, 3),
        PixelFormat::PixelFormat128bppRGBAFixedPoint => row_spec(4, COLORFORMAT_CF_RGB, BITDEPTH_BD_32S, 128, PIXFMT_HAS_ALPHA, PI_RGB, 4),
        PixelFormat::PixelFormat128bppRGBFixedPoint => row_spec(3, COLORFORMAT_CF_RGB, BITDEPTH_BD_32S, 128, PIXFMT_NONE, PI_RGB, 3),
        PixelFormat::PixelFormat64bppRGBAHalf => row_spec(4, COLORFORMAT_CF_RGB, BITDEPTH_BD_16F, 64, PIXFMT_HAS_ALPHA, PI_RGB, 4),
        PixelFormat::PixelFormat64bppRGBHalf => row_spec(3, COLORFORMAT_CF_RGB, BITDEPTH_BD_16F, 64, PIXFMT_NONE, PI_RGB, 3),
        PixelFormat::PixelFormat48bppRGBHalf => row_spec(3, COLORFORMAT_CF_RGB, BITDEPTH_BD_16F, 48, PIXFMT_NONE, PI_RGB, 3),
        PixelFormat::PixelFormat32bppRGBE => row_spec(4, COLORFORMAT_CF_RGBE, BITDEPTH_BD_8, 32, PIXFMT_NONE, PI_RGBE, 4),
        PixelFormat::PixelFormat16bppGrayHalf => row_spec(1, COLORFORMAT_Y_ONLY, BITDEPTH_BD_16F, 16, PIXFMT_NONE, PI_B0, 1),
        PixelFormat::PixelFormat32bppGrayFixedPoint => row_spec(1, COLORFORMAT_Y_ONLY, BITDEPTH_BD_32S, 32, PIXFMT_NONE, PI_B0, 1),
        PixelFormat::PixelFormat64bppCMYK => row_spec(4, COLORFORMAT_CMYK, BITDEPTH_BD_16, 64, PIXFMT_NONE, PI_CMYK, 4),
        PixelFormat::PixelFormat24bpp3Channels => row_spec(3, COLORFORMAT_NCOMPONENT, BITDEPTH_BD_8, 24, PIXFMT_NONE, PI_NCH, 3),
        PixelFormat::PixelFormat32bpp4Channels => row_spec(4, COLORFORMAT_NCOMPONENT, BITDEPTH_BD_8, 32, PIXFMT_NONE, PI_NCH, 4),
        PixelFormat::PixelFormat40bpp5Channels => row_spec(5, COLORFORMAT_NCOMPONENT, BITDEPTH_BD_8, 40, PIXFMT_NONE, PI_NCH, 5),
        PixelFormat::PixelFormat48bpp6Channels => row_spec(6, COLORFORMAT_NCOMPONENT, BITDEPTH_BD_8, 48, PIXFMT_NONE, PI_NCH, 6),
        PixelFormat::PixelFormat56bpp7Channels => row_spec(7, COLORFORMAT_NCOMPONENT, BITDEPTH_BD_8, 56, PIXFMT_NONE, PI_NCH, 7),
        PixelFormat::PixelFormat64bpp8Channels => row_spec(8, COLORFORMAT_NCOMPONENT, BITDEPTH_BD_8, 64, PIXFMT_NONE, PI_NCH, 8),
        PixelFormat::PixelFormat48bpp3Channels => row_spec(3, COLORFORMAT_NCOMPONENT, BITDEPTH_BD_16, 48, PIXFMT_NONE, PI_NCH, 3),
        PixelFormat::PixelFormat64bpp4Channels => row_spec(4, COLORFORMAT_NCOMPONENT, BITDEPTH_BD_16, 64, PIXFMT_NONE, PI_NCH, 4),
        PixelFormat::PixelFormat80bpp5Channels => row_spec(5, COLORFORMAT_NCOMPONENT, BITDEPTH_BD_16, 80, PIXFMT_NONE, PI_NCH, 5),
        PixelFormat::PixelFormat96bpp6Channels => row_spec(6, COLORFORMAT_NCOMPONENT, BITDEPTH_BD_16, 96, PIXFMT_NONE, PI_NCH, 6),
        PixelFormat::PixelFormat112bpp7Channels => row_spec(7, COLORFORMAT_NCOMPONENT, BITDEPTH_BD_16, 112, PIXFMT_NONE, PI_NCH, 7),
        PixelFormat::PixelFormat128bpp8Channels => row_spec(8, COLORFORMAT_NCOMPONENT, BITDEPTH_BD_16, 128, PIXFMT_NONE, PI_NCH, 8),
        PixelFormat::PixelFormat40bppCMYKAlpha => row_spec(5, COLORFORMAT_CMYK, BITDEPTH_BD_8, 40, PIXFMT_HAS_ALPHA, PI_CMYK, 5),
        PixelFormat::PixelFormat80bppCMYKAlpha => row_spec(5, COLORFORMAT_CMYK, BITDEPTH_BD_16, 80, PIXFMT_HAS_ALPHA, PI_CMYK, 5),
        PixelFormat::PixelFormat32bpp3ChannelsAlpha => row_spec(4, COLORFORMAT_NCOMPONENT, BITDEPTH_BD_8, 32, PIXFMT_HAS_ALPHA, PI_NCH, 4),
        PixelFormat::PixelFormat40bpp4ChannelsAlpha => row_spec(5, COLORFORMAT_NCOMPONENT, BITDEPTH_BD_8, 40, PIXFMT_HAS_ALPHA, PI_NCH, 5),
        PixelFormat::PixelFormat48bpp5ChannelsAlpha => row_spec(6, COLORFORMAT_NCOMPONENT, BITDEPTH_BD_8, 48, PIXFMT_HAS_ALPHA, PI_NCH, 6),
        PixelFormat::PixelFormat56bpp6ChannelsAlpha => row_spec(7, COLORFORMAT_NCOMPONENT, BITDEPTH_BD_8, 56, PIXFMT_HAS_ALPHA, PI_NCH, 7),
        PixelFormat::PixelFormat64bpp7ChannelsAlpha => row_spec(8, COLORFORMAT_NCOMPONENT, BITDEPTH_BD_8, 64, PIXFMT_HAS_ALPHA, PI_NCH, 8),
        PixelFormat::PixelFormat72bpp8ChannelsAlpha => row_spec(9, COLORFORMAT_NCOMPONENT, BITDEPTH_BD_8, 72, PIXFMT_HAS_ALPHA, PI_NCH, 9),
        PixelFormat::PixelFormat64bpp3ChannelsAlpha => row_spec(4, COLORFORMAT_NCOMPONENT, BITDEPTH_BD_16, 64, PIXFMT_HAS_ALPHA, PI_NCH, 4),
        PixelFormat::PixelFormat80bpp4ChannelsAlpha => row_spec(5, COLORFORMAT_NCOMPONENT, BITDEPTH_BD_16, 80, PIXFMT_HAS_ALPHA, PI_NCH, 5),
        PixelFormat::PixelFormat96bpp5ChannelsAlpha => row_spec(6, COLORFORMAT_NCOMPONENT, BITDEPTH_BD_16, 96, PIXFMT_HAS_ALPHA, PI_NCH, 6),
        PixelFormat::PixelFormat112bpp6ChannelsAlpha => row_spec(7, COLORFORMAT_NCOMPONENT, BITDEPTH_BD_16, 112, PIXFMT_HAS_ALPHA, PI_NCH, 7),
        PixelFormat::PixelFormat128bpp7ChannelsAlpha => row_spec(8, COLORFORMAT_NCOMPONENT, BITDEPTH_BD_16, 128, PIXFMT_HAS_ALPHA, PI_NCH, 8),
        PixelFormat::PixelFormat144bpp8ChannelsAlpha => row_spec(9, COLORFORMAT_NCOMPONENT, BITDEPTH_BD_16, 144, PIXFMT_HAS_ALPHA, PI_NCH, 9),
        PixelFormat::PixelFormat12bppYCC420 => row_spec(3, COLORFORMAT_YUV_420, BITDEPTH_BD_8, 12, PIXFMT_NONE, PI_YCBCR, 3),
        PixelFormat::PixelFormat16bppYCC422 => row_spec(3, COLORFORMAT_YUV_422, BITDEPTH_BD_8, 16, PIXFMT_NONE, PI_YCBCR, 3),
        PixelFormat::PixelFormat20bppYCC422 => row_spec(3, COLORFORMAT_YUV_422, BITDEPTH_BD_10, 20, PIXFMT_NONE, PI_YCBCR, 3),
        PixelFormat::PixelFormat32bppYCC422 => row_spec(3, COLORFORMAT_YUV_422, BITDEPTH_BD_16, 32, PIXFMT_NONE, PI_YCBCR, 3),
        PixelFormat::PixelFormat24bppYCC444 => row_spec(3, COLORFORMAT_YUV_444, BITDEPTH_BD_8, 24, PIXFMT_NONE, PI_YCBCR, 3),
        PixelFormat::PixelFormat30bppYCC444 => row_spec(3, COLORFORMAT_YUV_444, BITDEPTH_BD_10, 30, PIXFMT_NONE, PI_YCBCR, 3),
        PixelFormat::PixelFormat48bppYCC444 => row_spec(3, COLORFORMAT_YUV_444, BITDEPTH_BD_16, 48, PIXFMT_NONE, PI_YCBCR, 3),
        PixelFormat::PixelFormat16bpp48bppYCC444FixedPoint => row_spec(3, COLORFORMAT_YUV_444, BITDEPTH_BD_16S, 48, PIXFMT_NONE, PI_YCBCR, 3),
        PixelFormat::PixelFormat20bppYCC420Alpha => row_spec(4, COLORFORMAT_YUV_420, BITDEPTH_BD_8, 20, PIXFMT_HAS_ALPHA, PI_YCBCR, 4),
        PixelFormat::PixelFormat24bppYCC422Alpha => row_spec(4, COLORFORMAT_YUV_422, BITDEPTH_BD_8, 24, PIXFMT_HAS_ALPHA, PI_YCBCR, 4),
        PixelFormat::PixelFormat30bppYCC422Alpha => row_spec(4, COLORFORMAT_YUV_422, BITDEPTH_BD_10, 30, PIXFMT_HAS_ALPHA, PI_YCBCR, 4),
        PixelFormat::PixelFormat48bppYCC422Alpha => row_spec(4, COLORFORMAT_YUV_422, BITDEPTH_BD_16, 48, PIXFMT_HAS_ALPHA, PI_YCBCR, 4),
        PixelFormat::PixelFormat32bppYCC444Alpha => row_spec(4, COLORFORMAT_YUV_444, BITDEPTH_BD_8, 32, PIXFMT_HAS_ALPHA, PI_YCBCR, 4),
        PixelFormat::PixelFormat40bppYCC444Alpha => row_spec(4, COLORFORMAT_YUV_444, BITDEPTH_BD_10, 40, PIXFMT_HAS_ALPHA, PI_YCBCR, 4),
        PixelFormat::PixelFormat64bppYCC444Alpha => row_spec(4, COLORFORMAT_YUV_444, BITDEPTH_BD_16, 64, PIXFMT_HAS_ALPHA, PI_YCBCR, 4),
        PixelFormat::PixelFormat64bppYCC444AlphaFixedPoint => row_spec(4, COLORFORMAT_YUV_444, BITDEPTH_BD_16S, 64, PIXFMT_HAS_ALPHA, PI_YCBCR, 4),
        PixelFormat::PixelFormat32bppCMYKDIRECT => row_spec(4, COLORFORMAT_CMYK, BITDEPTH_BD_8, 32, PIXFMT_NONE, PI_CMYK, 4),
        PixelFormat::PixelFormat64bppCMYKDIRECT => row_spec(4, COLORFORMAT_CMYK, BITDEPTH_BD_16, 64, PIXFMT_NONE, PI_CMYK, 4),
        PixelFormat::PixelFormat40bppCMYKDIRECTAlpha => row_spec(5, COLORFORMAT_CMYK, BITDEPTH_BD_8, 40, PIXFMT_HAS_ALPHA, PI_CMYK, 5),
        PixelFormat::PixelFormat80bppCMYKDIRECTAlpha => row_spec(5, COLORFORMAT_CMYK, BITDEPTH_BD_16, 80, PIXFMT_HAS_ALPHA, PI_CMYK, 5),
    }
}

/// Derived, read-only metadata bundle for one pixel format, with every raw
/// code decoded into its closed enumeration.
#[derive(Debug, Eq, PartialEq, Structural, Clone, Copy)]
pub struct PixelInfo {
    /// The pixel format this record describes.
    pub format: PixelFormat,
    /// Number of channels.
    pub channels: usize,
    /// Color model.
    pub color_format: ColorFormat,
    /// Storage width and numeric kind of one channel.
    pub bit_depth: BitDepthBits,
    /// Total bits per pixel.
    pub bits_per_pixel: usize,
    /// Flag bits: alpha presence, premultiplication, channel order.
    pub flags: u32,
    /// Photometric interpretation.
    pub photometric_interpretation: PhotometricInterpretation,
    /// Samples per pixel.
    pub samples_per_pixel: usize,
}

/// The decoded metadata bundle for one pixel format: the registry record
/// with each code run through its decoder.
pub open spec fn pixel_info_spec(f: PixelFormat) -> PixelInfo {
    let raw = raw_info_spec(f);
    PixelInfo {
        format: f,
        channels: raw.channels,
        color_format: color_format_from_raw_spec(raw.color_format)->Ok_0,
        bit_depth: bit_depth_from_raw_spec(raw.bit_depth)->Ok_0,
        bits_per_pixel: raw.bits_per_pixel as usize,
        flags: raw.flags,
        photometric_interpretation: interpretation_from_raw_spec(raw.interpretation)->Ok_0,
        samples_per_pixel: raw.samples_per_pixel as usize,
    }
}

/// Every record in the registry table as shipped decodes successfully:
/// the fallible code decoders cannot fail on the table's own rows.
pub proof fn lemma_registry_decodes(f: PixelFormat)
    ensures
        color_format_from_raw_spec(raw_info_spec(f).color_format) is Ok,
        bit_depth_from_raw_spec(raw_info_spec(f).bit_depth) is Ok,
        interpretation_from_raw_spec(raw_info_spec(f).interpretation) is Ok,
{
}

impl PixelInfo {
    /// Assemble one raw registry record.
    fn row(
        channels: usize,
        color_format: u32,
        bit_depth: u32,
        bits_per_pixel: u32,
        flags: u32,
        interpretation: u32,
        samples_per_pixel: u32,
    ) -> (r: RawPixelInfo)
        ensures
            r == row_spec(
                channels,
                color_format,
                bit_depth,
                bits_per_pixel,
                flags,
                interpretation,
                samples_per_pixel,
            ),
    {
        RawPixelInfo {
            channels,
            color_format,
            bit_depth,
            bits_per_pixel,
            flags,
            interpretation,
            samples_per_pixel,
        }
    }

    /// The registry lookup: the raw record for one pixel format.
    fn raw_info(f: PixelFormat) -> (r: RawPixelInfo)
        ensures
            r == raw_info_spec(f),
    {
        match f {
            PixelFormat::PixelFormatDontCare => Self::row(1, COLORFORMAT_Y_ONLY, BITDEPTH_BD_8, 8, PIXFMT_NONE, PI_B0, 1),
            PixelFormat::PixelFormatBlackWhite => Self::row(1, COLORFORMAT_Y_ONLY, BITDEPTH_BD_1, 1, PIXFMT_NONE, PI_W0, 1),
            PixelFormat::PixelFormat8bppGray => Self::row(1, COLORFORMAT_Y_ONLY, BITDEPTH_BD_8, 8, PIXFMT_NONE, PI_B0, 1),
            PixelFormat::PixelFormat16bppRGB555 => Self::row(3, COLORFORMAT_CF_RGB, BITDEPTH_BD_5, 16, PIXFMT_NONE, PI_RGB, 3),
            PixelFormat::PixelFormat16bppRGB565 => Self::row(3, COLORFORMAT_CF_RGB, BITDEPTH_BD_565, 16, PIXFMT_NONE, PI_RGB, 3),
            PixelFormat::PixelFormat16bppGray => Self::row(1, COLORFORMAT_Y_ONLY, BITDEPTH_BD_16, 16, PIXFMT_NONE, PI_B0, 1),
            PixelFormat::PixelFormat24bppBGR => Self::row(3, COLORFORMAT_CF_RGB, BITDEPTH_BD_8, 24, PIXFMT_BGR, PI_RGB, 3),
            PixelFormat::PixelFormat24bppRGB => Self::row(3, COLORFORMAT_CF_RGB, BITDEPTH_BD_8, 24, PIXFMT_NONE, PI_RGB, 3),
            PixelFormat::PixelFormat32bppBGR => Self::row(3, COLORFORMAT_CF_RGB, BITDEPTH_BD_8, 32, PIXFMT_BGR, PI_RGB, 3),
            PixelFormat::PixelFormat32bppBGRA => Self::row(4, COLORFORMAT_CF_RGB, BITDEPTH_BD_8, 32, PIXFMT_HAS_ALPHA | PIXFMT_BGR, PI_RGB, 4),
            PixelFormat::PixelFormat32bppPBGRA => Self::row(4, COLORFORMAT_CF_RGB, BITDEPTH_BD_8, 32, PIXFMT_HAS_ALPHA | PIXFMT_PREMULTIPLIED_ALPHA | PIXFMT_BGR, PI_RGB, 4),
            PixelFormat::PixelFormat32bppGrayFloat => Self::row(1, COLORFORMAT_Y_ONLY, BITDEPTH_BD_32F, 32, PIXFMT_NONE, PI_B0, 1),
            PixelFormat::PixelFormat32bppRGB => Self::row(3, COLORFORMAT_CF_RGB, BITDEPTH_BD_8, 32, PIXFMT_NONE, PI_RGB, 3),
            PixelFormat::PixelFormat32bppRGBA => Self::row(4, COLORFORMAT_CF_RGB, BITDEPTH_BD_8, 32, PIXFMT_HAS_ALPHA, PI_RGB, 4),
            PixelFormat::PixelFormat32bppPRGBA => Self::row(4, COLORFORMAT_CF_RGB, BITDEPTH_BD_8, 32, PIXFMT_HAS_ALPHA | PIXFMT_PREMULTIPLIED_ALPHA, PI_RGB, 4),
            PixelFormat::PixelFormat48bppRGBFixedPoint => Self::row(3, COLORFORMAT_CF_RGB, BITDEPTH_BD_16S, 48, PIXFMT_NONE, PI_RGB, 3),
            PixelFormat::PixelFormat16bppGrayFixedPoint => Self::row(1, COLORFORMAT_Y_ONLY, BITDEPTH_BD_16S, 16, PIXFMT_NONE, PI_B0, 1),
            PixelFormat::PixelFormat32bppRGB101010 => Self::row(3, COLORFORMAT_CF_RGB, BITDEPTH_BD_10, 32, PIXFMT_NONE, PI_RGB, 3),
            PixelFormat::PixelFormat48bppRGB => Self::row(3, COLORFORMAT_CF_RGB, BITDEPTH_BD_16, 48, PIXFMT_NONE, PI_RGB, 3),
            PixelFormat::PixelFormat64bppRGBA => Self::row(4, COLORFORMAT_CF_RGB, BITDEPTH_BD_16, 64, PIXFMT_HAS_ALPHA, PI_RGB, 4),
            PixelFormat::PixelFormat64bppPRGBA => Self::row(4, COLORFORMAT_CF_RGB, BITDEPTH_BD_16, 64, PIXFMT_HAS_ALPHA | PIXFMT_PREMULTIPLIED_ALPHA, PI_RGB, 4),
            PixelFormat::PixelFormat96bppRGBFixedPoint => Self::row(3, COLORFORMAT_CF_RGB, BITDEPTH_BD_32S, 96, PIXFMT_NONE, PI_RGB, 3),
            PixelFormat::PixelFormat96bppRGBFloat => Self::row(3, COLORFORMAT_CF_RGB, BITDEPTH_BD_32F, 96, PIXFMT_NONE, PI_RGB, 3),
            PixelFormat::PixelFormat128bppRGBAFloat => Self::row(4, COLORFORMAT_CF_RGB, BITDEPTH_BD_32F, 128, PIXFMT_HAS_ALPHA, PI_RGB, 4),
            PixelFormat::PixelFormat128bppPRGBAFloat => Self::row(4, COLORFORMAT_CF_RGB, BITDEPTH_BD_32F, 128, PIXFMT_HAS_ALPHA | PIXFMT_PREMULTIPLIED_ALPHA, PI_RGB, 4),
            PixelFormat::PixelFormat128bppRGBFloat => Self::row(3, COLORFORMAT_CF_RGB, BITDEPTH_BD_32F, 128, PIXFMT_NONE, PI_RGB, 3),
            PixelFormat::PixelFormat32bpp => Self::row(4, COLORFORMAT_CMYK, BITDEPTH_BD_8, 32, PIXFMT_NONE, PI_CMYK, 4),
            PixelFormat::PixelFormat64bppRGBAFixedPoint => Self::row(4, COLORFORMAT_CF_RGB, BITDEPTH_BD_16S, 64, PIXFMT_HAS_ALPHA, PI_RGB, 4),
            PixelFormat::PixelFormat64bppRGBFixedPoint => Self::row(3, COLORFORMAT_CF_RGB, BITDEPTH_BD_16S, 64, PIXFMT_NONE, PI_RGB, 3),
            PixelFormat::PixelFormat128bppRGBAFixedPoint => Self::row(4, COLORFORMAT_CF_RGB, BITDEPTH_BD_32S, 128, PIXFMT_HAS_ALPHA, PI_RGB, 4),
            PixelFormat::PixelFormat128bppRGBFixedPoint => Self::row(3, COLORFORMAT_CF_RGB, BITDEPTH_BD_32S, 128, PIXFMT_NONE, PI_RGB, 3),
            PixelFormat::PixelFormat64bppRGBAHalf => Self::row(4, COLORFORMAT_CF_RGB, BITDEPTH_BD_16F, 64, PIXFMT_HAS_ALPHA, PI_RGB, 4),
            PixelFormat::PixelFormat64bppRGBHalf => Self::row(3, COLORFORMAT_CF_RGB, BITDEPTH_BD_16F, 64, PIXFMT_NONE, PI_RGB, 3),
            PixelFormat::PixelFormat48bppRGBHalf => Self::row(3, COLORFORMAT_CF_RGB, BITDEPTH_BD_16F, 48, PIXFMT_NONE, PI_RGB, 3),
            PixelFormat::PixelFormat32bppRGBE => Self::row(4, COLORFORMAT_CF_RGBE, BITDEPTH_BD_8, 32, PIXFMT_NONE, PI_RGBE, 4),
            PixelFormat::PixelFormat16bppGrayHalf => Self::row(1, COLORFORMAT_Y_ONLY, BITDEPTH_BD_16F, 16, PIXFMT_NONE, PI_B0, 1),
            PixelFormat::PixelFormat32bppGrayFixedPoint => Self::row(1, COLORFORMAT_Y_ONLY, BITDEPTH_BD_32S, 32, PIXFMT_NONE, PI_B0, 1),
            PixelFormat::PixelFormat64bppCMYK => Self::row(4, COLORFORMAT_CMYK, BITDEPTH_BD_16, 64, PIXFMT_NONE, PI_CMYK, 4),
            PixelFormat::PixelFormat24bpp3Channels => Self::row(3, COLORFORMAT_NCOMPONENT, BITDEPTH_BD_8, 24, PIXFMT_NONE, PI_NCH, 3),
            PixelFormat::PixelFormat32bpp4Channels => Self::row(4, COLORFORMAT_NCOMPONENT, BITDEPTH_BD_8, 32, PIXFMT_NONE, PI_NCH, 4),
            PixelFormat::PixelFormat40bpp5Channels => Self::row(5, COLORFORMAT_NCOMPONENT, BITDEPTH_BD_8, 40, PIXFMT_NONE, PI_NCH, 5),
            PixelFormat::PixelFormat48bpp6Channels => Self::row(6, COLORFORMAT_NCOMPONENT, BITDEPTH_BD_8, 48, PIXFMT_NONE, PI_NCH, 6),
            PixelFormat::PixelFormat56bpp7Channels => Self::row(7, COLORFORMAT_NCOMPONENT, BITDEPTH_BD_8, 56, PIXFMT_NONE, PI_NCH, 7),
            PixelFormat::PixelFormat64bpp8Channels => Self::row(8, COLORFORMAT_NCOMPONENT, BITDEPTH_BD_8, 64, PIXFMT_NONE, PI_NCH, 8),
            PixelFormat::PixelFormat48bpp3Channels => Self::row(3, COLORFORMAT_NCOMPONENT, BITDEPTH_BD_16, 48, PIXFMT_NONE, PI_NCH, 3),
            PixelFormat::PixelFormat64bpp4Channels => Self::row(4, COLORFORMAT_NCOMPONENT, BITDEPTH_BD_16, 64, PIXFMT_NONE, PI_NCH, 4),
            PixelFormat::PixelFormat80bpp5Channels => Self::row(5, COLORFORMAT_NCOMPONENT, BITDEPTH_BD_16, 80, PIXFMT_NONE, PI_NCH, 5),
            PixelFormat::PixelFormat96bpp6Channels => Self::row(6, COLORFORMAT_NCOMPONENT, BITDEPTH_BD_16, 96, PIXFMT_NONE, PI_NCH, 6),
            PixelFormat::PixelFormat112bpp7Channels => Self::row(7, COLORFORMAT_NCOMPONENT, BITDEPTH_BD_16, 112, PIXFMT_NONE, PI_NCH, 7),
            PixelFormat::PixelFormat128bpp8Channels => Self::row(8, COLORFORMAT_NCOMPONENT, BITDEPTH_BD_16, 128, PIXFMT_NONE, PI_NCH, 8),
            PixelFormat::PixelFormat40bppCMYKAlpha => Self::row(5, COLORFORMAT_CMYK, BITDEPTH_BD_8, 40, PIXFMT_HAS_ALPHA, PI_CMYK, 5),
            PixelFormat::PixelFormat80bppCMYKAlpha => Self::row(5, COLORFORMAT_CMYK, BITDEPTH_BD_16, 80, PIXFMT_HAS_ALPHA, PI_CMYK, 5),
            PixelFormat::PixelFormat32bpp3ChannelsAlpha => Self::row(4, COLORFORMAT_NCOMPONENT, BITDEPTH_BD_8, 32, PIXFMT_HAS_ALPHA, PI_NCH, 4),
            PixelFormat::PixelFormat40bpp4ChannelsAlpha => Self::row(5, COLORFORMAT_NCOMPONENT, BITDEPTH_BD_8, 40, PIXFMT_HAS_ALPHA, PI_NCH, 5),
            PixelFormat::PixelFormat48bpp5ChannelsAlpha => Self::row(6, COLORFORMAT_NCOMPONENT, BITDEPTH_BD_8, 48, PIXFMT_HAS_ALPHA, PI_NCH, 6),
            PixelFormat::PixelFormat56bpp6ChannelsAlpha => Self::row(7, COLORFORMAT_NCOMPONENT, BITDEPTH_BD_8, 56, PIXFMT_HAS_ALPHA, PI_NCH, 7),
            PixelFormat::PixelFormat64bpp7ChannelsAlpha => Self::row(8, COLORFORMAT_NCOMPONENT, BITDEPTH_BD_8, 64, PIXFMT_HAS_ALPHA, PI_NCH, 8),
            PixelFormat::PixelFormat72bpp8ChannelsAlpha => Self::row(9, COLORFORMAT_NCOMPONENT, BITDEPTH_BD_8, 72, PIXFMT_HAS_ALPHA, PI_NCH, 9),
            PixelFormat::PixelFormat64bpp3ChannelsAlpha => Self::row(4, COLORFORMAT_NCOMPONENT, BITDEPTH_BD_16, 64, PIXFMT_HAS_ALPHA, PI_NCH, 4),
            PixelFormat::PixelFormat80bpp4ChannelsAlpha => Self::row(5, COLORFORMAT_NCOMPONENT, BITDEPTH_BD_16, 80, PIXFMT_HAS_ALPHA, PI_NCH, 5),
            PixelFormat::PixelFormat96bpp5ChannelsAlpha => Self::row(6, COLORFORMAT_NCOMPONENT, BITDEPTH_BD_16, 96, PIXFMT_HAS_ALPHA, PI_NCH, 6),
            PixelFormat::PixelFormat112bpp6ChannelsAlpha => Self::row(7, COLORFORMAT_NCOMPONENT, BITDEPTH_BD_16, 112, PIXFMT_HAS_ALPHA, PI_NCH, 7),
            PixelFormat::PixelFormat128bpp7ChannelsAlpha => Self::row(8, COLORFORMAT_NCOMPONENT, BITDEPTH_BD_16, 128, PIXFMT_HAS_ALPHA, PI_NCH, 8),
            PixelFormat::PixelFormat144bpp8ChannelsAlpha => Self::row(9, COLORFORMAT_NCOMPONENT, BITDEPTH_BD_16, 144, PIXFMT_HAS_ALPHA, PI_NCH, 9),
            PixelFormat::PixelFormat12bppYCC420 => Self::row(3, COLORFORMAT_YUV_420, BITDEPTH_BD_8, 12, PIXFMT_NONE, PI_YCBCR, 3),
            PixelFormat::PixelFormat16bppYCC422 => Self::row(3, COLORFORMAT_YUV_422, BITDEPTH_BD_8, 16, PIXFMT_NONE, PI_YCBCR, 3),
            PixelFormat::PixelFormat20bppYCC422 => Self::row(3, COLORFORMAT_YUV_422, BITDEPTH_BD_10, 20, PIXFMT_NONE, PI_YCBCR, 3),
            PixelFormat::PixelFormat32bppYCC422 => Self::row(3, COLORFORMAT_YUV_422, BITDEPTH_BD_16, 32, PIXFMT_NONE, PI_YCBCR, 3),
            PixelFormat::PixelFormat24bppYCC444 => Self::row(3, COLORFORMAT_YUV_444, BITDEPTH_BD_8, 24, PIXFMT_NONE, PI_YCBCR, 3),
            PixelFormat::PixelFormat30bppYCC444 => Self::row(3, COLORFORMAT_YUV_444, BITDEPTH_BD_10, 30, PIXFMT_NONE, PI_YCBCR, 3),
            PixelFormat::PixelFormat48bppYCC444 => Self::row(3, COLORFORMAT_YUV_444, BITDEPTH_BD_16, 48, PIXFMT_NONE, PI_YCBCR, 3),
            PixelFormat::PixelFormat16bpp48bppYCC444FixedPoint => Self::row(3, COLORFORMAT_YUV_444, BITDEPTH_BD_16S, 48, PIXFMT_NONE, PI_YCBCR, 3),
            PixelFormat::PixelFormat20bppYCC420Alpha => Self::row(4, COLORFORMAT_YUV_420, BITDEPTH_BD_8, 20, PIXFMT_HAS_ALPHA, PI_YCBCR, 4),
            PixelFormat::PixelFormat24bppYCC422Alpha => Self::row(4, COLORFORMAT_YUV_422, BITDEPTH_BD_8, 24, PIXFMT_HAS_ALPHA, PI_YCBCR, 4),
            PixelFormat::PixelFormat30bppYCC422Alpha => Self::row(4, COLORFORMAT_YUV_422, BITDEPTH_BD_10, 30, PIXFMT_HAS_ALPHA, PI_YCBCR, 4),
            PixelFormat::PixelFormat48bppYCC422Alpha => Self::row(4, COLORFORMAT_YUV_422, BITDEPTH_BD_16, 48, PIXFMT_HAS_ALPHA, PI_YCBCR, 4),
            PixelFormat::PixelFormat32bppYCC444Alpha => Self::row(4, COLORFORMAT_YUV_444, BITDEPTH_BD_8, 32, PIXFMT_HAS_ALPHA, PI_YCBCR, 4),
            PixelFormat::PixelFormat40bppYCC444Alpha => Self::row(4, COLORFORMAT_YUV_444, BITDEPTH_BD_10, 40, PIXFMT_HAS_ALPHA, PI_YCBCR, 4),
            PixelFormat::PixelFormat64bppYCC444Alpha => Self::row(4, COLORFORMAT_YUV_444, BITDEPTH_BD_16, 64, PIXFMT_HAS_ALPHA, PI_YCBCR, 4),
            PixelFormat::PixelFormat64bppYCC444AlphaFixedPoint => Self::row(4, COLORFORMAT_YUV_444, BITDEPTH_BD_16S, 64, PIXFMT_HAS_ALPHA, PI_YCBCR, 4),
            PixelFormat::PixelFormat32bppCMYKDIRECT => Self::row(4, COLORFORMAT_CMYK, BITDEPTH_BD_8, 32, PIXFMT_NONE, PI_CMYK, 4),
            PixelFormat::PixelFormat64bppCMYKDIRECT => Self::row(4, COLORFORMAT_CMYK, BITDEPTH_BD_16, 64, PIXFMT_NONE, PI_CMYK, 4),
            PixelFormat::PixelFormat40bppCMYKDIRECTAlpha => Self::row(5, COLORFORMAT_CMYK, BITDEPTH_BD_8, 40, PIXFMT_HAS_ALPHA, PI_CMYK, 5),
            PixelFormat::PixelFormat80bppCMYKDIRECTAlpha => Self::row(5, COLORFORMAT_CMYK, BITDEPTH_BD_16, 80, PIXFMT_HAS_ALPHA, PI_CMYK, 5),
        }
    }

    /// Metadata for a format identifier: the registry lookup followed by
    /// decoding of every raw code.  Fails with the unrecognized-format error
    /// for an identifier outside the registry's table.
    pub fn from_guid(id: &FormatId) -> (r: Result<PixelInfo, JXRError>)
        ensures
            r == match from_guid_spec(*id) {
                Ok(f) => Ok(pixel_info_spec(f)),
                Err(e) => Err::<PixelInfo, JXRError>(e),
            },
    {
        match PixelFormat::from_guid(id) {
            Ok(f) => Ok(Self::from_format(f)),
            Err(e) => Err(e),
        }
    }

    /// Metadata for a supported pixel format.
    ///
    /// Total over the closed enumeration: the registry row exists for every
    /// variant and its codes always decode (see [`lemma_registry_decodes`]),
    /// so no error case remains.
    pub fn from_format(format: PixelFormat) -> (r: PixelInfo)
        ensures
            r == pixel_info_spec(format),
    {
        let raw = Self::raw_info(format);
        proof {
            lemma_registry_decodes(format);
        }
        let color_format = ColorFormat::from_raw(raw.color_format).unwrap();
        let bit_depth = BitDepthBits::from_raw(raw.bit_depth).unwrap();
        let photometric_interpretation = PhotometricInterpretation::from_raw(
            raw.interpretation,
        ).unwrap();
        PixelInfo {
            format,
            channels: raw.channels,
            color_format,
            bit_depth,
            bits_per_pixel: raw.bits_per_pixel as usize,
            flags: raw.flags,
            photometric_interpretation,
            samples_per_pixel: raw.samples_per_pixel as usize,
        }
    }

    /// The format identifier this metadata belongs to; a plain value of
    /// program-lifetime validity.
    pub fn guid(&self) -> (r: FormatId)
        ensures
            r == guid_spec(self.format),
    {
        self.format.guid()
    }

    /// The pixel format this metadata describes.
    pub fn format(&self) -> (r: PixelFormat)
        ensures
            r == self.format,
    {
        self.format
    }

    /// Number of channels.
    pub fn channels(&self) -> (r: usize)
        ensures
            r == self.channels,
    {
        self.channels
    }

    /// Color model.
    pub fn color_format(&self) -> (r: ColorFormat)
        ensures
            r == self.color_format,
    {
        self.color_format
    }

    /// Storage width and numeric kind of one channel.
    pub fn bit_depth(&self) -> (r: BitDepthBits)
        ensures
            r == self.bit_depth,
    {
        self.bit_depth
    }

    /// Total bits per pixel.
    pub fn bits_per_pixel(&self) -> (r: usize)
        ensures
            r == self.bits_per_pixel,
    {
        self.bits_per_pixel
    }

    /// Whether the format carries an alpha channel.
    pub fn has_alpha(&self) -> (r: bool)
        ensures
            r == (self.flags & PIXFMT_HAS_ALPHA != 0),
    {
        self.flags & PIXFMT_HAS_ALPHA != 0
    }

    /// Whether color channels are premultiplied by alpha.
    pub fn premultiplied_alpha(&self) -> (r: bool)
        ensures
            r == (self.flags & PIXFMT_PREMULTIPLIED_ALPHA != 0),
    {
        self.flags & PIXFMT_PREMULTIPLIED_ALPHA != 0
    }

    /// Whether channels are stored in blue-green-red order.
    pub fn bgr(&self) -> (r: bool)
        ensures
            r == (self.flags & PIXFMT_BGR != 0),
    {
        self.flags & PIXFMT_BGR != 0
    }

    /// Photometric interpretation.
    pub fn photometric_interpretation(&self) -> (r: PhotometricInterpretation)
        ensures
            r == self.photometric_interpretation,
    {
        self.photometric_interpretation
    }

    /// Samples per pixel.
    pub fn samples_per_pixel(&self) -> (r: usize)
        ensures
            r == self.samples_per_pixel,
    {
        self.samples_per_pixel
    }
}

} // verus!
