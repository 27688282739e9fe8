//! Bidirectional registry between opaque 128-bit format identifiers and the
//! closed pixel-format enumeration.
//!
//! Every supported pixel format corresponds to exactly one identifier and
//! vice versa; [`PixelFormat::guid`] and [`PixelFormat::from_guid`] are the
//! two directions of the table, and the proof functions at the end of this
//! module state that the table is a bijection over the supported set and that
//! identifiers outside it are rejected with a dedicated error.

use vstd::prelude::*;

use crate::error::JXRError;

verus! {

/// An opaque 128-bit format identifier, compared by byte equality.
///
/// Identifier values are defined externally by the wrapped codec, never
/// constructed by callers of this layer; the fields follow the customary
/// identifier layout (one 32-bit word, two 16-bit words, then eight bytes
/// packed big-endian into `data4`).
#[derive(Debug, PartialEq, Eq, Structural, Clone, Copy)]
pub struct FormatId {
    /// First four identifier bytes, little-endian.
    pub data1: u32,
    /// Bytes four and five, little-endian.
    pub data2: u16,
    /// Bytes six and seven, little-endian.
    pub data3: u16,
    /// The trailing eight bytes, in reading order from the most significant
    /// byte down.
    pub data4: u64,
}

impl FormatId {
    /// Build an identifier from its four fields.
    pub fn new(data1: u32, data2: u16, data3: u16, data4: u64) -> (r: FormatId)
        ensures
            r == (FormatId { data1, data2, data3, data4 }),
    {
        FormatId { data1, data2, data3, data4 }
    }
}

/// The identifier family shared by most supported formats: a fixed 15-byte
/// prefix with one distinguishing final byte.
pub open spec fn family_id(last: u8) -> FormatId {
    FormatId {
        data1: 0x6fddc324,
        data2: 0x4e03,
        data3: 0x4bfe,
        data4: (0xb1853d77768dc900u64 + last as u64) as u64,
    }
}

/// Pixel format enumeration, in one-to-one correspondence with the fixed
/// subset of format identifiers that this layer supports.
#[derive(Debug, Eq, PartialEq, Structural, Clone, Copy)]
pub enum PixelFormat {
    PixelFormatDontCare,

    // Indexed
    PixelFormatBlackWhite,
    PixelFormat8bppGray,

    // sRGB - Rec.709 color primaries, sRGB gamma, SDR only
    PixelFormat16bppRGB555,
    PixelFormat16bppRGB565,
    PixelFormat16bppGray,
    PixelFormat24bppBGR,
    PixelFormat24bppRGB,
    PixelFormat32bppBGR,
    PixelFormat32bppBGRA,
    PixelFormat32bppPBGRA,
    PixelFormat32bppGrayFloat,
    PixelFormat32bppRGB,
    PixelFormat32bppRGBA,
    PixelFormat32bppPRGBA,
    PixelFormat48bppRGBFixedPoint,

    // scRGB - Rec.709 color primaries, linear, HDR-capable
    PixelFormat16bppGrayFixedPoint,
    PixelFormat32bppRGB101010,
    PixelFormat48bppRGB,
    PixelFormat64bppRGBA,
    PixelFormat64bppPRGBA,
    PixelFormat96bppRGBFixedPoint,
    PixelFormat96bppRGBFloat,
    PixelFormat128bppRGBAFloat,
    PixelFormat128bppPRGBAFloat,
    PixelFormat128bppRGBFloat,

    // various...
    PixelFormat32bpp,
    PixelFormat64bppRGBAFixedPoint,
    PixelFormat64bppRGBFixedPoint,
    PixelFormat128bppRGBAFixedPoint,
    PixelFormat128bppRGBFixedPoint,
    PixelFormat64bppRGBAHalf,
    PixelFormat64bppRGBHalf,
    PixelFormat48bppRGBHalf,
    PixelFormat32bppRGBE,
    PixelFormat16bppGrayHalf,
    PixelFormat32bppGrayFixedPoint,

    PixelFormat64bppCMYK,

    PixelFormat24bpp3Channels,
    PixelFormat32bpp4Channels,
    PixelFormat40bpp5Channels,
    PixelFormat48bpp6Channels,
    PixelFormat56bpp7Channels,
    PixelFormat64bpp8Channels,

    PixelFormat48bpp3Channels,
    PixelFormat64bpp4Channels,
    PixelFormat80bpp5Channels,
    PixelFormat96bpp6Channels,
    PixelFormat112bpp7Channels,
    PixelFormat128bpp8Channels,

    PixelFormat40bppCMYKAlpha,
    PixelFormat80bppCMYKAlpha,

    PixelFormat32bpp3ChannelsAlpha,
    PixelFormat40bpp4ChannelsAlpha,
    PixelFormat48bpp5ChannelsAlpha,
    PixelFormat56bpp6ChannelsAlpha,
    PixelFormat64bpp7ChannelsAlpha,
    PixelFormat72bpp8ChannelsAlpha,

    PixelFormat64bpp3ChannelsAlpha,
    PixelFormat80bpp4ChannelsAlpha,
    PixelFormat96bpp5ChannelsAlpha,
    PixelFormat112bpp6ChannelsAlpha,
    PixelFormat128bpp7ChannelsAlpha,
    PixelFormat144bpp8ChannelsAlpha,

    // YCrCb from Advanced Profile
    PixelFormat12bppYCC420,
    PixelFormat16bppYCC422,
    PixelFormat20bppYCC422,
    PixelFormat32bppYCC422,
    PixelFormat24bppYCC444,
    PixelFormat30bppYCC444,
    PixelFormat48bppYCC444,
    PixelFormat16bpp48bppYCC444FixedPoint,
    PixelFormat20bppYCC420Alpha,
    PixelFormat24bppYCC422Alpha,
    PixelFormat30bppYCC422Alpha,
    PixelFormat48bppYCC422Alpha,
    PixelFormat32bppYCC444Alpha,
    PixelFormat40bppYCC444Alpha,
    PixelFormat64bppYCC444Alpha,
    PixelFormat64bppYCC444AlphaFixedPoint,

    // CMYKDIRECT from Advanced Profile
    PixelFormat32bppCMYKDIRECT,
    PixelFormat64bppCMYKDIRECT,
    PixelFormat40bppCMYKDIRECTAlpha,
    PixelFormat80bppCMYKDIRECTAlpha,
}

/// The forward direction of the registry: the identifier that stands for
/// each supported pixel format.
pub open spec fn guid_spec(f: PixelFormat) -> FormatId {
    match f {
        PixelFormat::PixelFormatDontCare => family_id(0x00),
        PixelFormat::PixelFormatBlackWhite => family_id(0x05),
        PixelFormat::PixelFormat8bppGray => family_id(0x08),
        PixelFormat::PixelFormat16bppRGB555 => family_id(0x09),
        PixelFormat::PixelFormat16bppRGB565 => family_id(0x0a),
        PixelFormat::PixelFormat16bppGray => family_id(0x0b),
        PixelFormat::PixelFormat24bppBGR => family_id(0x0c),
        PixelFormat::PixelFormat24bppRGB => family_id(0x0d),
        PixelFormat::PixelFormat32bppBGR => family_id(0x0e),
        PixelFormat::PixelFormat32bppBGRA => family_id(0x0f),
        PixelFormat::PixelFormat32bppPBGRA => family_id(0x10),
        PixelFormat::PixelFormat32bppGrayFloat => family_id(0x11),
        PixelFormat::PixelFormat32bppRGB => (FormatId {
            data1: 0xd98c6b95,
            data2: 0x3efe,
            data3: 0x47a6,
            data4: 0xbb25eb1748ab0cf1,
        }),
        PixelFormat::PixelFormat32bppRGBA => (FormatId {
            data1: 0xf5c7ad2d,
            data2: 0x6a8d,
            data3: 0x43dd,
            data4: 0xa7a8a29935261ae9,
        }),
        PixelFormat::PixelFormat32bppPRGBA => (FormatId {
            data1: 0x3cc4a650,
            data2: 0xa527,
            data3: 0x4d37,
            data4: 0xa9163142c7ebedba,
        }),
        PixelFormat::PixelFormat48bppRGBFixedPoint => family_id(0x12),
        PixelFormat::PixelFormat16bppGrayFixedPoint => family_id(0x13),
        PixelFormat::PixelFormat32bppRGB101010 => family_id(0x14),
        PixelFormat::PixelFormat48bppRGB => family_id(0x15),
        PixelFormat::PixelFormat64bppRGBA => family_id(0x16),
        PixelFormat::PixelFormat64bppPRGBA => family_id(0x17),
        PixelFormat::PixelFormat96bppRGBFixedPoint => family_id(0x18),
        PixelFormat::PixelFormat96bppRGBFloat => family_id(0x43),
        PixelFormat::PixelFormat128bppRGBAFloat => family_id(0x19),
        PixelFormat::PixelFormat128bppPRGBAFloat => family_id(0x1a),
        PixelFormat::PixelFormat128bppRGBFloat => family_id(0x1b),
        PixelFormat::PixelFormat32bpp => family_id(0x1c),
        PixelFormat::PixelFormat64bppRGBAFixedPoint => family_id(0x1d),
        PixelFormat::PixelFormat64bppRGBFixedPoint => family_id(0x40),
        PixelFormat::PixelFormat128bppRGBAFixedPoint => family_id(0x1e),
        PixelFormat::PixelFormat128bppRGBFixedPoint => family_id(0x41),
        PixelFormat::PixelFormat64bppRGBAHalf => family_id(0x3a),
        PixelFormat::PixelFormat64bppRGBHalf => family_id(0x42),
        PixelFormat::PixelFormat48bppRGBHalf => family_id(0x3b),
        PixelFormat::PixelFormat32bppRGBE => family_id(0x3d),
        PixelFormat::PixelFormat16bppGrayHalf => family_id(0x3e),
        PixelFormat::PixelFormat32bppGrayFixedPoint => family_id(0x3f),
        PixelFormat::PixelFormat64bppCMYK => family_id(0x1f),
        PixelFormat::PixelFormat24bpp3Channels => family_id(0x20),
        PixelFormat::PixelFormat32bpp4Channels => family_id(0x21),
        PixelFormat::PixelFormat40bpp5Channels => family_id(0x22),
        PixelFormat::PixelFormat48bpp6Channels => family_id(0x23),
        PixelFormat::PixelFormat56bpp7Channels => family_id(0x24),
        PixelFormat::PixelFormat64bpp8Channels => family_id(0x25),
        PixelFormat::PixelFormat48bpp3Channels => family_id(0x26),
        PixelFormat::PixelFormat64bpp4Channels => family_id(0x27),
        PixelFormat::PixelFormat80bpp5Channels => family_id(0x28),
        PixelFormat::PixelFormat96bpp6Channels => family_id(0x29),
        PixelFormat::PixelFormat112bpp7Channels => family_id(0x2a),
        PixelFormat::PixelFormat128bpp8Channels => family_id(0x2b),
        PixelFormat::PixelFormat40bppCMYKAlpha => family_id(0x2c),
        PixelFormat::PixelFormat80bppCMYKAlpha => family_id(0x2d),
        PixelFormat::PixelFormat32bpp3ChannelsAlpha => family_id(0x2e),
        PixelFormat::PixelFormat40bpp4ChannelsAlpha => family_id(0x2f),
        PixelFormat::PixelFormat48bpp5ChannelsAlpha => family_id(0x30),
        PixelFormat::PixelFormat56bpp6ChannelsAlpha => family_id(0x31),
        PixelFormat::PixelFormat64bpp7ChannelsAlpha => family_id(0x32),
        PixelFormat::PixelFormat72bpp8ChannelsAlpha => family_id(0x33),
        PixelFormat::PixelFormat64bpp3ChannelsAlpha => family_id(0x34),
        PixelFormat::PixelFormat80bpp4ChannelsAlpha => family_id(0x35),
        PixelFormat::PixelFormat96bpp5ChannelsAlpha => family_id(0x36),
        PixelFormat::PixelFormat112bpp6ChannelsAlpha => family_id(0x37),
        PixelFormat::PixelFormat128bpp7ChannelsAlpha => family_id(0x38),
        PixelFormat::PixelFormat144bpp8ChannelsAlpha => family_id(0x39),
        PixelFormat::PixelFormat12bppYCC420 => family_id(0x44),
        PixelFormat::PixelFormat16bppYCC422 => family_id(0x45),
        PixelFormat::PixelFormat20bppYCC422 => family_id(0x46),
        PixelFormat::PixelFormat32bppYCC422 => family_id(0x47),
        PixelFormat::PixelFormat24bppYCC444 => family_id(0x48),
        PixelFormat::PixelFormat30bppYCC444 => family_id(0x49),
        PixelFormat::PixelFormat48bppYCC444 => family_id(0x4a),
        PixelFormat::PixelFormat16bpp48bppYCC444FixedPoint => family_id(0x4b),
        PixelFormat::PixelFormat20bppYCC420Alpha => family_id(0x4c),
        PixelFormat::PixelFormat24bppYCC422Alpha => family_id(0x4d),
        PixelFormat::PixelFormat30bppYCC422Alpha => family_id(0x4e),
        PixelFormat::PixelFormat48bppYCC422Alpha => family_id(0x4f),
        PixelFormat::PixelFormat32bppYCC444Alpha => family_id(0x50),
        PixelFormat::PixelFormat40bppYCC444Alpha => family_id(0x51),
        PixelFormat::PixelFormat64bppYCC444Alpha => family_id(0x52),
        PixelFormat::PixelFormat64bppYCC444AlphaFixedPoint => family_id(0x53),
        PixelFormat::PixelFormat32bppCMYKDIRECT => family_id(0x54),
        PixelFormat::PixelFormat64bppCMYKDIRECT => family_id(0x55),
        PixelFormat::PixelFormat40bppCMYKDIRECTAlpha => family_id(0x56),
        PixelFormat::PixelFormat80bppCMYKDIRECTAlpha => family_id(0x57),
    }
}

/// The reverse direction of the registry: the pixel format that a given
/// identifier stands for, or the distinguished unrecognized-format error
/// for any identifier outside the supported set.
pub open spec fn from_guid_spec(id: FormatId) -> Result<PixelFormat, JXRError> {
    if id == guid_spec(PixelFormat::PixelFormatDontCare) {
        Ok(PixelFormat::PixelFormatDontCare)
    } else if id == guid_spec(PixelFormat::PixelFormatBlackWhite) {
        Ok(PixelFormat::PixelFormatBlackWhite)
    } else if id == guid_spec(PixelFormat::PixelFormat8bppGray) {
        Ok(PixelFormat::PixelFormat8bppGray)
    } else if id == guid_spec(PixelFormat::PixelFormat16bppRGB555) {
        Ok(PixelFormat::PixelFormat16bppRGB555)
    } else if id == guid_spec(PixelFormat::PixelFormat16bppRGB565) {
        Ok(PixelFormat::PixelFormat16bppRGB565)
    } else if id == guid_spec(PixelFormat::PixelFormat16bppGray) {
        Ok(PixelFormat::PixelFormat16bppGray)
    } else if id == guid_spec(PixelFormat::PixelFormat24bppBGR) {
        Ok(PixelFormat::PixelFormat24bppBGR)
    } else if id == guid_spec(PixelFormat::PixelFormat24bppRGB) {
        Ok(PixelFormat::PixelFormat24bppRGB)
    } else if id == guid_spec(PixelFormat::PixelFormat32bppBGR) {
        Ok(PixelFormat::PixelFormat32bppBGR)
    } else if id == guid_spec(PixelFormat::PixelFormat32bppBGRA) {
        Ok(PixelFormat::PixelFormat32bppBGRA)
    } else if id == guid_spec(PixelFormat::PixelFormat32bppPBGRA) {
        Ok(PixelFormat::PixelFormat32bppPBGRA)
    } else if id == guid_spec(PixelFormat::PixelFormat32bppGrayFloat) {
        Ok(PixelFormat::PixelFormat32bppGrayFloat)
    } else if id == guid_spec(PixelFormat::PixelFormat32bppRGB) {
        Ok(PixelFormat::PixelFormat32bppRGB)
    } else if id == guid_spec(PixelFormat::PixelFormat32bppRGBA) {
        Ok(PixelFormat::PixelFormat32bppRGBA)
    } else if id == guid_spec(PixelFormat::PixelFormat32bppPRGBA) {
        Ok(PixelFormat::PixelFormat32bppPRGBA)
    } else if id == guid_spec(PixelFormat::PixelFormat48bppRGBFixedPoint) {
        Ok(PixelFormat::PixelFormat48bppRGBFixedPoint)
    } else if id == guid_spec(PixelFormat::PixelFormat16bppGrayFixedPoint) {
        Ok(PixelFormat::PixelFormat16bppGrayFixedPoint)
    } else if id == guid_spec(PixelFormat::PixelFormat32bppRGB101010) {
        Ok(PixelFormat::PixelFormat32bppRGB101010)
    } else if id == guid_spec(PixelFormat::PixelFormat48bppRGB) {
        Ok(PixelFormat::PixelFormat48bppRGB)
    } else if id == guid_spec(PixelFormat::PixelFormat64bppRGBA) {
        Ok(PixelFormat::PixelFormat64bppRGBA)
    } else if id == guid_spec(PixelFormat::PixelFormat64bppPRGBA) {
        Ok(PixelFormat::PixelFormat64bppPRGBA)
    } else if id == guid_spec(PixelFormat::PixelFormat96bppRGBFixedPoint) {
        Ok(PixelFormat::PixelFormat96bppRGBFixedPoint)
    } else if id == guid_spec(PixelFormat::PixelFormat96bppRGBFloat) {
        Ok(PixelFormat::PixelFormat96bppRGBFloat)
    } else if id == guid_spec(PixelFormat::PixelFormat128bppRGBAFloat) {
        Ok(PixelFormat::PixelFormat128bppRGBAFloat)
    } else if id == guid_spec(PixelFormat::PixelFormat128bppPRGBAFloat) {
        Ok(PixelFormat::PixelFormat128bppPRGBAFloat)
    } else if id == guid_spec(PixelFormat::PixelFormat128bppRGBFloat) {
        Ok(PixelFormat::PixelFormat128bppRGBFloat)
    } else if id == guid_spec(PixelFormat::PixelFormat32bpp) {
        Ok(PixelFormat::PixelFormat32bpp)
    } else if id == guid_spec(PixelFormat::PixelFormat64bppRGBAFixedPoint) {
        Ok(PixelFormat::PixelFormat64bppRGBAFixedPoint)
    } else if id == guid_spec(PixelFormat::PixelFormat64bppRGBFixedPoint) {
        Ok(PixelFormat::PixelFormat64bppRGBFixedPoint)
    } else if id == guid_spec(PixelFormat::PixelFormat128bppRGBAFixedPoint) {
        Ok(PixelFormat::PixelFormat128bppRGBAFixedPoint)
    } else if id == guid_spec(PixelFormat::PixelFormat128bppRGBFixedPoint) {
        Ok(PixelFormat::PixelFormat128bppRGBFixedPoint)
    } else if id == guid_spec(PixelFormat::PixelFormat64bppRGBAHalf) {
        Ok(PixelFormat::PixelFormat64bppRGBAHalf)
    } else if id == guid_spec(PixelFormat::PixelFormat64bppRGBHalf) {
        Ok(PixelFormat::PixelFormat64bppRGBHalf)
    } else if id == guid_spec(PixelFormat::PixelFormat48bppRGBHalf) {
        Ok(PixelFormat::PixelFormat48bppRGBHalf)
    } else if id == guid_spec(PixelFormat::PixelFormat32bppRGBE) {
        Ok(PixelFormat::PixelFormat32bppRGBE)
    } else if id == guid_spec(PixelFormat::PixelFormat16bppGrayHalf) {
        Ok(PixelFormat::PixelFormat16bppGrayHalf)
    } else if id == guid_spec(PixelFormat::PixelFormat32bppGrayFixedPoint) {
        Ok(PixelFormat::PixelFormat32bppGrayFixedPoint)
    } else if id == guid_spec(PixelFormat::PixelFormat64bppCMYK) {
        Ok(PixelFormat::PixelFormat64bppCMYK)
    } else if id == guid_spec(PixelFormat::PixelFormat24bpp3Channels) {
        Ok(PixelFormat::PixelFormat24bpp3Channels)
    } else if id == guid_spec(PixelFormat::PixelFormat32bpp4Channels) {
        Ok(PixelFormat::PixelFormat32bpp4Channels)
    } else if id == guid_spec(PixelFormat::PixelFormat40bpp5Channels) {
        Ok(PixelFormat::PixelFormat40bpp5Channels)
    } else if id == guid_spec(PixelFormat::PixelFormat48bpp6Channels) {
        Ok(PixelFormat::PixelFormat48bpp6Channels)
    } else if id == guid_spec(PixelFormat::PixelFormat56bpp7Channels) {
        Ok(PixelFormat::PixelFormat56bpp7Channels)
    } else if id == guid_spec(PixelFormat::PixelFormat64bpp8Channels) {
        Ok(PixelFormat::PixelFormat64bpp8Channels)
    } else if id == guid_spec(PixelFormat::PixelFormat48bpp3Channels) {
        Ok(PixelFormat::PixelFormat48bpp3Channels)
    } else if id == guid_spec(PixelFormat::PixelFormat64bpp4Channels) {
        Ok(PixelFormat::PixelFormat64bpp4Channels)
    } else if id == guid_spec(PixelFormat::PixelFormat80bpp5Channels) {
        Ok(PixelFormat::PixelFormat80bpp5Channels)
    } else if id == guid_spec(PixelFormat::PixelFormat96bpp6Channels) {
        Ok(PixelFormat::PixelFormat96bpp6Channels)
    } else if id == guid_spec(PixelFormat::PixelFormat112bpp7Channels) {
        Ok(PixelFormat::PixelFormat112bpp7Channels)
    } else if id == guid_spec(PixelFormat::PixelFormat128bpp8Channels) {
        Ok(PixelFormat::PixelFormat128bpp8Channels)
    } else if id == guid_spec(PixelFormat::PixelFormat40bppCMYKAlpha) {
        Ok(PixelFormat::PixelFormat40bppCMYKAlpha)
    } else if id == guid_spec(PixelFormat::PixelFormat80bppCMYKAlpha) {
        Ok(PixelFormat::PixelFormat80bppCMYKAlpha)
    } else if id == guid_spec(PixelFormat::PixelFormat32bpp3ChannelsAlpha) {
        Ok(PixelFormat::PixelFormat32bpp3ChannelsAlpha)
    } else if id == guid_spec(PixelFormat::PixelFormat40bpp4ChannelsAlpha) {
        Ok(PixelFormat::PixelFormat40bpp4ChannelsAlpha)
    } else if id == guid_spec(PixelFormat::PixelFormat48bpp5ChannelsAlpha) {
        Ok(PixelFormat::PixelFormat48bpp5ChannelsAlpha)
    } else if id == guid_spec(PixelFormat::PixelFormat56bpp6ChannelsAlpha) {
        Ok(PixelFormat::PixelFormat56bpp6ChannelsAlpha)
    } else if id == guid_spec(PixelFormat::PixelFormat64bpp7ChannelsAlpha) {
        Ok(PixelFormat::PixelFormat64bpp7ChannelsAlpha)
    } else if id == guid_spec(PixelFormat::PixelFormat72bpp8ChannelsAlpha) {
        Ok(PixelFormat::PixelFormat72bpp8ChannelsAlpha)
    } else if id == guid_spec(PixelFormat::PixelFormat64bpp3ChannelsAlpha) {
        Ok(PixelFormat::PixelFormat64bpp3ChannelsAlpha)
    } else if id == guid_spec(PixelFormat::PixelFormat80bpp4ChannelsAlpha) {
        Ok(PixelFormat::PixelFormat80bpp4ChannelsAlpha)
    } else if id == guid_spec(PixelFormat::PixelFormat96bpp5ChannelsAlpha) {
        Ok(PixelFormat::PixelFormat96bpp5ChannelsAlpha)
    } else if id == guid_spec(PixelFormat::PixelFormat112bpp6ChannelsAlpha) {
        Ok(PixelFormat::PixelFormat112bpp6ChannelsAlpha)
    } else if id == guid_spec(PixelFormat::PixelFormat128bpp7ChannelsAlpha) {
        Ok(PixelFormat::PixelFormat128bpp7ChannelsAlpha)
    } else if id == guid_spec(PixelFormat::PixelFormat144bpp8ChannelsAlpha) {
        Ok(PixelFormat::PixelFormat144bpp8ChannelsAlpha)
    } else if id == guid_spec(PixelFormat::PixelFormat12bppYCC420) {
        Ok(PixelFormat::PixelFormat12bppYCC420)
    } else if id == guid_spec(PixelFormat::PixelFormat16bppYCC422) {
        Ok(PixelFormat::PixelFormat16bppYCC422)
    } else if id == guid_spec(PixelFormat::PixelFormat20bppYCC422) {
        Ok(PixelFormat::PixelFormat20bppYCC422)
    } else if id == guid_spec(PixelFormat::PixelFormat32bppYCC422) {
        Ok(PixelFormat::PixelFormat32bppYCC422)
    } else if id == guid_spec(PixelFormat::PixelFormat24bppYCC444) {
        Ok(PixelFormat::PixelFormat24bppYCC444)
    } else if id == guid_spec(PixelFormat::PixelFormat30bppYCC444) {
        Ok(PixelFormat::PixelFormat30bppYCC444)
    } else if id == guid_spec(PixelFormat::PixelFormat48bppYCC444) {
        Ok(PixelFormat::PixelFormat48bppYCC444)
    } else if id == guid_spec(PixelFormat::PixelFormat16bpp48bppYCC444FixedPoint) {
        Ok(PixelFormat::PixelFormat16bpp48bppYCC444FixedPoint)
    } else if id == guid_spec(PixelFormat::PixelFormat20bppYCC420Alpha) {
        Ok(PixelFormat::PixelFormat20bppYCC420Alpha)
    } else if id == guid_spec(PixelFormat::PixelFormat24bppYCC422Alpha) {
        Ok(PixelFormat::PixelFormat24bppYCC422Alpha)
    } else if id == guid_spec(PixelFormat::PixelFormat30bppYCC422Alpha) {
        Ok(PixelFormat::PixelFormat30bppYCC422Alpha)
    } else if id == guid_spec(PixelFormat::PixelFormat48bppYCC422Alpha) {
        Ok(PixelFormat::PixelFormat48bppYCC422Alpha)
    } else if id == guid_spec(PixelFormat::PixelFormat32bppYCC444Alpha) {
        Ok(PixelFormat::PixelFormat32bppYCC444Alpha)
    } else if id == guid_spec(PixelFormat::PixelFormat40bppYCC444Alpha) {
        Ok(PixelFormat::PixelFormat40bppYCC444Alpha)
    } else if id == guid_spec(PixelFormat::PixelFormat64bppYCC444Alpha) {
        Ok(PixelFormat::PixelFormat64bppYCC444Alpha)
    } else if id == guid_spec(PixelFormat::PixelFormat64bppYCC444AlphaFixedPoint) {
        Ok(PixelFormat::PixelFormat64bppYCC444AlphaFixedPoint)
    } else if id == guid_spec(PixelFormat::PixelFormat32bppCMYKDIRECT) {
        Ok(PixelFormat::PixelFormat32bppCMYKDIRECT)
    } else if id == guid_spec(PixelFormat::PixelFormat64bppCMYKDIRECT) {
        Ok(PixelFormat::PixelFormat64bppCMYKDIRECT)
    } else if id == guid_spec(PixelFormat::PixelFormat40bppCMYKDIRECTAlpha) {
        Ok(PixelFormat::PixelFormat40bppCMYKDIRECTAlpha)
    } else if id == guid_spec(PixelFormat::PixelFormat80bppCMYKDIRECTAlpha) {
        Ok(PixelFormat::PixelFormat80bppCMYKDIRECTAlpha)
    } else {
        Err(JXRError::UnrecognizedPixelFormat)
    }
}

impl PixelFormat {
    /// Build the identifier of the shared family with the given final byte.
    fn family(last: u8) -> (r: FormatId)
        ensures
            r == family_id(last),
    {
        FormatId {
            data1: 0x6fddc324,
            data2: 0x4e03,
            data3: 0x4bfe,
            data4: 0xb1853d77768dc900u64 + last as u64,
        }
    }

    /// The format identifier that stands for this pixel format.
    ///
    /// Total: every variant of the closed enumeration has exactly one
    /// identifier in the registry.  The identifier is a plain value of
    /// program-lifetime validity, never a transient foreign allocation.
    pub fn guid(&self) -> (r: FormatId)
        ensures
            r == guid_spec(*self),
    {
        match *self {
            PixelFormat::PixelFormatDontCare => Self::family(0x00),
            PixelFormat::PixelFormatBlackWhite => Self::family(0x05),
            PixelFormat::PixelFormat8bppGray => Self::family(0x08),
            PixelFormat::PixelFormat16bppRGB555 => Self::family(0x09),
            PixelFormat::PixelFormat16bppRGB565 => Self::family(0x0a),
            PixelFormat::PixelFormat16bppGray => Self::family(0x0b),
            PixelFormat::PixelFormat24bppBGR => Self::family(0x0c),
            PixelFormat::PixelFormat24bppRGB => Self::family(0x0d),
            PixelFormat::PixelFormat32bppBGR => Self::family(0x0e),
            PixelFormat::PixelFormat32bppBGRA => Self::family(0x0f),
            PixelFormat::PixelFormat32bppPBGRA => Self::family(0x10),
            PixelFormat::PixelFormat32bppGrayFloat => Self::family(0x11),
            PixelFormat::PixelFormat32bppRGB => FormatId {
                data1: 0xd98c6b95,
                data2: 0x3efe,
                data3: 0x47a6,
                data4: 0xbb25eb1748ab0cf1,
            },
            PixelFormat::PixelFormat32bppRGBA => FormatId {
                data1: 0xf5c7ad2d,
                data2: 0x6a8d,
                data3: 0x43dd,
                data4: 0xa7a8a29935261ae9,
            },
            PixelFormat::PixelFormat32bppPRGBA => FormatId {
                data1: 0x3cc4a650,
                data2: 0xa527,
                data3: 0x4d37,
                data4: 0xa9163142c7ebedba,
            },
            PixelFormat::PixelFormat48bppRGBFixedPoint => Self::family(0x12),
            PixelFormat::PixelFormat16bppGrayFixedPoint => Self::family(0x13),
            PixelFormat::PixelFormat32bppRGB101010 => Self::family(0x14),
            PixelFormat::PixelFormat48bppRGB => Self::family(0x15),
            PixelFormat::PixelFormat64bppRGBA => Self::family(0x16),
            PixelFormat::PixelFormat64bppPRGBA => Self::family(0x17),
            PixelFormat::PixelFormat96bppRGBFixedPoint => Self::family(0x18),
            PixelFormat::PixelFormat96bppRGBFloat => Self::family(0x43),
            PixelFormat::PixelFormat128bppRGBAFloat => Self::family(0x19),
            PixelFormat::PixelFormat128bppPRGBAFloat => Self::family(0x1a),
            PixelFormat::PixelFormat128bppRGBFloat => Self::family(0x1b),
            PixelFormat::PixelFormat32bpp => Self::family(0x1c),
            PixelFormat::PixelFormat64bppRGBAFixedPoint => Self::family(0x1d),
            PixelFormat::PixelFormat64bppRGBFixedPoint => Self::family(0x40),
            PixelFormat::PixelFormat128bppRGBAFixedPoint => Self::family(0x1e),
            PixelFormat::PixelFormat128bppRGBFixedPoint => Self::family(0x41),
            PixelFormat::PixelFormat64bppRGBAHalf => Self::family(0x3a),
            PixelFormat::PixelFormat64bppRGBHalf => Self::family(0x42),
            PixelFormat::PixelFormat48bppRGBHalf => Self::family(0x3b),
            PixelFormat::PixelFormat32bppRGBE => Self::family(0x3d),
            PixelFormat::PixelFormat16bppGrayHalf => Self::family(0x3e),
            PixelFormat::PixelFormat32bppGrayFixedPoint => Self::family(0x3f),
            PixelFormat::PixelFormat64bppCMYK => Self::family(0x1f),
            PixelFormat::PixelFormat24bpp3Channels => Self::family(0x20),
            PixelFormat::PixelFormat32bpp4Channels => Self::family(0x21),
            PixelFormat::PixelFormat40bpp5Channels => Self::family(0x22),
            PixelFormat::PixelFormat48bpp6Channels => Self::family(0x23),
            PixelFormat::PixelFormat56bpp7Channels => Self::family(0x24),
            PixelFormat::PixelFormat64bpp8Channels => Self::family(0x25),
            PixelFormat::PixelFormat48bpp3Channels => Self::family(0x26),
            PixelFormat::PixelFormat64bpp4Channels => Self::family(0x27),
            PixelFormat::PixelFormat80bpp5Channels => Self::family(0x28),
            PixelFormat::PixelFormat96bpp6Channels => Self::family(0x29),
            PixelFormat::PixelFormat112bpp7Channels => Self::family(0x2a),
            PixelFormat::PixelFormat128bpp8Channels => Self::family(0x2b),
            PixelFormat::PixelFormat40bppCMYKAlpha => Self::family(0x2c),
            PixelFormat::PixelFormat80bppCMYKAlpha => Self::family(0x2d),
            PixelFormat::PixelFormat32bpp3ChannelsAlpha => Self::family(0x2e),
            PixelFormat::PixelFormat40bpp4ChannelsAlpha => Self::family(0x2f),
            PixelFormat::PixelFormat48bpp5ChannelsAlpha => Self::family(0x30),
            PixelFormat::PixelFormat56bpp6ChannelsAlpha => Self::family(0x31),
            PixelFormat::PixelFormat64bpp7ChannelsAlpha => Self::family(0x32),
            PixelFormat::PixelFormat72bpp8ChannelsAlpha => Self::family(0x33),
            PixelFormat::PixelFormat64bpp3ChannelsAlpha => Self::family(0x34),
            PixelFormat::PixelFormat80bpp4ChannelsAlpha => Self::family(0x35),
            PixelFormat::PixelFormat96bpp5ChannelsAlpha => Self::family(0x36),
            PixelFormat::PixelFormat112bpp6ChannelsAlpha => Self::family(0x37),
            PixelFormat::PixelFormat128bpp7ChannelsAlpha => Self::family(0x38),
            PixelFormat::PixelFormat144bpp8ChannelsAlpha => Self::family(0x39),
            PixelFormat::PixelFormat12bppYCC420 => Self::family(0x44),
            PixelFormat::PixelFormat16bppYCC422 => Self::family(0x45),
            PixelFormat::PixelFormat20bppYCC422 => Self::family(0x46),
            PixelFormat::PixelFormat32bppYCC422 => Self::family(0x47),
            PixelFormat::PixelFormat24bppYCC444 => Self::family(0x48),
            PixelFormat::PixelFormat30bppYCC444 => Self::family(0x49),
            PixelFormat::PixelFormat48bppYCC444 => Self::family(0x4a),
            PixelFormat::PixelFormat16bpp48bppYCC444FixedPoint => Self::family(0x4b),
            PixelFormat::PixelFormat20bppYCC420Alpha => Self::family(0x4c),
            PixelFormat::PixelFormat24bppYCC422Alpha => Self::family(0x4d),
            PixelFormat::PixelFormat30bppYCC422Alpha => Self::family(0x4e),
            PixelFormat::PixelFormat48bppYCC422Alpha => Self::family(0x4f),
            PixelFormat::PixelFormat32bppYCC444Alpha => Self::family(0x50),
            PixelFormat::PixelFormat40bppYCC444Alpha => Self::family(0x51),
            PixelFormat::PixelFormat64bppYCC444Alpha => Self::family(0x52),
            PixelFormat::PixelFormat64bppYCC444AlphaFixedPoint => Self::family(0x53),
            PixelFormat::PixelFormat32bppCMYKDIRECT => Self::family(0x54),
            PixelFormat::PixelFormat64bppCMYKDIRECT => Self::family(0x55),
            PixelFormat::PixelFormat40bppCMYKDIRECTAlpha => Self::family(0x56),
            PixelFormat::PixelFormat80bppCMYKDIRECTAlpha => Self::family(0x57),
        }
    }

    /// Look up the pixel format that stands for the given identifier.
    ///
    /// Returns [`JXRError::UnrecognizedPixelFormat`] exactly when the
    /// identifier is outside the registry's table; never panics.
    pub fn from_guid(id: &FormatId) -> (r: Result<PixelFormat, JXRError>)
        ensures
            r == from_guid_spec(*id),
    {
        if *id == PixelFormat::PixelFormatDontCare.guid() {
            Ok(PixelFormat::PixelFormatDontCare)
        } else if *id == PixelFormat::PixelFormatBlackWhite.guid() {
            Ok(PixelFormat::PixelFormatBlackWhite)
        } else if *id == PixelFormat::PixelFormat8bppGray.guid() {
            Ok(PixelFormat::PixelFormat8bppGray)
        } else if *id == PixelFormat::PixelFormat16bppRGB555.guid() {
            Ok(PixelFormat::PixelFormat16bppRGB555)
        } else if *id == PixelFormat::PixelFormat16bppRGB565.guid() {
            Ok(PixelFormat::PixelFormat16bppRGB565)
        } else if *id == PixelFormat::PixelFormat16bppGray.guid() {
            Ok(PixelFormat::PixelFormat16bppGray)
        } else if *id == PixelFormat::PixelFormat24bppBGR.guid() {
            Ok(PixelFormat::PixelFormat24bppBGR)
        } else if *id == PixelFormat::PixelFormat24bppRGB.guid() {
            Ok(PixelFormat::PixelFormat24bppRGB)
        } else if *id == PixelFormat::PixelFormat32bppBGR.guid() {
            Ok(PixelFormat::PixelFormat32bppBGR)
        } else if *id == PixelFormat::PixelFormat32bppBGRA.guid() {
            Ok(PixelFormat::PixelFormat32bppBGRA)
        } else if *id == PixelFormat::PixelFormat32bppPBGRA.guid() {
            Ok(PixelFormat::PixelFormat32bppPBGRA)
        } else if *id == PixelFormat::PixelFormat32bppGrayFloat.guid() {
            Ok(PixelFormat::PixelFormat32bppGrayFloat)
        } else if *id == PixelFormat::PixelFormat32bppRGB.guid() {
            Ok(PixelFormat::PixelFormat32bppRGB)
        } else if *id == PixelFormat::PixelFormat32bppRGBA.guid() {
            Ok(PixelFormat::PixelFormat32bppRGBA)
        } else if *id == PixelFormat::PixelFormat32bppPRGBA.guid() {
            Ok(PixelFormat::PixelFormat32bppPRGBA)
        } else if *id == PixelFormat::PixelFormat48bppRGBFixedPoint.guid() {
            Ok(PixelFormat::PixelFormat48bppRGBFixedPoint)
        } else if *id == PixelFormat::PixelFormat16bppGrayFixedPoint.guid() {
            Ok(PixelFormat::PixelFormat16bppGrayFixedPoint)
        } else if *id == PixelFormat::PixelFormat32bppRGB101010.guid() {
            Ok(PixelFormat::PixelFormat32bppRGB101010)
        } else if *id == PixelFormat::PixelFormat48bppRGB.guid() {
            Ok(PixelFormat::PixelFormat48bppRGB)
        } else if *id == PixelFormat::PixelFormat64bppRGBA.guid() {
            Ok(PixelFormat::PixelFormat64bppRGBA)
        } else if *id == PixelFormat::PixelFormat64bppPRGBA.guid() {
            Ok(PixelFormat::PixelFormat64bppPRGBA)
        } else if *id == PixelFormat::PixelFormat96bppRGBFixedPoint.guid() {
            Ok(PixelFormat::PixelFormat96bppRGBFixedPoint)
        } else if *id == PixelFormat::PixelFormat96bppRGBFloat.guid() {
            Ok(PixelFormat::PixelFormat96bppRGBFloat)
        } else if *id == PixelFormat::PixelFormat128bppRGBAFloat.guid() {
            Ok(PixelFormat::PixelFormat128bppRGBAFloat)
        } else if *id == PixelFormat::PixelFormat128bppPRGBAFloat.guid() {
            Ok(PixelFormat::PixelFormat128bppPRGBAFloat)
        } else if *id == PixelFormat::PixelFormat128bppRGBFloat.guid() {
            Ok(PixelFormat::PixelFormat128bppRGBFloat)
        } else if *id == PixelFormat::PixelFormat32bpp.guid() {
            Ok(PixelFormat::PixelFormat32bpp)
        } else if *id == PixelFormat::PixelFormat64bppRGBAFixedPoint.guid() {
            Ok(PixelFormat::PixelFormat64bppRGBAFixedPoint)
        } else if *id == PixelFormat::PixelFormat64bppRGBFixedPoint.guid() {
            Ok(PixelFormat::PixelFormat64bppRGBFixedPoint)
        } else if *id == PixelFormat::PixelFormat128bppRGBAFixedPoint.guid() {
            Ok(PixelFormat::PixelFormat128bppRGBAFixedPoint)
        } else if *id == PixelFormat::PixelFormat128bppRGBFixedPoint.guid() {
            Ok(PixelFormat::PixelFormat128bppRGBFixedPoint)
        } else if *id == PixelFormat::PixelFormat64bppRGBAHalf.guid() {
            Ok(PixelFormat::PixelFormat64bppRGBAHalf)
        } else if *id == PixelFormat::PixelFormat64bppRGBHalf.guid() {
            Ok(PixelFormat::PixelFormat64bppRGBHalf)
        } else if *id == PixelFormat::PixelFormat48bppRGBHalf.guid() {
            Ok(PixelFormat::PixelFormat48bppRGBHalf)
        } else if *id == PixelFormat::PixelFormat32bppRGBE.guid() {
            Ok(PixelFormat::PixelFormat32bppRGBE)
        } else if *id == PixelFormat::PixelFormat16bppGrayHalf.guid() {
            Ok(PixelFormat::PixelFormat16bppGrayHalf)
        } else if *id == PixelFormat::PixelFormat32bppGrayFixedPoint.guid() {
            Ok(PixelFormat::PixelFormat32bppGrayFixedPoint)
        } else if *id == PixelFormat::PixelFormat64bppCMYK.guid() {
            Ok(PixelFormat::PixelFormat64bppCMYK)
        } else if *id == PixelFormat::PixelFormat24bpp3Channels.guid() {
            Ok(PixelFormat::PixelFormat24bpp3Channels)
        } else if *id == PixelFormat::PixelFormat32bpp4Channels.guid() {
            Ok(PixelFormat::PixelFormat32bpp4Channels)
        } else if *id == PixelFormat::PixelFormat40bpp5Channels.guid() {
            Ok(PixelFormat::PixelFormat40bpp5Channels)
        } else if *id == PixelFormat::PixelFormat48bpp6Channels.guid() {
            Ok(PixelFormat::PixelFormat48bpp6Channels)
        } else if *id == PixelFormat::PixelFormat56bpp7Channels.guid() {
            Ok(PixelFormat::PixelFormat56bpp7Channels)
        } else if *id == PixelFormat::PixelFormat64bpp8Channels.guid() {
            Ok(PixelFormat::PixelFormat64bpp8Channels)
        } else if *id == PixelFormat::PixelFormat48bpp3Channels.guid() {
            Ok(PixelFormat::PixelFormat48bpp3Channels)
        } else if *id == PixelFormat::PixelFormat64bpp4Channels.guid() {
            Ok(PixelFormat::PixelFormat64bpp4Channels)
        } else if *id == PixelFormat::PixelFormat80bpp5Channels.guid() {
            Ok(PixelFormat::PixelFormat80bpp5Channels)
        } else if *id == PixelFormat::PixelFormat96bpp6Channels.guid() {
            Ok(PixelFormat::PixelFormat96bpp6Channels)
        } else if *id == PixelFormat::PixelFormat112bpp7Channels.guid() {
            Ok(PixelFormat::PixelFormat112bpp7Channels)
        } else if *id == PixelFormat::PixelFormat128bpp8Channels.guid() {
            Ok(PixelFormat::PixelFormat128bpp8Channels)
        } else if *id == PixelFormat::PixelFormat40bppCMYKAlpha.guid() {
            Ok(PixelFormat::PixelFormat40bppCMYKAlpha)
        } else if *id == PixelFormat::PixelFormat80bppCMYKAlpha.guid() {
            Ok(PixelFormat::PixelFormat80bppCMYKAlpha)
        } else if *id == PixelFormat::PixelFormat32bpp3ChannelsAlpha.guid() {
            Ok(PixelFormat::PixelFormat32bpp3ChannelsAlpha)
        } else if *id == PixelFormat::PixelFormat40bpp4ChannelsAlpha.guid() {
            Ok(PixelFormat::PixelFormat40bpp4ChannelsAlpha)
        } else if *id == PixelFormat::PixelFormat48bpp5ChannelsAlpha.guid() {
            Ok(PixelFormat::PixelFormat48bpp5ChannelsAlpha)
        } else if *id == PixelFormat::PixelFormat56bpp6ChannelsAlpha.guid() {
            Ok(PixelFormat::PixelFormat56bpp6ChannelsAlpha)
        } else if *id == PixelFormat::PixelFormat64bpp7ChannelsAlpha.guid() {
            Ok(PixelFormat::PixelFormat64bpp7ChannelsAlpha)
        } else if *id == PixelFormat::PixelFormat72bpp8ChannelsAlpha.guid() {
            Ok(PixelFormat::PixelFormat72bpp8ChannelsAlpha)
        } else if *id == PixelFormat::PixelFormat64bpp3ChannelsAlpha.guid() {
            Ok(PixelFormat::PixelFormat64bpp3ChannelsAlpha)
        } else if *id == PixelFormat::PixelFormat80bpp4ChannelsAlpha.guid() {
            Ok(PixelFormat::PixelFormat80bpp4ChannelsAlpha)
        } else if *id == PixelFormat::PixelFormat96bpp5ChannelsAlpha.guid() {
            Ok(PixelFormat::PixelFormat96bpp5ChannelsAlpha)
        } else if *id == PixelFormat::PixelFormat112bpp6ChannelsAlpha.guid() {
            Ok(PixelFormat::PixelFormat112bpp6ChannelsAlpha)
        } else if *id == PixelFormat::PixelFormat128bpp7ChannelsAlpha.guid() {
            Ok(PixelFormat::PixelFormat128bpp7ChannelsAlpha)
        } else if *id == PixelFormat::PixelFormat144bpp8ChannelsAlpha.guid() {
            Ok(PixelFormat::PixelFormat144bpp8ChannelsAlpha)
        } else if *id == PixelFormat::PixelFormat12bppYCC420.guid() {
            Ok(PixelFormat::PixelFormat12bppYCC420)
        } else if *id == PixelFormat::PixelFormat16bppYCC422.guid() {
            Ok(PixelFormat::PixelFormat16bppYCC422)
        } else if *id == PixelFormat::PixelFormat20bppYCC422.guid() {
            Ok(PixelFormat::PixelFormat20bppYCC422)
        } else if *id == PixelFormat::PixelFormat32bppYCC422.guid() {
            Ok(PixelFormat::PixelFormat32bppYCC422)
        } else if *id == PixelFormat::PixelFormat24bppYCC444.guid() {
            Ok(PixelFormat::PixelFormat24bppYCC444)
        } else if *id == PixelFormat::PixelFormat30bppYCC444.guid() {
            Ok(PixelFormat::PixelFormat30bppYCC444)
        } else if *id == PixelFormat::PixelFormat48bppYCC444.guid() {
            Ok(PixelFormat::PixelFormat48bppYCC444)
        } else if *id == PixelFormat::PixelFormat16bpp48bppYCC444FixedPoint.guid() {
            Ok(PixelFormat::PixelFormat16bpp48bppYCC444FixedPoint)
        } else if *id == PixelFormat::PixelFormat20bppYCC420Alpha.guid() {
            Ok(PixelFormat::PixelFormat20bppYCC420Alpha)
        } else if *id == PixelFormat::PixelFormat24bppYCC422Alpha.guid() {
            Ok(PixelFormat::PixelFormat24bppYCC422Alpha)
        } else if *id == PixelFormat::PixelFormat30bppYCC422Alpha.guid() {
            Ok(PixelFormat::PixelFormat30bppYCC422Alpha)
        } else if *id == PixelFormat::PixelFormat48bppYCC422Alpha.guid() {
            Ok(PixelFormat::PixelFormat48bppYCC422Alpha)
        } else if *id == PixelFormat::PixelFormat32bppYCC444Alpha.guid() {
            Ok(PixelFormat::PixelFormat32bppYCC444Alpha)
        } else if *id == PixelFormat::PixelFormat40bppYCC444Alpha.guid() {
            Ok(PixelFormat::PixelFormat40bppYCC444Alpha)
        } else if *id == PixelFormat::PixelFormat64bppYCC444Alpha.guid() {
            Ok(PixelFormat::PixelFormat64bppYCC444Alpha)
        } else if *id == PixelFormat::PixelFormat64bppYCC444AlphaFixedPoint.guid() {
            Ok(PixelFormat::PixelFormat64bppYCC444AlphaFixedPoint)
        } else if *id == PixelFormat::PixelFormat32bppCMYKDIRECT.guid() {
            Ok(PixelFormat::PixelFormat32bppCMYKDIRECT)
        } else if *id == PixelFormat::PixelFormat64bppCMYKDIRECT.guid() {
            Ok(PixelFormat::PixelFormat64bppCMYKDIRECT)
        } else if *id == PixelFormat::PixelFormat40bppCMYKDIRECTAlpha.guid() {
            Ok(PixelFormat::PixelFormat40bppCMYKDIRECTAlpha)
        } else if *id == PixelFormat::PixelFormat80bppCMYKDIRECTAlpha.guid() {
            Ok(PixelFormat::PixelFormat80bppCMYKDIRECTAlpha)
        } else {
            Err(JXRError::UnrecognizedPixelFormat)
        }
    }
}


/// Round-trip law of the registry: looking up the identifier of any
/// supported pixel format yields that same pixel format back.
pub proof fn lemma_format_round_trip(f: PixelFormat)
    ensures
        from_guid_spec(guid_spec(f)) == Ok::<PixelFormat, JXRError>(f),
{
}

/// Totality law of the reverse lookup: an identifier either belongs to
/// exactly one supported pixel format, or is rejected with the distinguished
/// unrecognized-format error; no identifier does anything else.
pub proof fn lemma_unknown_format_rejected(id: FormatId)
    ensures
        (from_guid_spec(id) matches Ok(f) ==> guid_spec(f) == id),
        (from_guid_spec(id) is Err ==> from_guid_spec(id) == Err::<PixelFormat, JXRError>(
            JXRError::UnrecognizedPixelFormat,
        ) && forall|f: PixelFormat| guid_spec(f) != id),
{
}

} // verus!
