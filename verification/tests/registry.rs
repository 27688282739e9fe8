//! Tests for the status translator, the format registry, and the derived
//! pixel metadata.

use jpegxr::call;
use jpegxr::BitDepthBits;
use jpegxr::ColorFormat;
use jpegxr::FormatId;
use jpegxr::JXRError;
use jpegxr::PhotometricInterpretation;
use jpegxr::PixelFormat;
use jpegxr::PixelInfo;

fn all_formats() -> Vec<PixelFormat> {
    vec![
        PixelFormat::PixelFormatDontCare,
        PixelFormat::PixelFormatBlackWhite,
        PixelFormat::PixelFormat8bppGray,
        PixelFormat::PixelFormat16bppRGB555,
        PixelFormat::PixelFormat16bppRGB565,
        PixelFormat::PixelFormat16bppGray,
        PixelFormat::PixelFormat24bppBGR,
        PixelFormat::PixelFormat24bppRGB,
        PixelFormat::PixelFormat32bppBGR,
        PixelFormat::PixelFormat32bppBGRA,
        PixelFormat::PixelFormat32bppPBGRA,
        PixelFormat::PixelFormat32bppGrayFloat,
        PixelFormat::PixelFormat32bppRGB,
        PixelFormat::PixelFormat32bppRGBA,
        PixelFormat::PixelFormat32bppPRGBA,
        PixelFormat::PixelFormat48bppRGBFixedPoint,
        PixelFormat::PixelFormat16bppGrayFixedPoint,
        PixelFormat::PixelFormat32bppRGB101010,
        PixelFormat::PixelFormat48bppRGB,
        PixelFormat::PixelFormat64bppRGBA,
        PixelFormat::PixelFormat64bppPRGBA,
        PixelFormat::PixelFormat96bppRGBFixedPoint,
        PixelFormat::PixelFormat96bppRGBFloat,
        PixelFormat::PixelFormat128bppRGBAFloat,
        PixelFormat::PixelFormat128bppPRGBAFloat,
        PixelFormat::PixelFormat128bppRGBFloat,
        PixelFormat::PixelFormat32bpp,
        PixelFormat::PixelFormat64bppRGBAFixedPoint,
        PixelFormat::PixelFormat64bppRGBFixedPoint,
        PixelFormat::PixelFormat128bppRGBAFixedPoint,
        PixelFormat::PixelFormat128bppRGBFixedPoint,
        PixelFormat::PixelFormat64bppRGBAHalf,
        PixelFormat::PixelFormat64bppRGBHalf,
        PixelFormat::PixelFormat48bppRGBHalf,
        PixelFormat::PixelFormat32bppRGBE,
        PixelFormat::PixelFormat16bppGrayHalf,
        PixelFormat::PixelFormat32bppGrayFixedPoint,
        PixelFormat::PixelFormat64bppCMYK,
        PixelFormat::PixelFormat24bpp3Channels,
        PixelFormat::PixelFormat32bpp4Channels,
        PixelFormat::PixelFormat40bpp5Channels,
        PixelFormat::PixelFormat48bpp6Channels,
        PixelFormat::PixelFormat56bpp7Channels,
        PixelFormat::PixelFormat64bpp8Channels,
        PixelFormat::PixelFormat48bpp3Channels,
        PixelFormat::PixelFormat64bpp4Channels,
        PixelFormat::PixelFormat80bpp5Channels,
        PixelFormat::PixelFormat96bpp6Channels,
        PixelFormat::PixelFormat112bpp7Channels,
        PixelFormat::PixelFormat128bpp8Channels,
        PixelFormat::PixelFormat40bppCMYKAlpha,
        PixelFormat::PixelFormat80bppCMYKAlpha,
        PixelFormat::PixelFormat32bpp3ChannelsAlpha,
        PixelFormat::PixelFormat40bpp4ChannelsAlpha,
        PixelFormat::PixelFormat48bpp5ChannelsAlpha,
        PixelFormat::PixelFormat56bpp6ChannelsAlpha,
        PixelFormat::PixelFormat64bpp7ChannelsAlpha,
        PixelFormat::PixelFormat72bpp8ChannelsAlpha,
        PixelFormat::PixelFormat64bpp3ChannelsAlpha,
        PixelFormat::PixelFormat80bpp4ChannelsAlpha,
        PixelFormat::PixelFormat96bpp5ChannelsAlpha,
        PixelFormat::PixelFormat112bpp6ChannelsAlpha,
        PixelFormat::PixelFormat128bpp7ChannelsAlpha,
        PixelFormat::PixelFormat144bpp8ChannelsAlpha,
        PixelFormat::PixelFormat12bppYCC420,
        PixelFormat::PixelFormat16bppYCC422,
        PixelFormat::PixelFormat20bppYCC422,
        PixelFormat::PixelFormat32bppYCC422,
        PixelFormat::PixelFormat24bppYCC444,
        PixelFormat::PixelFormat30bppYCC444,
        PixelFormat::PixelFormat48bppYCC444,
        PixelFormat::PixelFormat16bpp48bppYCC444FixedPoint,
        PixelFormat::PixelFormat20bppYCC420Alpha,
        PixelFormat::PixelFormat24bppYCC422Alpha,
        PixelFormat::PixelFormat30bppYCC422Alpha,
        PixelFormat::PixelFormat48bppYCC422Alpha,
        PixelFormat::PixelFormat32bppYCC444Alpha,
        PixelFormat::PixelFormat40bppYCC444Alpha,
        PixelFormat::PixelFormat64bppYCC444Alpha,
        PixelFormat::PixelFormat64bppYCC444AlphaFixedPoint,
        PixelFormat::PixelFormat32bppCMYKDIRECT,
        PixelFormat::PixelFormat64bppCMYKDIRECT,
        PixelFormat::PixelFormat40bppCMYKDIRECTAlpha,
        PixelFormat::PixelFormat80bppCMYKDIRECTAlpha,
    ]
}

#[test]
fn round_trip_every_format() {
    let formats = all_formats();
    assert_eq!(formats.len(), 84);
    for f in formats {
        let id = f.guid();
        assert_eq!(PixelFormat::from_guid(&id), Ok(f));
    }
}

#[test]
fn registry_has_no_duplicate_identifiers() {
    let formats = all_formats();
    for i in 0..formats.len() {
        for j in 0..formats.len() {
            if i != j {
                assert_ne!(formats[i].guid(), formats[j].guid());
            }
        }
    }
}

#[test]
fn unknown_format_id_is_rejected() {
    let odd = FormatId::new(1, 2, 3, 4);
    assert_eq!(
        PixelFormat::from_guid(&odd),
        Err(JXRError::UnrecognizedPixelFormat)
    );
    // A near miss inside the shared identifier family.
    let near = FormatId::new(0x6fddc324, 0x4e03, 0x4bfe, 0xb1853d77768dc901);
    assert_eq!(
        PixelFormat::from_guid(&near),
        Err(JXRError::UnrecognizedPixelFormat)
    );
}

#[test]
fn status_translator_success_codes() {
    assert_eq!(call(0), Ok(()));
    assert_eq!(call(1), Ok(()));
    assert_eq!(call(i64::MAX), Ok(()));
}

#[test]
fn status_translator_known_failures() {
    assert_eq!(call(-1), Err(JXRError::Fail));
    assert_eq!(call(-2), Err(JXRError::NotYetImplemented));
    assert_eq!(call(-3), Err(JXRError::AbstractMethod));
    assert_eq!(call(-101), Err(JXRError::OutOfMemory));
    assert_eq!(call(-102), Err(JXRError::FileIO));
    assert_eq!(call(-103), Err(JXRError::BufferOverflow));
    assert_eq!(call(-104), Err(JXRError::InvalidParameter));
    assert_eq!(call(-105), Err(JXRError::InvalidArgument));
    assert_eq!(call(-106), Err(JXRError::UnsupportedFormat));
    assert_eq!(call(-107), Err(JXRError::IncorrectCodecVersion));
    assert_eq!(call(-108), Err(JXRError::IndexNotFound));
    assert_eq!(call(-109), Err(JXRError::OutOfSequence));
    assert_eq!(call(-110), Err(JXRError::NotInitialized));
    assert_eq!(
        call(-111),
        Err(JXRError::MustBeMultipleOf16LinesUntilLastCall)
    );
    assert_eq!(
        call(-112),
        Err(JXRError::PlanarAlphaBandedEncRequiresTempFile)
    );
    assert_eq!(call(-113), Err(JXRError::AlphaModeCannotBeTranscoded));
    assert_eq!(call(-114), Err(JXRError::IncorrectCodecSubVersion));
}

#[test]
fn status_translator_unknown_codes_never_fail_to_translate() {
    assert_eq!(call(-4), Err(JXRError::UnknownError));
    assert_eq!(call(-100), Err(JXRError::UnknownError));
    assert_eq!(call(-115), Err(JXRError::UnknownError));
    assert_eq!(call(-999), Err(JXRError::UnknownError));
    assert_eq!(call(i64::MIN), Err(JXRError::UnknownError));
}

#[test]
fn color_format_codes_decode_exactly() {
    assert_eq!(ColorFormat::from_raw(0), Ok(ColorFormat::YOnly));
    assert_eq!(ColorFormat::from_raw(1), Ok(ColorFormat::YUV420));
    assert_eq!(ColorFormat::from_raw(2), Ok(ColorFormat::YUV422));
    assert_eq!(ColorFormat::from_raw(3), Ok(ColorFormat::YUV444));
    assert_eq!(ColorFormat::from_raw(4), Ok(ColorFormat::CMYK));
    assert_eq!(ColorFormat::from_raw(6), Ok(ColorFormat::NComponent));
    assert_eq!(ColorFormat::from_raw(7), Ok(ColorFormat::RGB));
    assert_eq!(ColorFormat::from_raw(8), Ok(ColorFormat::RGBE));
    assert_eq!(
        ColorFormat::from_raw(5),
        Err(JXRError::UnrecognizedColorFormat)
    );
    assert_eq!(
        ColorFormat::from_raw(9),
        Err(JXRError::UnrecognizedColorFormat)
    );
}

#[test]
fn bit_depth_codes_decode_exactly() {
    assert_eq!(BitDepthBits::from_raw(0), Ok(BitDepthBits::One));
    assert_eq!(BitDepthBits::from_raw(1), Ok(BitDepthBits::Eight));
    assert_eq!(BitDepthBits::from_raw(2), Ok(BitDepthBits::Sixteen));
    assert_eq!(BitDepthBits::from_raw(3), Ok(BitDepthBits::SixteenS));
    assert_eq!(BitDepthBits::from_raw(4), Ok(BitDepthBits::SixteenF));
    assert_eq!(BitDepthBits::from_raw(5), Ok(BitDepthBits::ThirtyTwo));
    assert_eq!(BitDepthBits::from_raw(6), Ok(BitDepthBits::ThirtyTwoS));
    assert_eq!(BitDepthBits::from_raw(7), Ok(BitDepthBits::ThirtyTwoF));
    assert_eq!(BitDepthBits::from_raw(8), Ok(BitDepthBits::Five));
    assert_eq!(BitDepthBits::from_raw(9), Ok(BitDepthBits::Ten));
    assert_eq!(BitDepthBits::from_raw(10), Ok(BitDepthBits::FiveSixFive));
    assert_eq!(BitDepthBits::from_raw(15), Ok(BitDepthBits::OneAlt));
    assert_eq!(
        BitDepthBits::from_raw(11),
        Err(JXRError::UnrecognizedBitDepth)
    );
    assert_eq!(
        BitDepthBits::from_raw(16),
        Err(JXRError::UnrecognizedBitDepth)
    );
}

#[test]
fn interpretation_codes_decode_exactly() {
    assert_eq!(PhotometricInterpretation::from_raw(0), Ok(PhotometricInterpretation::WhiteIsZero));
    assert_eq!(PhotometricInterpretation::from_raw(1), Ok(PhotometricInterpretation::BlackIsZero));
    assert_eq!(PhotometricInterpretation::from_raw(2), Ok(PhotometricInterpretation::RGB));
    assert_eq!(PhotometricInterpretation::from_raw(3), Ok(PhotometricInterpretation::RGBPalette));
    assert_eq!(PhotometricInterpretation::from_raw(4), Ok(PhotometricInterpretation::TransparencyMask));
    assert_eq!(PhotometricInterpretation::from_raw(5), Ok(PhotometricInterpretation::CMYK));
    assert_eq!(PhotometricInterpretation::from_raw(6), Ok(PhotometricInterpretation::YCbCr));
    assert_eq!(PhotometricInterpretation::from_raw(8), Ok(PhotometricInterpretation::CIELab));
    assert_eq!(PhotometricInterpretation::from_raw(100), Ok(PhotometricInterpretation::NCH));
    assert_eq!(PhotometricInterpretation::from_raw(101), Ok(PhotometricInterpretation::RGBE));
    assert_eq!(
        PhotometricInterpretation::from_raw(7),
        Err(JXRError::UnrecognizedInterpretation)
    );
    assert_eq!(
        PhotometricInterpretation::from_raw(102),
        Err(JXRError::UnrecognizedInterpretation)
    );
}

#[test]
fn hdr_float_format_metadata() {
    let info = PixelInfo::from_format(PixelFormat::PixelFormat128bppRGBAFloat);
    assert_eq!(info.format(), PixelFormat::PixelFormat128bppRGBAFloat);
    assert_eq!(info.channels(), 4);
    assert_eq!(info.color_format(), ColorFormat::RGB);
    assert_eq!(info.bit_depth(), BitDepthBits::ThirtyTwoF);
    assert_eq!(info.bits_per_pixel(), 128);
    assert!(info.has_alpha());
    assert!(!info.premultiplied_alpha());
    assert!(!info.bgr());
    assert_eq!(
        info.photometric_interpretation(),
        PhotometricInterpretation::RGB
    );
    assert_eq!(info.samples_per_pixel(), 4);
}

#[test]
fn flagged_format_metadata() {
    let bgr = PixelInfo::from_format(PixelFormat::PixelFormat24bppBGR);
    assert!(bgr.bgr());
    assert!(!bgr.has_alpha());
    assert_eq!(bgr.bits_per_pixel(), 24);
    let pre = PixelInfo::from_format(PixelFormat::PixelFormat32bppPBGRA);
    assert!(pre.has_alpha());
    assert!(pre.premultiplied_alpha());
    assert!(pre.bgr());
    let gray = PixelInfo::from_format(PixelFormat::PixelFormatBlackWhite);
    assert_eq!(gray.channels(), 1);
    assert_eq!(gray.bit_depth(), BitDepthBits::One);
    assert_eq!(
        gray.photometric_interpretation(),
        PhotometricInterpretation::WhiteIsZero
    );
}

#[test]
fn pixel_info_by_identifier() {
    let id = PixelFormat::PixelFormat64bppCMYK.guid();
    let info = PixelInfo::from_guid(&id).unwrap();
    assert_eq!(info.format(), PixelFormat::PixelFormat64bppCMYK);
    assert_eq!(info.channels(), 4);
    assert_eq!(info.color_format(), ColorFormat::CMYK);
    assert_eq!(info.guid(), id);

    let odd = FormatId::new(0xdeadbeef, 0, 0, 0);
    assert_eq!(
        PixelInfo::from_guid(&odd),
        Err(JXRError::UnrecognizedPixelFormat)
    );
}
