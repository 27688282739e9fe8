//! Tests for the decoder handle: lifecycle, metadata queries, and region
//! copies on constructed containers.

use jpegxr::ByteSource;
use jpegxr::ColorFormat;
use jpegxr::FormatId;
use jpegxr::ImageDecode;
use jpegxr::JXRError;
use jpegxr::PhotometricInterpretation;
use jpegxr::PixelFormat;
use jpegxr::PixelInfo;
use jpegxr::Rect;

fn id_bytes(id: FormatId) -> [u8; 16] {
    let mut b = [0u8; 16];
    b[0..4].copy_from_slice(&id.data1.to_le_bytes());
    b[4..6].copy_from_slice(&id.data2.to_le_bytes());
    b[6..8].copy_from_slice(&id.data3.to_le_bytes());
    b[8..16].copy_from_slice(&id.data4.to_be_bytes());
    b
}

fn push_entry(out: &mut Vec<u8>, tag: u16, typ: u16, count: u32, value: u32) {
    out.extend_from_slice(&tag.to_le_bytes());
    out.extend_from_slice(&typ.to_le_bytes());
    out.extend_from_slice(&count.to_le_bytes());
    out.extend_from_slice(&value.to_le_bytes());
}

/// A minimal well-formed container: signature, directory of five entries,
/// the 16-byte format identifier, then the codestream payload.
fn build_container(id: FormatId, width: u32, height: u32, payload: &[u8]) -> Vec<u8> {
    let mut out = vec![0x49, 0x49, 0xbc, 0x01];
    out.extend_from_slice(&8u32.to_le_bytes());
    out.extend_from_slice(&5u16.to_le_bytes());
    let pf_offset = 8 + 2 + 5 * 12;
    let payload_offset = pf_offset + 16;
    push_entry(&mut out, 0xbc01, 1, 16, pf_offset);
    push_entry(&mut out, 0xbc80, 4, 1, width);
    push_entry(&mut out, 0xbc81, 4, 1, height);
    push_entry(&mut out, 0xbc84, 4, 1, payload_offset);
    push_entry(&mut out, 0xbc85, 4, 1, payload.len() as u32);
    out.extend_from_slice(&id_bytes(id));
    out.extend_from_slice(payload);
    out
}

#[test]
fn hdr_panel_metadata_end_to_end() {
    let id = PixelFormat::PixelFormat128bppRGBAFloat.guid();
    let data = build_container(id, 3440, 1440, &[0u8; 64]);
    let decoder = ImageDecode::with_reader(ByteSource::new(data)).unwrap();

    let (width, height) = decoder.get_size().unwrap();
    assert_eq!(width, 3440);
    assert_eq!(height, 1440);

    let pixfmt = decoder.get_pixel_format().unwrap();
    assert_eq!(pixfmt, PixelFormat::PixelFormat128bppRGBAFloat);

    let info = PixelInfo::from_format(pixfmt);
    assert_eq!(info.channels(), 4);
    assert_eq!(info.color_format(), ColorFormat::RGB);
    assert_eq!(info.bit_depth(), jpegxr::BitDepthBits::ThirtyTwoF);
    assert!(info.has_alpha());
    assert!(!info.premultiplied_alpha());
    assert!(!info.bgr());
    assert_eq!(
        info.photometric_interpretation(),
        PhotometricInterpretation::RGB
    );
    assert_eq!(info.samples_per_pixel(), 4);
}

#[test]
fn copy_all_with_natural_stride_succeeds() {
    let id = PixelFormat::PixelFormat32bppRGBA.guid();
    let data = build_container(id, 2, 2, &[7u8; 32]);
    let mut decoder = ImageDecode::with_reader(ByteSource::new(data)).unwrap();
    // Natural stride of a 2-pixel-wide 32bpp image: 8 bytes per scan-line.
    let stride = 8usize;
    let mut dest = vec![0u8; stride * 2];
    assert_eq!(decoder.copy_all(&mut dest, stride), Ok(()));
    // Repeating a sequential full decode is the supported access pattern.
    assert_eq!(decoder.copy_all(&mut dest, stride), Ok(()));
}

#[test]
fn oversized_stride_fails_before_the_decoder() {
    let id = PixelFormat::PixelFormat32bppRGBA.guid();
    // The payload is truncated, so any copy that reached the decoder's
    // read-back would fail with file I/O instead.
    let mut data = build_container(id, 2, 2, &[7u8; 32]);
    data.truncate(data.len() - 16);
    let mut decoder = ImageDecode::with_reader(ByteSource::new(data)).unwrap();
    let mut dest = vec![0u8; 16];
    let stride = (u32::MAX as usize) + 1;
    assert_eq!(
        decoder.copy_all(&mut dest, stride),
        Err(JXRError::TryFromIntError)
    );
}

#[test]
fn truncated_payload_fails_as_file_io() {
    let id = PixelFormat::PixelFormat24bppRGB.guid();
    let mut data = build_container(id, 2, 2, &[1u8; 12]);
    data.truncate(data.len() - 1);
    let mut decoder = ImageDecode::with_reader(ByteSource::new(data)).unwrap();
    let mut dest = vec![0u8; 12];
    assert_eq!(decoder.copy_all(&mut dest, 6), Err(JXRError::FileIO));
}

#[test]
fn out_of_bounds_rect_is_rejected() {
    let id = PixelFormat::PixelFormat24bppRGB.guid();
    let data = build_container(id, 4, 4, &[1u8; 48]);
    let mut decoder = ImageDecode::with_reader(ByteSource::new(data)).unwrap();
    let mut dest = vec![0u8; 48];
    let wide = Rect::new(0, 0, 5, 4);
    assert_eq!(
        decoder.copy(&wide, &mut dest, 12),
        Err(JXRError::InvalidParameter)
    );
    let negative = Rect::new(-1, 0, 2, 2);
    assert_eq!(
        decoder.copy(&negative, &mut dest, 12),
        Err(JXRError::InvalidParameter)
    );
    let inside = Rect::new(1, 1, 2, 2);
    assert_eq!(decoder.copy(&inside, &mut dest, 12), Ok(()));
    assert_eq!(inside.get_x(), 1);
    assert_eq!(inside.get_y(), 1);
    assert_eq!(inside.get_width(), 2);
    assert_eq!(inside.get_height(), 2);
}

#[test]
fn bad_signature_is_unsupported() {
    let id = PixelFormat::PixelFormat24bppRGB.guid();
    let mut data = build_container(id, 2, 2, &[0u8; 12]);
    data[2] = 0x00;
    assert_eq!(
        ImageDecode::with_reader(ByteSource::new(data)).err(),
        Some(JXRError::UnsupportedFormat)
    );
}

#[test]
fn truncated_header_is_file_io() {
    assert_eq!(
        ImageDecode::with_reader(ByteSource::new(vec![0x49, 0x49, 0xbc])).err(),
        Some(JXRError::FileIO)
    );
    let id = PixelFormat::PixelFormat24bppRGB.guid();
    let mut data = build_container(id, 2, 2, &[0u8; 12]);
    // Cut inside the directory.
    data.truncate(20);
    assert_eq!(
        ImageDecode::with_reader(ByteSource::new(data)).err(),
        Some(JXRError::FileIO)
    );
}

#[test]
fn missing_required_entry_is_unsupported() {
    let id = PixelFormat::PixelFormat24bppRGB.guid();
    let mut data = build_container(id, 2, 2, &[0u8; 12]);
    // Retag the height entry as something this layer does not consume.
    let height_entry = 8 + 2 + 2 * 12;
    data[height_entry] = 0x00;
    data[height_entry + 1] = 0x00;
    assert_eq!(
        ImageDecode::with_reader(ByteSource::new(data)).err(),
        Some(JXRError::UnsupportedFormat)
    );
}

#[test]
fn zero_extent_is_invalid_data() {
    let id = PixelFormat::PixelFormat24bppRGB.guid();
    let data = build_container(id, 0, 2, &[0u8; 12]);
    assert_eq!(
        ImageDecode::with_reader(ByteSource::new(data)).err(),
        Some(JXRError::InvalidData)
    );
}

#[test]
fn unknown_identifier_opens_but_has_no_pixel_format() {
    let odd = FormatId::new(0x01020304, 0x0506, 0x0708, 0x090a0b0c0d0e0f10);
    let data = build_container(odd, 2, 2, &[0u8; 12]);
    let decoder = ImageDecode::with_reader(ByteSource::new(data)).unwrap();
    assert_eq!(decoder.get_size().unwrap(), (2, 2));
    assert_eq!(
        decoder.get_pixel_format(),
        Err(JXRError::UnrecognizedPixelFormat)
    );
}

#[test]
fn handles_do_not_leak_when_dropped_without_decoding() {
    let id = PixelFormat::PixelFormat8bppGray.guid();
    let data = build_container(id, 2, 2, &[0u8; 4]);
    for _ in 0..10_000 {
        let decoder = ImageDecode::with_reader(ByteSource::new(data.clone())).unwrap();
        drop(decoder);
    }
}

#[test]
fn source_is_recoverable_and_reusable() {
    let id = PixelFormat::PixelFormat8bppGray.guid();
    let data = build_container(id, 2, 2, &[9u8; 4]);
    let decoder = ImageDecode::with_reader(ByteSource::new(data.clone())).unwrap();
    // Reclaiming the source forfeits the decoder.
    let source = decoder.into_reader();
    // The same source opens again: initialization rewinds it itself.
    let second = ImageDecode::with_reader(source).unwrap();
    assert_eq!(second.get_size().unwrap(), (2, 2));
    assert_eq!(second.into_reader().into_inner(), data);
}

#[test]
fn later_directory_entries_overwrite_earlier_ones() {
    let id = PixelFormat::PixelFormat8bppGray.guid();
    let mut out = vec![0x49, 0x49, 0xbc, 0x01];
    out.extend_from_slice(&8u32.to_le_bytes());
    out.extend_from_slice(&6u16.to_le_bytes());
    let pf_offset = 8 + 2 + 6 * 12;
    let payload_offset = pf_offset + 16;
    push_entry(&mut out, 0xbc01, 1, 16, pf_offset);
    push_entry(&mut out, 0xbc80, 4, 1, 5);
    push_entry(&mut out, 0xbc80, 4, 1, 7);
    push_entry(&mut out, 0xbc81, 4, 1, 3);
    push_entry(&mut out, 0xbc84, 4, 1, payload_offset);
    push_entry(&mut out, 0xbc85, 4, 1, 21);
    out.extend_from_slice(&id_bytes(id));
    out.extend_from_slice(&[0u8; 21]);
    let decoder = ImageDecode::with_reader(ByteSource::new(out)).unwrap();
    assert_eq!(decoder.get_size().unwrap(), (7, 3));
}

#[test]
fn unknown_directory_entries_are_ignored() {
    let id = PixelFormat::PixelFormat8bppGray.guid();
    let mut out = vec![0x49, 0x49, 0xbc, 0x01];
    out.extend_from_slice(&8u32.to_le_bytes());
    out.extend_from_slice(&6u16.to_le_bytes());
    let pf_offset = 8 + 2 + 6 * 12;
    let payload_offset = pf_offset + 16;
    push_entry(&mut out, 0x0103, 3, 1, 1);
    push_entry(&mut out, 0xbc01, 1, 16, pf_offset);
    push_entry(&mut out, 0xbc80, 3, 1, 2);
    push_entry(&mut out, 0xbc81, 3, 1, 2);
    push_entry(&mut out, 0xbc84, 4, 1, payload_offset);
    push_entry(&mut out, 0xbc85, 4, 1, 4);
    out.extend_from_slice(&id_bytes(id));
    out.extend_from_slice(&[0u8; 4]);
    let decoder = ImageDecode::with_reader(ByteSource::new(out)).unwrap();
    assert_eq!(decoder.get_size().unwrap(), (2, 2));
    assert_eq!(
        decoder.get_pixel_format().unwrap(),
        PixelFormat::PixelFormat8bppGray
    );
}

#[test]
fn entry_of_unexpected_type_is_not_consumed() {
    let id = PixelFormat::PixelFormat8bppGray.guid();
    let mut data = build_container(id, 2, 2, &[0u8; 4]);
    // Rewrite the width entry's type code to one this layer does not take
    // a scalar from; the width is then missing.
    let width_entry = 8 + 2 + 12;
    data[width_entry + 2] = 2;
    assert_eq!(
        ImageDecode::with_reader(ByteSource::new(data)).err(),
        Some(JXRError::UnsupportedFormat)
    );
}

#[test]
fn directory_may_follow_the_payload() {
    let id = PixelFormat::PixelFormat8bppGray.guid();
    let payload = [6u8; 9];
    let payload_offset = 8u32;
    let pf_offset = payload_offset + payload.len() as u32;
    let ifd_offset = pf_offset + 16;
    let mut out = vec![0x49, 0x49, 0xbc, 0x01];
    out.extend_from_slice(&ifd_offset.to_le_bytes());
    out.extend_from_slice(&payload);
    out.extend_from_slice(&id_bytes(id));
    out.extend_from_slice(&5u16.to_le_bytes());
    push_entry(&mut out, 0xbc01, 1, 16, pf_offset);
    push_entry(&mut out, 0xbc80, 4, 1, 3);
    push_entry(&mut out, 0xbc81, 4, 1, 3);
    push_entry(&mut out, 0xbc84, 4, 1, payload_offset);
    push_entry(&mut out, 0xbc85, 4, 1, payload.len() as u32);
    let mut decoder = ImageDecode::with_reader(ByteSource::new(out)).unwrap();
    assert_eq!(decoder.get_size().unwrap(), (3, 3));
    let mut dest = vec![0u8; 9];
    assert_eq!(decoder.copy_all(&mut dest, 3), Ok(()));
}
