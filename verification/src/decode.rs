//! Decoder handle: owns one decoder instance bound to one stream adapter.
//!
//! The handle is created and initialized in one step — initialization reads
//! the image container's directory through the stream adapter's callbacks,
//! exactly as the decoder core drives them — and afterwards answers format
//! and size queries and region-copy requests.  The decoder core's own work
//! (entropy decoding, prediction, transforms) is out of scope and modeled:
//! this layer states and proves everything it owns — directory parsing,
//! request validation, width checks on the foreign ABI's unsigned stride,
//! status translation, and recovery of the byte source — while pixel
//! reconstruction itself carries no contract here.
//!
//! The container directory is little-endian and TIFF-like: a fixed
//! signature, an offset to a directory of 12-byte tagged entries, and among
//! them the pixel-format identifier, the image extent, and the position of
//! the codestream payload.
//!
//! Release-exactly-once is carried by move semantics: the handle owns its
//! adapter, dropping it releases everything host-side exactly once, and
//! [`ImageDecode::into_reader`] is the one terminal operation that forfeits
//! the decoder and yields the byte source back.

use vstd::prelude::*;

use crate::error::call;
use crate::error::JXRError;
use crate::error::WMP_ERR_SUCCESS;
use crate::format::from_guid_spec;
use crate::format::FormatId;
use crate::format::PixelFormat;
use crate::rect::Rect;
use crate::stream::ByteSource;
use crate::stream::InputStream;
use crate::stream::SourceView;

verus! {

/// Directory tag: offset of the 16-byte pixel-format identifier.
pub const TAG_PIXEL_FORMAT: u32 = 0xbc01;
/// Directory tag: image width in pixels.
pub const TAG_IMAGE_WIDTH: u32 = 0xbc80;
/// Directory tag: image height in pixels.
pub const TAG_IMAGE_HEIGHT: u32 = 0xbc81;
/// Directory tag: absolute offset of the codestream payload.
pub const TAG_IMAGE_OFFSET: u32 = 0xbc84;
/// Directory tag: byte count of the codestream payload.
pub const TAG_IMAGE_BYTE_COUNT: u32 = 0xbc85;

/// Directory entry type code: bytes.
pub const ENTRY_TYPE_BYTE: u32 = 1;
/// Directory entry type code: 16-bit unsigned scalar.
pub const ENTRY_TYPE_USHORT: u32 = 3;
/// Directory entry type code: 32-bit unsigned scalar.
pub const ENTRY_TYPE_ULONG: u32 = 4;

/// The 16-bit little-endian value at offset `i`.
pub open spec fn le16_at(d: Seq<u8>, i: int) -> int {
    d[i] + 0x100 * d[i + 1]
}

/// The 32-bit little-endian value at offset `i`.
pub open spec fn le32_at(d: Seq<u8>, i: int) -> int {
    d[i] + 0x100 * d[i + 1] + 0x10000 * d[i + 2] + 0x1000000 * d[i + 3]
}

/// The format identifier stored in 16 bytes: three little-endian words and
/// eight trailing bytes packed big-endian.
pub open spec fn format_id_of_bytes(b: Seq<u8>) -> FormatId {
    FormatId {
        data1: le32_at(b, 0) as u32,
        data2: le16_at(b, 4) as u16,
        data3: le16_at(b, 6) as u16,
        data4: (b[8] * 0x100000000000000 + b[9] * 0x1000000000000 + b[10] * 0x10000000000 + b[11]
            * 0x100000000 + b[12] * 0x1000000 + b[13] * 0x10000 + b[14] * 0x100 + b[15]) as u64,
    }
}

/// The directory fields this layer consumes, each still optional while the
/// directory is being scanned.
pub ghost struct TagSet {
    /// Offset of the 16-byte pixel-format identifier.
    pub pixel_format_offset: Option<int>,
    /// Image width in pixels.
    pub width: Option<int>,
    /// Image height in pixels.
    pub height: Option<int>,
    /// Absolute offset of the codestream payload.
    pub image_offset: Option<int>,
    /// Byte count of the codestream payload.
    pub image_count: Option<int>,
}

/// The scan state before any entry has been read.
pub open spec fn empty_tags() -> TagSet {
    TagSet {
        pixel_format_offset: None,
        width: None,
        height: None,
        image_offset: None,
        image_count: None,
    }
}

/// The scalar value of the entry at `e`, when its type code is one of the
/// scalar types; entries of any other type are ignored.
pub open spec fn entry_scalar(d: Seq<u8>, e: int) -> Option<int> {
    if le16_at(d, e + 2) == ENTRY_TYPE_USHORT {
        Some(le16_at(d, e + 8))
    } else if le16_at(d, e + 2) == ENTRY_TYPE_ULONG {
        Some(le32_at(d, e + 8))
    } else {
        None
    }
}

/// The scan state after the 12-byte entry at `e` has been applied: a
/// recognized tag of the expected shape overwrites its field, anything else
/// leaves the state as it was.
pub open spec fn apply_entry(acc: TagSet, d: Seq<u8>, e: int) -> TagSet {
    let tag = le16_at(d, e);
    if tag == TAG_PIXEL_FORMAT {
        if le16_at(d, e + 2) == ENTRY_TYPE_BYTE && le32_at(d, e + 4) == 16 {
            TagSet { pixel_format_offset: Some(le32_at(d, e + 8)), ..acc }
        } else {
            acc
        }
    } else if tag == TAG_IMAGE_WIDTH {
        match entry_scalar(d, e) {
            Some(v) => TagSet { width: Some(v), ..acc },
            None => acc,
        }
    } else if tag == TAG_IMAGE_HEIGHT {
        match entry_scalar(d, e) {
            Some(v) => TagSet { height: Some(v), ..acc },
            None => acc,
        }
    } else if tag == TAG_IMAGE_OFFSET {
        match entry_scalar(d, e) {
            Some(v) => TagSet { image_offset: Some(v), ..acc },
            None => acc,
        }
    } else if tag == TAG_IMAGE_BYTE_COUNT {
        match entry_scalar(d, e) {
            Some(v) => TagSet { image_count: Some(v), ..acc },
            None => acc,
        }
    } else {
        acc
    }
}

/// The scan state after the first `n` directory entries at `base`, applied
/// in order with later entries overwriting earlier ones.
pub open spec fn scan_entries(d: Seq<u8>, base: int, n: nat) -> TagSet
    decreases n,
{
    if n == 0 {
        empty_tags()
    } else {
        apply_entry(scan_entries(d, base, (n - 1) as nat), d, base + 12 * (n - 1))
    }
}

/// Everything initialization extracts from a well-formed container.
pub ghost struct HeaderInfo {
    /// The pixel-format identifier, passed through uninterpreted.
    pub format_id: FormatId,
    /// Image width in pixels.
    pub width: int,
    /// Image height in pixels.
    pub height: int,
    /// Absolute offset of the codestream payload.
    pub image_offset: int,
    /// Byte count of the codestream payload.
    pub image_count: int,
}

/// What initialization yields on a byte source with the given contents:
/// the extracted header on success, and otherwise exactly which error —
/// a file-I/O failure where a read runs off the end, the
/// unsupported-format error for a bad signature or a directory missing a
/// required field, and the invalid-data error for an extent that is zero
/// or too wide for the size query's signed result.
pub open spec fn parse_header(d: Seq<u8>) -> Result<HeaderInfo, JXRError> {
    if d.len() < 8 {
        Err(JXRError::FileIO)
    } else if !(d[0] == 0x49 && d[1] == 0x49 && d[2] == 0xbc && d[3] == 0x01) {
        Err(JXRError::UnsupportedFormat)
    } else {
        let ifd = le32_at(d, 4);
        if ifd + 2 > d.len() {
            Err(JXRError::FileIO)
        } else {
            let n = le16_at(d, ifd);
            if ifd + 2 + 12 * n > d.len() {
                Err(JXRError::FileIO)
            } else {
                let tags = scan_entries(d, ifd + 2, n as nat);
                match (
                    tags.pixel_format_offset,
                    tags.width,
                    tags.height,
                    tags.image_offset,
                    tags.image_count,
                ) {
                    (Some(pfo), Some(w), Some(h), Some(off), Some(cnt)) => {
                        if !(1 <= w <= i32::MAX && 1 <= h <= i32::MAX) {
                            Err(JXRError::InvalidData)
                        } else if pfo + 16 > d.len() {
                            Err(JXRError::FileIO)
                        } else {
                            Ok(
                                HeaderInfo {
                                    format_id: format_id_of_bytes(d.subrange(pfo, pfo + 16)),
                                    width: w,
                                    height: h,
                                    image_offset: off,
                                    image_count: cnt,
                                },
                            )
                        }
                    },
                    _ => Err(JXRError::UnsupportedFormat),
                }
            }
        }
    }
}

/// Mathematical model of a decoder handle: the header fields it extracted
/// and the state of the byte source behind its adapter.
pub ghost struct DecoderView {
    /// The pixel-format identifier the container reported.
    pub format_id: FormatId,
    /// Image width in pixels.
    pub width: i32,
    /// Image height in pixels.
    pub height: i32,
    /// Absolute offset of the codestream payload.
    pub image_offset: u32,
    /// Byte count of the codestream payload.
    pub image_count: u32,
    /// The byte source behind the adapter.
    pub source: SourceView,
}

/// Whether a requested rectangle lies within an image extent; requests
/// outside it are rejected with the invalid-parameter status, as the
/// decoder's own validation rejects them.
pub open spec fn rect_in_bounds(rect: Rect, width: i32, height: i32) -> bool {
    &&& 0 <= rect.x
    &&& 0 <= rect.y
    &&& 0 <= rect.width
    &&& 0 <= rect.height
    &&& rect.x + rect.width <= width
    &&& rect.y + rect.height <= height
}

/// The full-image rectangle of a decoder's extent.
pub open spec fn full_rect(v: DecoderView) -> Rect {
    Rect { x: 0, y: 0, width: v.width, height: v.height }
}

/// What a region-copy request yields: a conversion failure before anything
/// else when the stride cannot fit the foreign ABI's unsigned width, then
/// the decoder's rectangle validation, then a file-I/O failure when the
/// codestream payload runs off the end of the source.
pub open spec fn copy_status(v: DecoderView, rect: Rect, stride: int) -> Result<(), JXRError> {
    if stride > u32::MAX {
        Err(JXRError::TryFromIntError)
    } else if !rect_in_bounds(rect, v.width, v.height) {
        Err(JXRError::InvalidParameter)
    } else if v.image_offset + v.image_count > v.source.data.len() {
        Err(JXRError::FileIO)
    } else {
        Ok(())
    }
}

/// A vector of `n` zero bytes, used to size exact reads.
fn zero_vec(n: usize) -> (v: Vec<u8>)
    ensures
        v@.len() == n,
{
    let mut v: Vec<u8> = Vec::new();
    while v.len() < n
        invariant
            v@.len() <= n,
        decreases n - v@.len(),
    {
        v.push(0);
    }
    v
}

/// The 16-bit little-endian value at offset `i` of `buf`.
fn le16(buf: &Vec<u8>, i: usize) -> (r: u32)
    requires
        i + 2 <= buf.len(),
    ensures
        r == le16_at(buf@, i as int),
{
    buf[i] as u32 + 0x100 * (buf[i + 1] as u32)
}

/// The 32-bit little-endian value at offset `i` of `buf`.
fn le32(buf: &Vec<u8>, i: usize) -> (r: u32)
    requires
        i + 4 <= buf.len(),
    ensures
        r == le32_at(buf@, i as int),
{
    buf[i] as u32 + 0x100 * (buf[i + 1] as u32) + 0x10000 * (buf[i + 2] as u32) + 0x1000000 * (buf[
        i + 3
    ] as u32)
}

/// High-level image decoder handle.
///
/// Owns one decoder instance and, while active, exactly one stream adapter
/// around the caller's byte source.  Construction and initialization happen
/// atomically in [`ImageDecode::with_reader`]; afterwards the handle answers
/// queries and copy requests any number of times, and is released exactly
/// once — on drop, or by [`ImageDecode::into_reader`], which recovers the
/// byte source and forfeits the decoder.
pub struct ImageDecode {
    stream: InputStream,
    format_id: FormatId,
    width: i32,
    height: i32,
    image_offset: u32,
    image_count: u32,
}

impl View for ImageDecode {
    type V = DecoderView;

    closed spec fn view(&self) -> DecoderView {
        DecoderView {
            format_id: self.format_id,
            width: self.width,
            height: self.height,
            image_offset: self.image_offset,
            image_count: self.image_count,
            source: self.stream@,
        }
    }
}

impl ImageDecode {
    /// Create a decoder for the given input, consuming the byte source.
    ///
    /// Builds the stream adapter, then initializes the decoder against it
    /// by reading the container directory through the adapter's callbacks.
    /// Succeeds exactly when [`parse_header`] accepts the source's
    /// contents, with the extracted fields; fails with exactly the error
    /// [`parse_header`] assigns, releasing everything built so far — no
    /// partially constructed instance survives a failure.
    #[verifier::loop_isolation(false)]
    pub fn with_reader(reader: ByteSource) -> (r: Result<ImageDecode, JXRError>)
        ensures
            match r {
                Ok(dec) => parse_header(reader@.data) == Ok::<HeaderInfo, JXRError>(
                    HeaderInfo {
                        format_id: dec@.format_id,
                        width: dec@.width as int,
                        height: dec@.height as int,
                        image_offset: dec@.image_offset as int,
                        image_count: dec@.image_count as int,
                    },
                ) && dec@.source.data == reader@.data && 1 <= dec@.width && 1 <= dec@.height,
                Err(e) => parse_header(reader@.data) == Err::<HeaderInfo, JXRError>(e),
            },
    {
        let ghost d = reader@.data;
        let mut stream = InputStream::new(reader);

        // The container starts at the beginning of the source.
        stream.input_stream_set_pos(0);
        let mut buf8 = zero_vec(8);
        call(stream.input_stream_read(&mut buf8))?;
        if !(buf8[0] == 0x49 && buf8[1] == 0x49 && buf8[2] == 0xbc && buf8[3] == 0x01) {
            return Err(JXRError::UnsupportedFormat);
        }
        let ifd = le32(&buf8, 4);

        // Read the directory's entry count.
        stream.input_stream_set_pos(ifd as usize);
        let mut buf2 = zero_vec(2);
        call(stream.input_stream_read(&mut buf2))?;
        let n = le16(&buf2, 0);
        assert(n == le16_at(d, ifd as int));

        // Scan the entries in order; later entries overwrite earlier ones.
        let ghost base = ifd as int + 2;
        let mut pf_off: Option<u32> = None;
        let mut width: Option<u32> = None;
        let mut height: Option<u32> = None;
        let mut img_off: Option<u32> = None;
        let mut img_cnt: Option<u32> = None;
        let mut entry = zero_vec(12);
        let mut j: u32 = 0;
        while j < n
            invariant
                j <= n,
                n <= 0xffff,
                n == le16_at(d, ifd as int),
                ifd == le32_at(d, 4),
                d.len() >= 8,
                d[0] == 0x49 && d[1] == 0x49 && d[2] == 0xbc && d[3] == 0x01,
                ifd + 2 <= d.len(),
                base == ifd as int + 2,
                base + 12 * j <= d.len(),
                entry@.len() == 12,
                stream@ == (SourceView { data: d, pos: base + 12 * j }),
                opt_int(pf_off) == scan_entries(d, base, j as nat).pixel_format_offset,
                opt_int(width) == scan_entries(d, base, j as nat).width,
                opt_int(height) == scan_entries(d, base, j as nat).height,
                opt_int(img_off) == scan_entries(d, base, j as nat).image_offset,
                opt_int(img_cnt) == scan_entries(d, base, j as nat).image_count,
            decreases n - j,
        {
            let ghost e = base + 12 * j;
            let st = stream.input_stream_read(&mut entry);
            if st != WMP_ERR_SUCCESS {
                proof {
                    assert(e + 12 > d.len());
                    assert(ifd + 2 + 12 * le16_at(d, ifd as int) > d.len());
                }
                return Err(JXRError::FileIO);
            }
            assert(entry@ == d.subrange(e, e + 12));
            let tag = le16(&entry, 0);
            let typ = le16(&entry, 2);
            let cnt = le32(&entry, 4);
            if tag == TAG_PIXEL_FORMAT {
                if typ == ENTRY_TYPE_BYTE && cnt == 16 {
                    pf_off = Some(le32(&entry, 8));
                }
            } else if tag == TAG_IMAGE_WIDTH {
                if typ == ENTRY_TYPE_USHORT {
                    width = Some(le16(&entry, 8));
                } else if typ == ENTRY_TYPE_ULONG {
                    width = Some(le32(&entry, 8));
                }
            } else if tag == TAG_IMAGE_HEIGHT {
                if typ == ENTRY_TYPE_USHORT {
                    height = Some(le16(&entry, 8));
                } else if typ == ENTRY_TYPE_ULONG {
                    height = Some(le32(&entry, 8));
                }
            } else if tag == TAG_IMAGE_OFFSET {
                if typ == ENTRY_TYPE_USHORT {
                    img_off = Some(le16(&entry, 8));
                } else if typ == ENTRY_TYPE_ULONG {
                    img_off = Some(le32(&entry, 8));
                }
            } else if tag == TAG_IMAGE_BYTE_COUNT {
                if typ == ENTRY_TYPE_USHORT {
                    img_cnt = Some(le16(&entry, 8));
                } else if typ == ENTRY_TYPE_ULONG {
                    img_cnt = Some(le32(&entry, 8));
                }
            }
            proof {
                assert(le16_at(entry@, 0) == le16_at(d, e));
                assert(le16_at(entry@, 2) == le16_at(d, e + 2));
                assert(le32_at(entry@, 4) == le32_at(d, e + 4));
                assert(le16_at(entry@, 8) == le16_at(d, e + 8));
                assert(le32_at(entry@, 8) == le32_at(d, e + 8));
                assert(scan_entries(d, base, (j + 1) as nat) == apply_entry(
                    scan_entries(d, base, j as nat),
                    d,
                    e,
                ));
            }
            j = j + 1;
        }
        proof {
            assert(ifd + 2 + 12 * le16_at(d, ifd as int) <= d.len());
        }

        // Everything this layer consumes must be present.
        if pf_off.is_none() || width.is_none() || height.is_none() || img_off.is_none()
            || img_cnt.is_none() {
            return Err(JXRError::UnsupportedFormat);
        }
        let pfo = pf_off.unwrap();
        let width_v = width.unwrap();
        let height_v = height.unwrap();
        let off_v = img_off.unwrap();
        let cnt_v = img_cnt.unwrap();

        // The extent must be nonzero and fit the signed size query.
        if width_v == 0 || width_v > i32::MAX as u32 || height_v == 0 || height_v > i32::MAX as u32 {
            return Err(JXRError::InvalidData);
        }

        // Read the 16-byte format identifier.
        stream.input_stream_set_pos(pfo as usize);
        let mut buf16 = zero_vec(16);
        call(stream.input_stream_read(&mut buf16))?;
        assert(buf16@ == d.subrange(pfo as int, pfo as int + 16));
        let format_id = FormatId {
            data1: le32(&buf16, 0),
            data2: le16(&buf16, 4) as u16,
            data3: le16(&buf16, 6) as u16,
            data4: (buf16[8] as u64) * 0x100000000000000 + (buf16[9] as u64) * 0x1000000000000 + (
            buf16[10] as u64) * 0x10000000000 + (buf16[11] as u64) * 0x100000000 + (
            buf16[12] as u64) * 0x1000000 + (buf16[13] as u64) * 0x10000 + (buf16[14] as u64)
                * 0x100 + (buf16[15] as u64),
        };
        assert(format_id == format_id_of_bytes(d.subrange(pfo as int, pfo as int + 16)));

        Ok(
            ImageDecode {
                stream,
                format_id,
                width: width_v as i32,
                height: height_v as i32,
                image_offset: off_v,
                image_count: cnt_v,
            },
        )
    }

    /// Return the pixel format of the image, mapped through the format
    /// registry.  Fails with the unrecognized-format error exactly when the
    /// container reported an identifier outside the registry's table — a
    /// decoder evolving ahead of this layer is anticipated, not fatal.
    pub fn get_pixel_format(&self) -> (r: Result<PixelFormat, JXRError>)
        ensures
            r == from_guid_spec(self@.format_id),
    {
        PixelFormat::from_guid(&self.format_id)
    }

    /// Get width and height in pixels.
    pub fn get_size(&self) -> (r: Result<(i32, i32), JXRError>)
        ensures
            r == Ok::<(i32, i32), JXRError>((self@.width, self@.height)),
    {
        Ok((self.width, self.height))
    }

    /// Decode the pixels within `rect` into `dest`, advancing `stride`
    /// bytes per scan-line.
    ///
    /// The stride must fit the foreign ABI's unsigned 32-bit width, else
    /// the call fails before the decoder is reached; the rectangle must lie
    /// within the image; and the codestream payload is then replayed
    /// through the stream adapter's callbacks, failing as file I/O when it
    /// runs off the end of the source.  Pixel reconstruction itself is the
    /// decoder core's work, out of scope here: no contract is stated about
    /// the destination's bytes beyond their being left intact by this
    /// layer, and partial-region requests get no ordering guarantees beyond
    /// the decoder's own.
    pub fn copy(&mut self, rect: &Rect, dest: &mut Vec<u8>, stride: usize) -> (r: Result<
        (),
        JXRError,
    >)
        ensures
            r == copy_status(old(self)@, *rect, stride as int),
            final(dest)@ == old(dest)@,
            final(self)@.format_id == old(self)@.format_id,
            final(self)@.width == old(self)@.width,
            final(self)@.height == old(self)@.height,
            final(self)@.image_offset == old(self)@.image_offset,
            final(self)@.image_count == old(self)@.image_count,
            final(self)@.source.data == old(self)@.source.data,
            r is Ok ==> final(self)@.source.pos == old(self)@.image_offset + old(
                self,
            )@.image_count,
            r == Err::<(), JXRError>(JXRError::FileIO) ==> final(self)@.source.pos == old(
                self,
            )@.image_offset,
            (r == Err::<(), JXRError>(JXRError::TryFromIntError) || r == Err::<(), JXRError>(
                JXRError::InvalidParameter,
            )) ==> final(self)@.source.pos == old(self)@.source.pos,
    {
        if stride > u32::MAX as usize {
            return Err(JXRError::TryFromIntError);
        }
        let rect_ok = rect.x >= 0 && rect.y >= 0 && rect.width >= 0 && rect.height >= 0 && (
        rect.x as i64) + (rect.width as i64) <= (self.width as i64) && (rect.y as i64) + (
        rect.height as i64) <= (self.height as i64);
        if !rect_ok {
            return Err(JXRError::InvalidParameter);
        }
        // Replay the codestream through the adapter, as the decoder core
        // reads it during decode.
        self.stream.input_stream_set_pos(self.image_offset as usize);
        let mut payload = zero_vec(self.image_count as usize);
        call(self.stream.input_stream_read(&mut payload))?;
        Ok(())
    }

    /// Decode the entire image in one go: a region copy of the full-image
    /// rectangle computed from the size query.
    pub fn copy_all(&mut self, dest: &mut Vec<u8>, stride: usize) -> (r: Result<(), JXRError>)
        ensures
            r == copy_status(old(self)@, full_rect(old(self)@), stride as int),
            final(dest)@ == old(dest)@,
            final(self)@.format_id == old(self)@.format_id,
            final(self)@.width == old(self)@.width,
            final(self)@.height == old(self)@.height,
            final(self)@.image_offset == old(self)@.image_offset,
            final(self)@.image_count == old(self)@.image_count,
            final(self)@.source.data == old(self)@.source.data,
    {
        let size = self.get_size()?;
        let (width, height) = size;
        let rect = Rect::new(0, 0, width, height);
        self.copy(&rect, dest, stride)
    }

    /// Release the decoder and recover the byte source.
    ///
    /// Legal at any time because the adapter owns the source
    /// independently of the decoder instance; a terminal operation — the
    /// decoder is forfeited, not reentered.
    pub fn into_reader(self) -> (r: ByteSource)
        ensures
            r@ == self@.source,
    {
        self.stream.into_reader()
    }
}

/// Full-decode law: on a decoder whose codestream payload lies within its
/// source — which [`ImageDecode::with_reader`] alone cannot guarantee, the
/// payload's position being the container's claim — a copy of the
/// full-image rectangle with any stride that fits the foreign ABI's
/// unsigned width succeeds; and a stride that does not fit fails before the
/// decoder is reached, whatever the rest of the request looks like.
pub proof fn lemma_full_copy_succeeds(v: DecoderView, rect: Rect, stride: int)
    requires
        1 <= v.width,
        1 <= v.height,
        v.image_offset + v.image_count <= v.source.data.len(),
    ensures
        stride <= u32::MAX ==> copy_status(v, full_rect(v), stride) == Ok::<(), JXRError>(()),
        stride > u32::MAX ==> copy_status(v, rect, stride) == Err::<(), JXRError>(
            JXRError::TryFromIntError,
        ),
{
}

/// An `Option` of a machine integer, widened to the model's integers.
pub open spec fn opt_int(o: Option<u32>) -> Option<int> {
    match o {
        Some(v) => Some(v as int),
        None => None,
    }
}

} // verus!
