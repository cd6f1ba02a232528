use vstd::prelude::*;

use crate::fourcc::FourCC;
use crate::riff::{le16, le32, le64, fcc_at, ChunkReader, RiffError};

verus! {

// Tags of the AVI grammar.

/// Inner tag of the one top-level block an AVI file must start with.
pub open spec fn spec_fcc_avi() -> FourCC {
    FourCC(0x41, 0x56, 0x49, 0x20)
}

#[verifier::when_used_as_spec(spec_fcc_avi)]
pub fn fcc_avi() -> (r: FourCC)
    ensures
        r == spec_fcc_avi(),
{
    FourCC(0x41, 0x56, 0x49, 0x20)
}

/// The header list holding the main header and the stream descriptions.
pub open spec fn spec_fcc_hdrl() -> FourCC {
    FourCC(0x68, 0x64, 0x72, 0x6c)
}

#[verifier::when_used_as_spec(spec_fcc_hdrl)]
pub fn fcc_hdrl() -> (r: FourCC)
    ensures
        r == spec_fcc_hdrl(),
{
    FourCC(0x68, 0x64, 0x72, 0x6c)
}

/// The chunk carrying the fixed main header record.
pub open spec fn spec_fcc_avih() -> FourCC {
    FourCC(0x61, 0x76, 0x69, 0x68)
}

#[verifier::when_used_as_spec(spec_fcc_avih)]
pub fn fcc_avih() -> (r: FourCC)
    ensures
        r == spec_fcc_avih(),
{
    FourCC(0x61, 0x76, 0x69, 0x68)
}

/// One stream description list.
pub open spec fn spec_fcc_strl() -> FourCC {
    FourCC(0x73, 0x74, 0x72, 0x6c)
}

#[verifier::when_used_as_spec(spec_fcc_strl)]
pub fn fcc_strl() -> (r: FourCC)
    ensures
        r == spec_fcc_strl(),
{
    FourCC(0x73, 0x74, 0x72, 0x6c)
}

/// The fixed stream header record inside a stream description.
pub open spec fn spec_fcc_strh() -> FourCC {
    FourCC(0x73, 0x74, 0x72, 0x68)
}

#[verifier::when_used_as_spec(spec_fcc_strh)]
pub fn fcc_strh() -> (r: FourCC)
    ensures
        r == spec_fcc_strh(),
{
    FourCC(0x73, 0x74, 0x72, 0x68)
}

/// The stream format record; its meaning depends on the stream's type.
pub open spec fn spec_fcc_strf() -> FourCC {
    FourCC(0x73, 0x74, 0x72, 0x66)
}

#[verifier::when_used_as_spec(spec_fcc_strf)]
pub fn fcc_strf() -> (r: FourCC)
    ensures
        r == spec_fcc_strf(),
{
    FourCC(0x73, 0x74, 0x72, 0x66)
}

/// The optional textual stream name.
pub open spec fn spec_fcc_strn() -> FourCC {
    FourCC(0x73, 0x74, 0x72, 0x6e)
}

#[verifier::when_used_as_spec(spec_fcc_strn)]
pub fn fcc_strn() -> (r: FourCC)
    ensures
        r == spec_fcc_strn(),
{
    FourCC(0x73, 0x74, 0x72, 0x6e)
}

/// The optional metadata list, stored opaque.
pub open spec fn spec_fcc_info() -> FourCC {
    FourCC(0x49, 0x4e, 0x46, 0x4f)
}

#[verifier::when_used_as_spec(spec_fcc_info)]
pub fn fcc_info() -> (r: FourCC)
    ensures
        r == spec_fcc_info(),
{
    FourCC(0x49, 0x4e, 0x46, 0x4f)
}

/// The mandatory media-data list.
pub open spec fn spec_fcc_movi() -> FourCC {
    FourCC(0x6d, 0x6f, 0x76, 0x69)
}

#[verifier::when_used_as_spec(spec_fcc_movi)]
pub fn fcc_movi() -> (r: FourCC)
    ensures
        r == spec_fcc_movi(),
{
    FourCC(0x6d, 0x6f, 0x76, 0x69)
}

/// The optional flat sample index.
pub open spec fn spec_fcc_idx1() -> FourCC {
    FourCC(0x69, 0x64, 0x78, 0x31)
}

#[verifier::when_used_as_spec(spec_fcc_idx1)]
pub fn fcc_idx1() -> (r: FourCC)
    ensures
        r == spec_fcc_idx1(),
{
    FourCC(0x69, 0x64, 0x78, 0x31)
}

/// The optional per-stream index chunk.
pub open spec fn spec_fcc_indx() -> FourCC {
    FourCC(0x69, 0x6e, 0x64, 0x78)
}

#[verifier::when_used_as_spec(spec_fcc_indx)]
pub fn fcc_indx() -> (r: FourCC)
    ensures
        r == spec_fcc_indx(),
{
    FourCC(0x69, 0x6e, 0x64, 0x78)
}

/// Stream type: video.
pub open spec fn spec_fcc_vids() -> FourCC {
    FourCC(0x76, 0x69, 0x64, 0x73)
}

#[verifier::when_used_as_spec(spec_fcc_vids)]
pub fn fcc_vids() -> (r: FourCC)
    ensures
        r == spec_fcc_vids(),
{
    FourCC(0x76, 0x69, 0x64, 0x73)
}

/// Stream type: audio.
pub open spec fn spec_fcc_auds() -> FourCC {
    FourCC(0x61, 0x75, 0x64, 0x73)
}

#[verifier::when_used_as_spec(spec_fcc_auds)]
pub fn fcc_auds() -> (r: FourCC)
    ensures
        r == spec_fcc_auds(),
{
    FourCC(0x61, 0x75, 0x64, 0x73)
}

/// The universal skip tag: padding that every part of the grammar ignores.
pub open spec fn spec_fcc_junk() -> FourCC {
    FourCC(0x4a, 0x55, 0x4e, 0x4b)
}

#[verifier::when_used_as_spec(spec_fcc_junk)]
pub fn fcc_junk() -> (r: FourCC)
    ensures
        r == spec_fcc_junk(),
{
    FourCC(0x4a, 0x55, 0x4e, 0x4b)
}

/// Index type value for an index of indexes.
pub const AVI_INDEX_OF_INDEXES: u8 = 0;

/// Index sub-type value for the two-field layout.
pub const AVI_INDEX_2FIELD: u8 = 2;

/// The signed 16-bit value stored in the same bits as `x`.
pub open spec fn as_i16(x: u16) -> i16 {
    if x < 0x8000 {
        x as i16
    } else {
        (x - 0x10000) as i16
    }
}

/// The signed 32-bit value stored in the same bits as `x`.
pub open spec fn as_i32(x: u32) -> i32 {
    if x < 0x80000000 {
        x as i32
    } else {
        (x - 0x100000000) as i32
    }
}

fn to_i16(x: u16) -> (r: i16)
    ensures
        r == as_i16(x),
{
    if x < 0x8000 {
        x as i16
    } else {
        let d = 0x10000u32 - x as u32;
        -((d - 1) as i16) - 1
    }
}

fn to_i32(x: u32) -> (r: i32)
    ensures
        r == as_i32(x),
{
    if x < 0x80000000 {
        x as i32
    } else {
        let d = 0x100000000u64 - x as u64;
        -((d - 1) as i32) - 1
    }
}

/// Fixed video format record (the `strf` payload of a video stream).
#[derive(Clone, Copy, PartialEq, Eq, Structural, Debug)]
pub struct BITMAPINFOHEADER {
    pub size: u32,
    pub width: i32,
    pub height: i32,
    pub planes: u16,
    pub bit_count: u16,
    pub compression: u32,
    pub size_image: u32,
    pub x_pels_per_meter: i32,
    pub y_pels_per_meter: i32,
    pub clr_used: u32,
    pub clr_important: u32,
}

pub type BitmapInfoHeader = BITMAPINFOHEADER;

/// Byte length of the packed [`BITMAPINFOHEADER`] layout.
pub const BITMAP_INFO_SIZE: u64 = 40;

impl BITMAPINFOHEADER {
    /// The record stored in packed little-endian layout at `data[i..i+40]`.
    pub open spec fn spec_decode(data: Seq<u8>, i: int) -> BITMAPINFOHEADER
        recommends
            0 <= i,
            i + 40 <= data.len(),
    {
        BITMAPINFOHEADER {
            size: le32(data, i),
            width: as_i32(le32(data, i + 4)),
            height: as_i32(le32(data, i + 8)),
            planes: le16(data, i + 12),
            bit_count: le16(data, i + 14),
            compression: le32(data, i + 16),
            size_image: le32(data, i + 20),
            x_pels_per_meter: as_i32(le32(data, i + 24)),
            y_pels_per_meter: as_i32(le32(data, i + 28)),
            clr_used: le32(data, i + 32),
            clr_important: le32(data, i + 36),
        }
    }

    /// Reads the packed record from the reader's cursor, or fails with
    /// truncation when fewer than 40 bytes remain.
    pub fn deser(r: &mut ChunkReader) -> (res: Result<BITMAPINFOHEADER, RiffError>)
        requires
            old(r).wf(),
        ensures
            final(r).wf(),
            final(r).iobuff.same_window(old(r).iobuff),
            old(r).iobuff.left() >= 40 ==> res == Ok::<BITMAPINFOHEADER, RiffError>(
                BITMAPINFOHEADER::spec_decode(
                    old(r).iobuff.data@,
                    old(r).iobuff.start + old(r).iobuff.pos,
                ),
            ) && final(r).iobuff.pos == old(r).iobuff.pos + 40,
            old(r).iobuff.left() < 40 ==> res == Err::<BITMAPINFOHEADER, RiffError>(
                RiffError::Truncated,
            ) && final(r).iobuff.pos == old(r).iobuff.pos,
    {
        let left = r.iobuff.amount_left();
        if left < 40 {
            return Err(RiffError::Truncated);
        }
        let p = r.iobuff.pos;
        let v = BITMAPINFOHEADER {
            size: r.iobuff.u32_at(p),
            width: to_i32(r.iobuff.u32_at(p + 4)),
            height: to_i32(r.iobuff.u32_at(p + 8)),
            planes: r.iobuff.u16_at(p + 12),
            bit_count: r.iobuff.u16_at(p + 14),
            compression: r.iobuff.u32_at(p + 16),
            size_image: r.iobuff.u32_at(p + 20),
            x_pels_per_meter: to_i32(r.iobuff.u32_at(p + 24)),
            y_pels_per_meter: to_i32(r.iobuff.u32_at(p + 28)),
            clr_used: r.iobuff.u32_at(p + 32),
            clr_important: r.iobuff.u32_at(p + 36),
        };
        r.iobuff.pos = p + 40;
        Ok(v)
    }
}

/// Fixed audio format record head (the start of an audio `strf` payload).
#[derive(Clone, Copy, PartialEq, Eq, Structural, Debug)]
pub struct WAVEFORMATEX {
    pub format_tag: u16,
    pub channels: u16,
    pub samples_per_sec: u32,
    pub avg_bytes_per_sec: u32,
    pub block_align: u16,
    pub bits_per_sample: u16,
    pub size: u16,
}

/// Byte length of the packed [`WAVEFORMATEX`] layout.
pub const WAVE_FORMAT_SIZE: u64 = 18;

impl WAVEFORMATEX {
    /// The record stored in packed little-endian layout at `data[i..i+18]`.
    pub open spec fn spec_decode(data: Seq<u8>, i: int) -> WAVEFORMATEX
        recommends
            0 <= i,
            i + 18 <= data.len(),
    {
        WAVEFORMATEX {
            format_tag: le16(data, i),
            channels: le16(data, i + 2),
            samples_per_sec: le32(data, i + 4),
            avg_bytes_per_sec: le32(data, i + 8),
            block_align: le16(data, i + 12),
            bits_per_sample: le16(data, i + 14),
            size: le16(data, i + 16),
        }
    }
}

/// Audio format: the fixed head plus the trailing extra bytes whose length
/// the head's `size` field declares.
#[derive(Clone, PartialEq, Eq, Debug)]
pub struct WaveFormat {
    pub header: WAVEFORMATEX,
    pub extra: Vec<u8>,
}

/// Mathematical value of a [`WaveFormat`].
pub struct WaveFormatV {
    pub header: WAVEFORMATEX,
    pub extra: Seq<u8>,
}

impl View for WaveFormat {
    type V = WaveFormatV;

    open spec fn view(&self) -> WaveFormatV {
        WaveFormatV { header: self.header, extra: self.extra@ }
    }
}

impl WaveFormat {
    /// The audio format stored at `data[i..end)`: the fixed head, then
    /// exactly `head.size` extra bytes; truncation if either part is cut
    /// short.  Bytes past the extra field are ignored.
    pub open spec fn spec_decode(data: Seq<u8>, i: int, end: int) -> Result<
        WaveFormatV,
        RiffError,
    > {
        if end - i < 18 {
            Err(RiffError::Truncated)
        } else {
            let h = WAVEFORMATEX::spec_decode(data, i);
            if end - (i + 18) < h.size {
                Err(RiffError::Truncated)
            } else {
                Ok(WaveFormatV { header: h, extra: data.subrange(i + 18, i + 18 + h.size) })
            }
        }
    }

    /// Reads the fixed head and its declared extra bytes from the reader's
    /// cursor.
    pub fn deser(r: &mut ChunkReader) -> (res: Result<WaveFormat, RiffError>)
        requires
            old(r).wf(),
        ensures
            final(r).wf(),
            final(r).iobuff.same_window(old(r).iobuff),
            ({
                let d = old(r).iobuff.data@;
                let i = old(r).iobuff.start + old(r).iobuff.pos;
                let end = old(r).iobuff.start + old(r).iobuff.size;
                match res {
                    Ok(w) => WaveFormat::spec_decode(d, i, end) == Ok::<WaveFormatV, RiffError>(w@)
                        && final(r).iobuff.pos == old(r).iobuff.pos + 18 + w.header.size,
                    Err(e) => WaveFormat::spec_decode(d, i, end) == Err::<WaveFormatV, RiffError>(
                        e,
                    ),
                }
            }),
    {
        let left = r.iobuff.amount_left();
        if left < 18 {
            return Err(RiffError::Truncated);
        }
        let p = r.iobuff.pos;
        let h = WAVEFORMATEX {
            format_tag: r.iobuff.u16_at(p),
            channels: r.iobuff.u16_at(p + 2),
            samples_per_sec: r.iobuff.u32_at(p + 4),
            avg_bytes_per_sec: r.iobuff.u32_at(p + 8),
            block_align: r.iobuff.u16_at(p + 12),
            bits_per_sample: r.iobuff.u16_at(p + 14),
            size: r.iobuff.u16_at(p + 16),
        };
        r.iobuff.pos = p + 18;
        let extra = r.iobuff.read(h.size as usize);
        if extra.len() < h.size as usize {
            return Err(RiffError::Truncated);
        }
        Ok(WaveFormat { header: h, extra })
    }
}

/// The fixed main header record (`avih`): frame timing, flags, stream
/// count, dimensions.
#[derive(Clone, Copy, PartialEq, Eq, Structural, Debug)]
pub struct MainHeader {
    pub micro_sec_per_frame: u32,
    pub max_bytes_per_sec: u32,
    pub padding_granularity: u32,
    pub flags: u32,
    pub total_frames: u32,
    pub initial_frames: u32,
    pub streams: u32,
    pub suggested_buffer_suze: u32,
    pub width: u32,
    pub height: u32,
    pub reserved0: u32,
    pub reserved1: u32,
    pub reserved2: u32,
    pub reserved3: u32,
}

/// Byte length of the packed [`MainHeader`] layout.
pub const MAIN_HEADER_SIZE: u64 = 56;

impl MainHeader {
    /// The record stored in packed little-endian layout at `data[i..i+56]`.
    pub open spec fn spec_decode(data: Seq<u8>, i: int) -> MainHeader
        recommends
            0 <= i,
            i + 56 <= data.len(),
    {
        MainHeader {
            micro_sec_per_frame: le32(data, i),
            max_bytes_per_sec: le32(data, i + 4),
            padding_granularity: le32(data, i + 8),
            flags: le32(data, i + 12),
            total_frames: le32(data, i + 16),
            initial_frames: le32(data, i + 20),
            streams: le32(data, i + 24),
            suggested_buffer_suze: le32(data, i + 28),
            width: le32(data, i + 32),
            height: le32(data, i + 36),
            reserved0: le32(data, i + 40),
            reserved1: le32(data, i + 44),
            reserved2: le32(data, i + 48),
            reserved3: le32(data, i + 52),
        }
    }

    /// Reads the packed record from the reader's cursor, or fails with
    /// truncation when fewer than 56 bytes remain.
    pub fn deser(r: &mut ChunkReader) -> (res: Result<MainHeader, RiffError>)
        requires
            old(r).wf(),
        ensures
            final(r).wf(),
            final(r).iobuff.same_window(old(r).iobuff),
            old(r).iobuff.left() >= 56 ==> res == Ok::<MainHeader, RiffError>(
                MainHeader::spec_decode(
                    old(r).iobuff.data@,
                    old(r).iobuff.start + old(r).iobuff.pos,
                ),
            ) && final(r).iobuff.pos == old(r).iobuff.pos + 56,
            old(r).iobuff.left() < 56 ==> res == Err::<MainHeader, RiffError>(RiffError::Truncated)
                && final(r).iobuff.pos == old(r).iobuff.pos,
    {
        let left = r.iobuff.amount_left();
        if left < 56 {
            return Err(RiffError::Truncated);
        }
        let p = r.iobuff.pos;
        let v = MainHeader {
            micro_sec_per_frame: r.iobuff.u32_at(p),
            max_bytes_per_sec: r.iobuff.u32_at(p + 4),
            padding_granularity: r.iobuff.u32_at(p + 8),
            flags: r.iobuff.u32_at(p + 12),
            total_frames: r.iobuff.u32_at(p + 16),
            initial_frames: r.iobuff.u32_at(p + 20),
            streams: r.iobuff.u32_at(p + 24),
            suggested_buffer_suze: r.iobuff.u32_at(p + 28),
            width: r.iobuff.u32_at(p + 32),
            height: r.iobuff.u32_at(p + 36),
            reserved0: r.iobuff.u32_at(p + 40),
            reserved1: r.iobuff.u32_at(p + 44),
            reserved2: r.iobuff.u32_at(p + 48),
            reserved3: r.iobuff.u32_at(p + 52),
        };
        r.iobuff.pos = p + 56;
        Ok(v)
    }
}

/// Flags of the main header's `flags` field.
#[allow(non_camel_case_types)]
#[derive(Clone, Copy, PartialEq, Eq, Structural, Debug)]
pub enum Flag {
    /// The file has an index.
    AVIF_HASINDEX,
    /// Replay order is determined by the index, not by chunk order.
    AVIF_MUSTUSEINDEX,
    /// The streams are properly interleaved.
    AVIF_ISINTERLEAVED,
    /// The file was captured; interleaving might be odd.
    AVIF_WASCAPTUREFILE,
    /// Copyrighted material.
    AVIF_COPYRIGHTED,
    /// The index's keyframe flags are reliable.
    AVIF_TRUSTCKTYPE,
}

/// A bounding rectangle in the stream header, packed as four 16-bit values.
#[derive(Clone, Copy, PartialEq, Eq, Structural, Debug)]
pub struct RECT {
    pub left: i16,
    pub top: i16,
    pub right: i16,
    pub bottom: i16,
}

/// The fixed stream header record (`strh`): media type and handler tags,
/// timing, quality and the bounding rectangle.
#[derive(Clone, Copy, PartialEq, Eq, Structural, Debug)]
pub struct StreamHeader {
    pub fcc_type: FourCC,
    pub fcc_handler: FourCC,
    pub flags: u32,
    pub priority: u16,
    pub language: u16,
    pub initial_frams: u32,
    pub scale: u32,
    pub rate: u32,
    pub start: u32,
    pub length: u32,
    pub suggested_buffer_suze: u32,
    pub quality: u32,
    pub sample_size: u32,
    pub frame: RECT,
}

/// Byte length of the packed [`StreamHeader`] layout.
pub const STREAM_HEADER_SIZE: u64 = 56;

impl StreamHeader {
    /// The record stored in packed little-endian layout at `data[i..i+56]`.
    pub open spec fn spec_decode(data: Seq<u8>, i: int) -> StreamHeader
        recommends
            0 <= i,
            i + 56 <= data.len(),
    {
        StreamHeader {
            fcc_type: fcc_at(data, i),
            fcc_handler: fcc_at(data, i + 4),
            flags: le32(data, i + 8),
            priority: le16(data, i + 12),
            language: le16(data, i + 14),
            initial_frams: le32(data, i + 16),
            scale: le32(data, i + 20),
            rate: le32(data, i + 24),
            start: le32(data, i + 28),
            length: le32(data, i + 32),
            suggested_buffer_suze: le32(data, i + 36),
            quality: le32(data, i + 40),
            sample_size: le32(data, i + 44),
            frame: RECT {
                left: as_i16(le16(data, i + 48)),
                top: as_i16(le16(data, i + 50)),
                right: as_i16(le16(data, i + 52)),
                bottom: as_i16(le16(data, i + 54)),
            },
        }
    }

    /// Reads the packed record from the reader's cursor, or fails with
    /// truncation when fewer than 56 bytes remain.
    pub fn deser(r: &mut ChunkReader) -> (res: Result<StreamHeader, RiffError>)
        requires
            old(r).wf(),
        ensures
            final(r).wf(),
            final(r).iobuff.same_window(old(r).iobuff),
            old(r).iobuff.left() >= 56 ==> res == Ok::<StreamHeader, RiffError>(
                StreamHeader::spec_decode(
                    old(r).iobuff.data@,
                    old(r).iobuff.start + old(r).iobuff.pos,
                ),
            ) && final(r).iobuff.pos == old(r).iobuff.pos + 56,
            old(r).iobuff.left() < 56 ==> res == Err::<StreamHeader, RiffError>(
                RiffError::Truncated,
            ) && final(r).iobuff.pos == old(r).iobuff.pos,
    {
        let left = r.iobuff.amount_left();
        if left < 56 {
            return Err(RiffError::Truncated);
        }
        let p = r.iobuff.pos;
        let v = StreamHeader {
            fcc_type: r.iobuff.fourcc_at(p),
            fcc_handler: r.iobuff.fourcc_at(p + 4),
            flags: r.iobuff.u32_at(p + 8),
            priority: r.iobuff.u16_at(p + 12),
            language: r.iobuff.u16_at(p + 14),
            initial_frams: r.iobuff.u32_at(p + 16),
            scale: r.iobuff.u32_at(p + 20),
            rate: r.iobuff.u32_at(p + 24),
            start: r.iobuff.u32_at(p + 28),
            length: r.iobuff.u32_at(p + 32),
            suggested_buffer_suze: r.iobuff.u32_at(p + 36),
            quality: r.iobuff.u32_at(p + 40),
            sample_size: r.iobuff.u32_at(p + 44),
            frame: RECT {
                left: to_i16(r.iobuff.u16_at(p + 48)),
                top: to_i16(r.iobuff.u16_at(p + 50)),
                right: to_i16(r.iobuff.u16_at(p + 52)),
                bottom: to_i16(r.iobuff.u16_at(p + 54)),
            },
        };
        r.iobuff.pos = p + 56;
        Ok(v)
    }
}

/// Flags of the stream header's `flags` field.
#[allow(non_camel_case_types)]
#[derive(Clone, Copy, PartialEq, Eq, Structural, Debug)]
pub enum StreamFlag {
    /// The stream should not be activated by default.
    AVISF_DISABLED,
    /// A video stream whose palette changes during playback.
    AVISF_VIDEO_PALCHANGES,
}

/// One entry of the flat `idx1` index: one located media sample chunk.
#[derive(Clone, Copy, PartialEq, Eq, Structural, Debug)]
pub struct IndexEntry {
    pub ckid: u32,
    pub flags: u32,
    pub chunk_offset: u32,
    pub chunk_length: u32,
}

/// Byte length of the packed [`IndexEntry`] layout.
pub const INDEX_ENTRY_SIZE: u64 = 16;

/// Flags of an index entry's `flags` field.
#[allow(non_camel_case_types)]
#[derive(Clone, Copy, PartialEq, Eq, Structural, Debug)]
pub enum IndexFlags {
    /// The chunk the entry refers to is a keyframe.
    AVIIF_KEYFRAME,
    /// The entry points to a list, not to a chunk.
    AVIIF_LIST,
    /// The chunk needs the frames following it; it cannot stand alone.
    AVIIF_FIRSTPART,
    /// The chunk needs the frames preceding it; it cannot stand alone.
    AVIIF_LASTPART,
    /// The corresponding chunk has duration zero.
    AVIIF_NOTIME,
}

impl IndexEntry {
    /// The entry stored in packed little-endian layout at `data[i..i+16]`.
    pub open spec fn spec_decode(data: Seq<u8>, i: int) -> IndexEntry
        recommends
            0 <= i,
            i + 16 <= data.len(),
    {
        IndexEntry {
            ckid: le32(data, i),
            flags: le32(data, i + 4),
            chunk_offset: le32(data, i + 8),
            chunk_length: le32(data, i + 12),
        }
    }

    /// The entries filling `data[i..end)` exactly: decoding ends at the
    /// boundary, and a trailing partial record is a truncation failure.
    pub open spec fn spec_decode_seq(data: Seq<u8>, i: int, end: int) -> Result<
        Seq<IndexEntry>,
        RiffError,
    >
        decreases end - i,
    {
        if i >= end {
            Ok(Seq::empty())
        } else if end - i < 16 {
            Err(RiffError::Truncated)
        } else {
            match IndexEntry::spec_decode_seq(data, i + 16, end) {
                Ok(tail) => Ok(seq![IndexEntry::spec_decode(data, i)] + tail),
                Err(e) => Err(e),
            }
        }
    }

    /// Reads one packed entry from the reader's cursor.
    pub fn deser(r: &mut ChunkReader) -> (res: Result<IndexEntry, RiffError>)
        requires
            old(r).wf(),
        ensures
            final(r).wf(),
            final(r).iobuff.same_window(old(r).iobuff),
            old(r).iobuff.left() >= 16 ==> res == Ok::<IndexEntry, RiffError>(
                IndexEntry::spec_decode(
                    old(r).iobuff.data@,
                    old(r).iobuff.start + old(r).iobuff.pos,
                ),
            ) && final(r).iobuff.pos == old(r).iobuff.pos + 16,
            old(r).iobuff.left() < 16 ==> res == Err::<IndexEntry, RiffError>(RiffError::Truncated)
                && final(r).iobuff.pos == old(r).iobuff.pos,
    {
        let left = r.iobuff.amount_left();
        if left < 16 {
            return Err(RiffError::Truncated);
        }
        let p = r.iobuff.pos;
        let v = IndexEntry {
            ckid: r.iobuff.u32_at(p),
            flags: r.iobuff.u32_at(p + 4),
            chunk_offset: r.iobuff.u32_at(p + 8),
            chunk_length: r.iobuff.u32_at(p + 12),
        };
        r.iobuff.pos = p + 16;
        Ok(v)
    }

    /// Decodes entries until the reader's window is exhausted, per
    /// [`IndexEntry::spec_decode_seq`].
    #[verifier::loop_isolation(false)]
    pub fn deser_seq(r: &mut ChunkReader) -> (res: Result<Vec<IndexEntry>, RiffError>)
        requires
            old(r).wf(),
        ensures
            final(r).wf(),
            final(r).iobuff.same_window(old(r).iobuff),
            ({
                let d = old(r).iobuff.data@;
                let i = old(r).iobuff.start + old(r).iobuff.pos;
                let end = old(r).iobuff.start + old(r).iobuff.size;
                match res {
                    Ok(v) => IndexEntry::spec_decode_seq(d, i, end) == Ok::<
                        Seq<IndexEntry>,
                        RiffError,
                    >(v@) && final(r).iobuff.pos == old(r).iobuff.size,
                    Err(e) => IndexEntry::spec_decode_seq(d, i, end) == Err::<
                        Seq<IndexEntry>,
                        RiffError,
                    >(e),
                }
            }),
    {
        let ghost d = r.iobuff.data@;
        let ghost s = r.iobuff.start as int;
        let ghost endd = r.iobuff.start + r.iobuff.size as int;
        let ghost i0 = s + r.iobuff.pos;
        let ghost w0 = r.iobuff;
        let mut out: Vec<IndexEntry> = Vec::new();
        loop
            invariant
                r.wf(),
                r.iobuff.same_window(w0),
                w0.wf(),
                d == w0.data@,
                s == w0.start as int,
                endd == s + w0.size,
                IndexEntry::spec_decode_seq(d, i0, endd) == (match IndexEntry::spec_decode_seq(
                    d,
                    s + r.iobuff.pos,
                    endd,
                ) {
                    Ok(t) => Ok::<Seq<IndexEntry>, RiffError>(out@ + t),
                    Err(e) => Err::<Seq<IndexEntry>, RiffError>(e),
                }),
            decreases r.iobuff.size - r.iobuff.pos,
        {
            let left = r.iobuff.amount_left();
            if left == 0 {
                proof {
                    assert(out@ + Seq::<IndexEntry>::empty() =~= out@);
                }
                break;
            }
            if left < 16 {
                return Err(RiffError::Truncated);
            }
            let ghost out_before = out@;
            let e = match IndexEntry::deser(r) {
                Ok(e) => e,
                Err(err) => {
                    return Err(err);
                },
            };
            out.push(e);
            proof {
                match IndexEntry::spec_decode_seq(d, s + r.iobuff.pos, endd) {
                    Ok(t) => {
                        assert(out_before + (seq![e] + t) =~= out@ + t);
                    },
                    Err(_) => {},
                }
            }
        }
        Ok(out)
    }
}

/// Header of a per-stream index chunk (`indx`).
#[derive(Clone, Copy, PartialEq, Eq, Structural, Debug)]
pub struct StreamIndexHeader {
    pub fcc: FourCC,
    pub cb: u32,
    pub longs_per_entry: u16,
    pub index_sub_type: u8,
    pub index_type: u8,
    pub entries_in_use: u32,
    pub chunk_id: u32,
    pub reserved0: u32,
    pub reserved1: u32,
    pub reserved2: u32,
}

/// Byte length of the packed [`StreamIndexHeader`] layout.
pub const STREAM_INDEX_HEADER_SIZE: u64 = 32;

impl StreamIndexHeader {
    /// The record stored in packed little-endian layout at `data[i..i+32]`.
    pub open spec fn spec_decode(data: Seq<u8>, i: int) -> StreamIndexHeader
        recommends
            0 <= i,
            i + 32 <= data.len(),
    {
        StreamIndexHeader {
            fcc: fcc_at(data, i),
            cb: le32(data, i + 4),
            longs_per_entry: le16(data, i + 8),
            index_sub_type: data[i + 10],
            index_type: data[i + 11],
            entries_in_use: le32(data, i + 12),
            chunk_id: le32(data, i + 16),
            reserved0: le32(data, i + 20),
            reserved1: le32(data, i + 24),
            reserved2: le32(data, i + 28),
        }
    }

    /// Reads the packed record from the reader's cursor.
    pub fn deser(r: &mut ChunkReader) -> (res: Result<StreamIndexHeader, RiffError>)
        requires
            old(r).wf(),
        ensures
            final(r).wf(),
            final(r).iobuff.same_window(old(r).iobuff),
            old(r).iobuff.left() >= 32 ==> res == Ok::<StreamIndexHeader, RiffError>(
                StreamIndexHeader::spec_decode(
                    old(r).iobuff.data@,
                    old(r).iobuff.start + old(r).iobuff.pos,
                ),
            ) && final(r).iobuff.pos == old(r).iobuff.pos + 32,
            old(r).iobuff.left() < 32 ==> res == Err::<StreamIndexHeader, RiffError>(
                RiffError::Truncated,
            ) && final(r).iobuff.pos == old(r).iobuff.pos,
    {
        let left = r.iobuff.amount_left();
        if left < 32 {
            return Err(RiffError::Truncated);
        }
        let p = r.iobuff.pos;
        let v = StreamIndexHeader {
            fcc: r.iobuff.fourcc_at(p),
            cb: r.iobuff.u32_at(p + 4),
            longs_per_entry: r.iobuff.u16_at(p + 8),
            index_sub_type: r.iobuff.u8_at(p + 10),
            index_type: r.iobuff.u8_at(p + 11),
            entries_in_use: r.iobuff.u32_at(p + 12),
            chunk_id: r.iobuff.u32_at(p + 16),
            reserved0: r.iobuff.u32_at(p + 20),
            reserved1: r.iobuff.u32_at(p + 24),
            reserved2: r.iobuff.u32_at(p + 28),
        };
        r.iobuff.pos = p + 32;
        Ok(v)
    }
}

/// One entry of a per-stream index: a single 32-bit word.
#[derive(Clone, Copy, PartialEq, Eq, Structural, Debug)]
pub struct StreamIndexEntry {
    pub adw: u32,
}

/// Byte length of the packed [`StreamIndexEntry`] layout.
pub const STREAM_INDEX_ENTRY_SIZE: u64 = 4;

impl StreamIndexEntry {
    /// The entry stored at `data[i..i+4]`.
    pub open spec fn spec_decode(data: Seq<u8>, i: int) -> StreamIndexEntry
        recommends
            0 <= i,
            i + 4 <= data.len(),
    {
        StreamIndexEntry { adw: le32(data, i) }
    }

    /// The entries filling `data[i..end)` exactly.
    pub open spec fn spec_decode_seq(data: Seq<u8>, i: int, end: int) -> Result<
        Seq<StreamIndexEntry>,
        RiffError,
    >
        decreases end - i,
    {
        if i >= end {
            Ok(Seq::empty())
        } else if end - i < 4 {
            Err(RiffError::Truncated)
        } else {
            match StreamIndexEntry::spec_decode_seq(data, i + 4, end) {
                Ok(tail) => Ok(seq![StreamIndexEntry::spec_decode(data, i)] + tail),
                Err(e) => Err(e),
            }
        }
    }

    /// Reads one packed entry from the reader's cursor.
    pub fn deser(r: &mut ChunkReader) -> (res: Result<StreamIndexEntry, RiffError>)
        requires
            old(r).wf(),
        ensures
            final(r).wf(),
            final(r).iobuff.same_window(old(r).iobuff),
            old(r).iobuff.left() >= 4 ==> res == Ok::<StreamIndexEntry, RiffError>(
                StreamIndexEntry::spec_decode(
                    old(r).iobuff.data@,
                    old(r).iobuff.start + old(r).iobuff.pos,
                ),
            ) && final(r).iobuff.pos == old(r).iobuff.pos + 4,
            old(r).iobuff.left() < 4 ==> res == Err::<StreamIndexEntry, RiffError>(
                RiffError::Truncated,
            ) && final(r).iobuff.pos == old(r).iobuff.pos,
    {
        let left = r.iobuff.amount_left();
        if left < 4 {
            return Err(RiffError::Truncated);
        }
        let p = r.iobuff.pos;
        let v = StreamIndexEntry { adw: r.iobuff.u32_at(p) };
        r.iobuff.pos = p + 4;
        Ok(v)
    }

    /// Decodes entries until the reader's window is exhausted.
    #[verifier::loop_isolation(false)]
    pub fn deser_seq(r: &mut ChunkReader) -> (res: Result<Vec<StreamIndexEntry>, RiffError>)
        requires
            old(r).wf(),
        ensures
            final(r).wf(),
            final(r).iobuff.same_window(old(r).iobuff),
            ({
                let d = old(r).iobuff.data@;
                let i = old(r).iobuff.start + old(r).iobuff.pos;
                let end = old(r).iobuff.start + old(r).iobuff.size;
                match res {
                    Ok(v) => StreamIndexEntry::spec_decode_seq(d, i, end) == Ok::<
                        Seq<StreamIndexEntry>,
                        RiffError,
                    >(v@) && final(r).iobuff.pos == old(r).iobuff.size,
                    Err(e) => StreamIndexEntry::spec_decode_seq(d, i, end) == Err::<
                        Seq<StreamIndexEntry>,
                        RiffError,
                    >(e),
                }
            }),
    {
        let ghost d = r.iobuff.data@;
        let ghost s = r.iobuff.start as int;
        let ghost endd = r.iobuff.start + r.iobuff.size as int;
        let ghost i0 = s + r.iobuff.pos;
        let ghost w0 = r.iobuff;
        let mut out: Vec<StreamIndexEntry> = Vec::new();
        loop
            invariant
                r.wf(),
                r.iobuff.same_window(w0),
                w0.wf(),
                d == w0.data@,
                s == w0.start as int,
                endd == s + w0.size,
                StreamIndexEntry::spec_decode_seq(d, i0, endd) == (
                match StreamIndexEntry::spec_decode_seq(d, s + r.iobuff.pos, endd) {
                    Ok(t) => Ok::<Seq<StreamIndexEntry>, RiffError>(out@ + t),
                    Err(e) => Err::<Seq<StreamIndexEntry>, RiffError>(e),
                }),
            decreases r.iobuff.size - r.iobuff.pos,
        {
            let left = r.iobuff.amount_left();
            if left == 0 {
                proof {
                    assert(out@ + Seq::<StreamIndexEntry>::empty() =~= out@);
                }
                break;
            }
            if left < 4 {
                return Err(RiffError::Truncated);
            }
            let ghost out_before = out@;
            let e = match StreamIndexEntry::deser(r) {
                Ok(e) => e,
                Err(err) => {
                    return Err(err);
                },
            };
            out.push(e);
            proof {
                match StreamIndexEntry::spec_decode_seq(d, s + r.iobuff.pos, endd) {
                    Ok(t) => {
                        assert(out_before + (seq![e] + t) =~= out@ + t);
                    },
                    Err(_) => {},
                }
            }
        }
        Ok(out)
    }
}

/// Header of a super index: same packed layout as a stream index header.
#[derive(Clone, Copy, PartialEq, Eq, Structural, Debug)]
pub struct SuperIndexHeader {
    pub fcc: FourCC,
    pub cb: u32,
    pub longs_per_entry: u16,
    pub index_sub_type: u8,
    pub index_type: u8,
    pub entries_in_use: u32,
    pub chunk_id: u32,
    pub reserved0: u32,
    pub reserved1: u32,
    pub reserved2: u32,
}

/// Byte length of the packed [`SuperIndexHeader`] layout.
pub const SUPER_INDEX_HEADER_SIZE: u64 = 32;

impl SuperIndexHeader {
    /// The record stored in packed little-endian layout at `data[i..i+32]`.
    pub open spec fn spec_decode(data: Seq<u8>, i: int) -> SuperIndexHeader
        recommends
            0 <= i,
            i + 32 <= data.len(),
    {
        SuperIndexHeader {
            fcc: fcc_at(data, i),
            cb: le32(data, i + 4),
            longs_per_entry: le16(data, i + 8),
            index_sub_type: data[i + 10],
            index_type: data[i + 11],
            entries_in_use: le32(data, i + 12),
            chunk_id: le32(data, i + 16),
            reserved0: le32(data, i + 20),
            reserved1: le32(data, i + 24),
            reserved2: le32(data, i + 28),
        }
    }

    /// Reads the packed record from the reader's cursor.
    pub fn deser(r: &mut ChunkReader) -> (res: Result<SuperIndexHeader, RiffError>)
        requires
            old(r).wf(),
        ensures
            final(r).wf(),
            final(r).iobuff.same_window(old(r).iobuff),
            old(r).iobuff.left() >= 32 ==> res == Ok::<SuperIndexHeader, RiffError>(
                SuperIndexHeader::spec_decode(
                    old(r).iobuff.data@,
                    old(r).iobuff.start + old(r).iobuff.pos,
                ),
            ) && final(r).iobuff.pos == old(r).iobuff.pos + 32,
            old(r).iobuff.left() < 32 ==> res == Err::<SuperIndexHeader, RiffError>(
                RiffError::Truncated,
            ) && final(r).iobuff.pos == old(r).iobuff.pos,
    {
        let left = r.iobuff.amount_left();
        if left < 32 {
            return Err(RiffError::Truncated);
        }
        let p = r.iobuff.pos;
        let v = SuperIndexHeader {
            fcc: r.iobuff.fourcc_at(p),
            cb: r.iobuff.u32_at(p + 4),
            longs_per_entry: r.iobuff.u16_at(p + 8),
            index_sub_type: r.iobuff.u8_at(p + 10),
            index_type: r.iobuff.u8_at(p + 11),
            entries_in_use: r.iobuff.u32_at(p + 12),
            chunk_id: r.iobuff.u32_at(p + 16),
            reserved0: r.iobuff.u32_at(p + 20),
            reserved1: r.iobuff.u32_at(p + 24),
            reserved2: r.iobuff.u32_at(p + 28),
        };
        r.iobuff.pos = p + 32;
        Ok(v)
    }
}

/// One entry of a super index: the location, size and duration of one
/// secondary index block.
#[derive(Clone, Copy, PartialEq, Eq, Structural, Debug)]
pub struct SuperIndexEntry {
    pub offset: u64,
    pub size: u32,
    pub duration: u32,
}

/// Byte length of the packed [`SuperIndexEntry`] layout.
pub const SUPER_INDEX_ENTRY_SIZE: u64 = 16;

impl SuperIndexEntry {
    /// The entry stored in packed little-endian layout at `data[i..i+16]`.
    pub open spec fn spec_decode(data: Seq<u8>, i: int) -> SuperIndexEntry
        recommends
            0 <= i,
            i + 16 <= data.len(),
    {
        SuperIndexEntry {
            offset: le64(data, i),
            size: le32(data, i + 8),
            duration: le32(data, i + 12),
        }
    }

    /// The entries filling `data[i..end)` exactly.
    pub open spec fn spec_decode_seq(data: Seq<u8>, i: int, end: int) -> Result<
        Seq<SuperIndexEntry>,
        RiffError,
    >
        decreases end - i,
    {
        if i >= end {
            Ok(Seq::empty())
        } else if end - i < 16 {
            Err(RiffError::Truncated)
        } else {
            match SuperIndexEntry::spec_decode_seq(data, i + 16, end) {
                Ok(tail) => Ok(seq![SuperIndexEntry::spec_decode(data, i)] + tail),
                Err(e) => Err(e),
            }
        }
    }

    /// Reads one packed entry from the reader's cursor.
    pub fn deser(r: &mut ChunkReader) -> (res: Result<SuperIndexEntry, RiffError>)
        requires
            old(r).wf(),
        ensures
            final(r).wf(),
            final(r).iobuff.same_window(old(r).iobuff),
            old(r).iobuff.left() >= 16 ==> res == Ok::<SuperIndexEntry, RiffError>(
                SuperIndexEntry::spec_decode(
                    old(r).iobuff.data@,
                    old(r).iobuff.start + old(r).iobuff.pos,
                ),
            ) && final(r).iobuff.pos == old(r).iobuff.pos + 16,
            old(r).iobuff.left() < 16 ==> res == Err::<SuperIndexEntry, RiffError>(
                RiffError::Truncated,
            ) && final(r).iobuff.pos == old(r).iobuff.pos,
    {
        let left = r.iobuff.amount_left();
        if left < 16 {
            return Err(RiffError::Truncated);
        }
        let p = r.iobuff.pos;
        let v = SuperIndexEntry {
            offset: r.iobuff.u64_at(p),
            size: r.iobuff.u32_at(p + 8),
            duration: r.iobuff.u32_at(p + 12),
        };
        r.iobuff.pos = p + 16;
        Ok(v)
    }

    /// Decodes entries until the reader's window is exhausted.
    #[verifier::loop_isolation(false)]
    pub fn deser_seq(r: &mut ChunkReader) -> (res: Result<Vec<SuperIndexEntry>, RiffError>)
        requires
            old(r).wf(),
        ensures
            final(r).wf(),
            final(r).iobuff.same_window(old(r).iobuff),
            ({
                let d = old(r).iobuff.data@;
                let i = old(r).iobuff.start + old(r).iobuff.pos;
                let end = old(r).iobuff.start + old(r).iobuff.size;
                match res {
                    Ok(v) => SuperIndexEntry::spec_decode_seq(d, i, end) == Ok::<
                        Seq<SuperIndexEntry>,
                        RiffError,
                    >(v@) && final(r).iobuff.pos == old(r).iobuff.size,
                    Err(e) => SuperIndexEntry::spec_decode_seq(d, i, end) == Err::<
                        Seq<SuperIndexEntry>,
                        RiffError,
                    >(e),
                }
            }),
    {
        let ghost d = r.iobuff.data@;
        let ghost s = r.iobuff.start as int;
        let ghost endd = r.iobuff.start + r.iobuff.size as int;
        let ghost i0 = s + r.iobuff.pos;
        let ghost w0 = r.iobuff;
        let mut out: Vec<SuperIndexEntry> = Vec::new();
        loop
            invariant
                r.wf(),
                r.iobuff.same_window(w0),
                w0.wf(),
                d == w0.data@,
                s == w0.start as int,
                endd == s + w0.size,
                SuperIndexEntry::spec_decode_seq(d, i0, endd) == (
                match SuperIndexEntry::spec_decode_seq(d, s + r.iobuff.pos, endd) {
                    Ok(t) => Ok::<Seq<SuperIndexEntry>, RiffError>(out@ + t),
                    Err(e) => Err::<Seq<SuperIndexEntry>, RiffError>(e),
                }),
            decreases r.iobuff.size - r.iobuff.pos,
        {
            let left = r.iobuff.amount_left();
            if left == 0 {
                proof {
                    assert(out@ + Seq::<SuperIndexEntry>::empty() =~= out@);
                }
                break;
            }
            if left < 16 {
                return Err(RiffError::Truncated);
            }
            let ghost out_before = out@;
            let e = match SuperIndexEntry::deser(r) {
                Ok(e) => e,
                Err(err) => {
                    return Err(err);
                },
            };
            out.push(e);
            proof {
                match SuperIndexEntry::spec_decode_seq(d, s + r.iobuff.pos, endd) {
                    Ok(t) => {
                        assert(out_before + (seq![e] + t) =~= out@ + t);
                    },
                    Err(_) => {},
                }
            }
        }
        Ok(out)
    }
}

// Writing the flat index back out, as a specification: the round-trip law
// below ties it to the decoder.

/// The four little-endian bytes of `x`.
pub open spec fn u32_bytes(x: u32) -> Seq<u8> {
    seq![
        (x % 0x100) as u8,
        ((x / 0x100) % 0x100) as u8,
        ((x / 0x10000) % 0x100) as u8,
        ((x / 0x1000000) % 0x100) as u8,
    ]
}

/// The 16 raw bytes of one flat index entry in its packed layout.
pub open spec fn index_entry_bytes(e: IndexEntry) -> Seq<u8> {
    u32_bytes(e.ckid) + u32_bytes(e.flags) + u32_bytes(e.chunk_offset) + u32_bytes(e.chunk_length)
}

/// The raw bytes of a whole sequence of flat index entries.
pub open spec fn index_entries_bytes(es: Seq<IndexEntry>) -> Seq<u8>
    decreases es.len(),
{
    if es.len() == 0 {
        Seq::empty()
    } else {
        index_entry_bytes(es[0]) + index_entries_bytes(es.drop_first())
    }
}

proof fn lemma_le32_of_bytes(data: Seq<u8>, i: int, x: u32)
    requires
        0 <= i,
        i + 4 <= data.len(),
        data[i] == (x % 0x100) as u8,
        data[i + 1] == ((x / 0x100) % 0x100) as u8,
        data[i + 2] == ((x / 0x10000) % 0x100) as u8,
        data[i + 3] == ((x / 0x1000000) % 0x100) as u8,
    ensures
        le32(data, i) == x,
{
    assert(x % 0x100 + ((x / 0x100) % 0x100) * 0x100 + ((x / 0x10000) % 0x100) * 0x10000 + ((x
        / 0x1000000) % 0x100) * 0x1000000 == x) by (bit_vector);
}

/// Where each of the 16 packed bytes of one entry comes from.
proof fn lemma_index_entry_bytes_at(e: IndexEntry)
    ensures
        index_entry_bytes(e).len() == 16,
        forall|k: int|
            0 <= k < 4 ==> #[trigger] index_entry_bytes(e)[k] == u32_bytes(e.ckid)[k],
        forall|k: int| 4 <= k < 8 ==> #[trigger] index_entry_bytes(e)[k] == u32_bytes(e.flags)[k - 4],
        forall|k: int|
            8 <= k < 12 ==> #[trigger] index_entry_bytes(e)[k] == u32_bytes(e.chunk_offset)[k - 8],
        forall|k: int|
            12 <= k < 16 ==> #[trigger] index_entry_bytes(e)[k] == u32_bytes(e.chunk_length)[k
                - 12],
{
    let a = u32_bytes(e.ckid);
    let b = u32_bytes(e.flags);
    let c = u32_bytes(e.chunk_offset);
    let d = u32_bytes(e.chunk_length);
    assert(a.len() == 4 && b.len() == 4 && c.len() == 4 && d.len() == 4);
    assert(index_entry_bytes(e) == ((a + b) + c) + d);
}

/// Decoding one entry from its own packed bytes gives the entry back.
proof fn lemma_index_entry_decode(data: Seq<u8>, i: int, e: IndexEntry)
    requires
        0 <= i,
        i + 16 <= data.len(),
        forall|k: int| 0 <= k < 16 ==> data[i + k] == #[trigger] index_entry_bytes(e)[k],
    ensures
        IndexEntry::spec_decode(data, i) == e,
{
    lemma_index_entry_bytes_at(e);
    assert(data[i + 0] == index_entry_bytes(e)[0] && data[i + 1] == index_entry_bytes(e)[1] && data[
        i + 2] == index_entry_bytes(e)[2] && data[i + 3] == index_entry_bytes(e)[3]);
    assert(data[i + 4] == index_entry_bytes(e)[4] && data[i + 5] == index_entry_bytes(e)[5] && data[
        i + 6] == index_entry_bytes(e)[6] && data[i + 7] == index_entry_bytes(e)[7]);
    assert(data[i + 8] == index_entry_bytes(e)[8] && data[i + 9] == index_entry_bytes(e)[9] && data[
        i + 10] == index_entry_bytes(e)[10] && data[i + 11] == index_entry_bytes(e)[11]);
    assert(data[i + 12] == index_entry_bytes(e)[12] && data[i + 13] == index_entry_bytes(e)[13]
        && data[i + 14] == index_entry_bytes(e)[14] && data[i + 15] == index_entry_bytes(e)[15]);
    assert(data[i + 0] == u32_bytes(e.ckid)[0] && data[i + 1] == u32_bytes(e.ckid)[1] && data[i + 2]
        == u32_bytes(e.ckid)[2] && data[i + 3] == u32_bytes(e.ckid)[3]);
    assert(data[i + 4] == u32_bytes(e.flags)[0] && data[i + 5] == u32_bytes(e.flags)[1] && data[i
        + 6] == u32_bytes(e.flags)[2] && data[i + 7] == u32_bytes(e.flags)[3]);
    assert(data[i + 8] == u32_bytes(e.chunk_offset)[0] && data[i + 9] == u32_bytes(e.chunk_offset)[1]
        && data[i + 10] == u32_bytes(e.chunk_offset)[2] && data[i + 11] == u32_bytes(
        e.chunk_offset,
    )[3]);
    assert(data[i + 12] == u32_bytes(e.chunk_length)[0] && data[i + 13] == u32_bytes(
        e.chunk_length,
    )[1] && data[i + 14] == u32_bytes(e.chunk_length)[2] && data[i + 15] == u32_bytes(
        e.chunk_length,
    )[3]);
    lemma_le32_of_bytes(data, i, e.ckid);
    lemma_le32_of_bytes(data, i + 4, e.flags);
    lemma_le32_of_bytes(data, i + 8, e.chunk_offset);
    lemma_le32_of_bytes(data, i + 12, e.chunk_length);
    assert(IndexEntry::spec_decode(data, i) == e);
}

/// Splitting the packed bytes of a non-empty entry sequence: the first 16
/// bytes are the first entry's, the rest are the remaining entries'.
proof fn lemma_index_entries_bytes_split(data: Seq<u8>, i: int, es: Seq<IndexEntry>)
    requires
        es.len() > 0,
        0 <= i,
        i + 16 * es.len() <= data.len(),
        data.subrange(i, i + 16 * es.len()) == index_entries_bytes(es),
    ensures
        forall|k: int| 0 <= k < 16 ==> data[i + k] == #[trigger] index_entry_bytes(es[0])[k],
        data.subrange(i + 16, i + 16 * es.len()) == index_entries_bytes(es.drop_first()),
{
    lemma_index_entries_bytes_len(es);
    lemma_index_entries_bytes_len(es.drop_first());
    lemma_index_entry_bytes_at(es[0]);
    assert(index_entries_bytes(es) == index_entry_bytes(es[0]) + index_entries_bytes(
        es.drop_first(),
    ));
    assert forall|k: int| 0 <= k < 16 implies data[i + k] == #[trigger] index_entry_bytes(
        es[0],
    )[k] by {
        assert(data.subrange(i, i + 16 * es.len())[k] == data[i + k]);
    }
    assert(data.subrange(i + 16, i + 16 * es.len()) =~= index_entries_bytes(es.drop_first())) by {
        assert forall|k: int| 0 <= k < 16 * es.len() - 16 implies data.subrange(
            i + 16,
            i + 16 * es.len(),
        )[k] == index_entries_bytes(es.drop_first())[k] by {
            assert(data.subrange(i, i + 16 * es.len())[k + 16] == data[i + 16 + k]);
        }
    }
}

/// Round trip: a sequence of index entries written as raw fixed-layout
/// bytes into a range, then sequence-decoded over exactly that range,
/// reproduces the original sequence — and decoding stops exactly at the
/// boundary, with no residual bytes.
pub proof fn lemma_index_entries_round_trip(data: Seq<u8>, i: int, es: Seq<IndexEntry>)
    requires
        0 <= i,
        i + 16 * es.len() <= data.len(),
        data.subrange(i, i + 16 * es.len()) == index_entries_bytes(es),
    ensures
        IndexEntry::spec_decode_seq(data, i, i + 16 * es.len()) == Ok::<Seq<IndexEntry>, RiffError>(
            es,
        ),
    decreases es.len(),
{
    if es.len() == 0 {
        assert(es =~= Seq::<IndexEntry>::empty());
    } else {
        lemma_index_entries_bytes_split(data, i, es);
        lemma_index_entry_decode(data, i, es[0]);
        lemma_index_entries_round_trip(data, i + 16, es.drop_first());
        assert(seq![es[0]] + es.drop_first() =~= es);
    }
}

/// The packed byte length of an entry sequence: 16 bytes per entry.
pub proof fn lemma_index_entries_bytes_len(es: Seq<IndexEntry>)
    ensures
        index_entries_bytes(es).len() == 16 * es.len(),
    decreases es.len(),
{
    if es.len() > 0 {
        lemma_index_entries_bytes_len(es.drop_first());
    }
}

} // verus!
