use avirs::data::{IndexEntry, MainHeader};
use avirs::demuxer::index::{StreamIndex, SuperIndex};
use avirs::demuxer::{AVIError, Demuxer, Format, FormatRule};
use avirs::fourcc::FourCC;
use avirs::riff::{Chunk, IOBuffer, Node, Riff, RiffError, SeekFrom};

fn le32(x: u32) -> Vec<u8> {
    x.to_le_bytes().to_vec()
}

fn le16(x: u16) -> Vec<u8> {
    x.to_le_bytes().to_vec()
}

/// A chunk: tag, size, payload, and a pad byte after an odd payload.
fn chunk(tag: &[u8; 4], payload: &[u8]) -> Vec<u8> {
    let mut v = Vec::new();
    v.extend_from_slice(tag);
    v.extend_from_slice(&le32(payload.len() as u32));
    v.extend_from_slice(payload);
    if payload.len() % 2 == 1 {
        v.push(0);
    }
    v
}

/// A list: `LIST`, size covering the inner tag plus contents, inner tag,
/// contents, and a pad byte after an odd size.
fn list(tag: &[u8; 4], contents: &[u8]) -> Vec<u8> {
    let mut v = Vec::new();
    v.extend_from_slice(b"LIST");
    v.extend_from_slice(&le32(4 + contents.len() as u32));
    v.extend_from_slice(tag);
    v.extend_from_slice(contents);
    if contents.len() % 2 == 1 {
        v.push(0);
    }
    v
}

/// A whole file: one `RIFF` block tagged `AVI ` around `contents`.
fn riff_avi(contents: &[u8]) -> Vec<u8> {
    let mut v = Vec::new();
    v.extend_from_slice(b"RIFF");
    v.extend_from_slice(&le32(4 + contents.len() as u32));
    v.extend_from_slice(b"AVI ");
    v.extend_from_slice(contents);
    v
}

/// A 56-byte `avih` payload declaring `streams` streams.
fn avih_payload(streams: u32) -> Vec<u8> {
    let mut v = Vec::new();
    v.extend_from_slice(&le32(40000)); // micro_sec_per_frame
    v.extend_from_slice(&le32(1_000_000)); // max_bytes_per_sec
    v.extend_from_slice(&le32(0)); // padding_granularity
    v.extend_from_slice(&le32(0x10)); // flags
    v.extend_from_slice(&le32(250)); // total_frames
    v.extend_from_slice(&le32(0)); // initial_frames
    v.extend_from_slice(&le32(streams));
    v.extend_from_slice(&le32(0x10000)); // suggested_buffer_suze
    v.extend_from_slice(&le32(320)); // width
    v.extend_from_slice(&le32(240)); // height
    for _ in 0..4 {
        v.extend_from_slice(&le32(0));
    }
    v
}

/// A 56-byte `strh` payload whose type tag is `fcc_type`.
fn strh_payload(fcc_type: &[u8; 4]) -> Vec<u8> {
    let mut v = Vec::new();
    v.extend_from_slice(fcc_type);
    v.extend_from_slice(b"h264"); // fcc_handler
    v.extend_from_slice(&le32(0)); // flags
    v.extend_from_slice(&le16(0)); // priority
    v.extend_from_slice(&le16(0)); // language
    v.extend_from_slice(&le32(0)); // initial_frams
    v.extend_from_slice(&le32(1)); // scale
    v.extend_from_slice(&le32(25)); // rate
    v.extend_from_slice(&le32(0)); // start
    v.extend_from_slice(&le32(250)); // length
    v.extend_from_slice(&le32(0x10000)); // suggested_buffer_suze
    v.extend_from_slice(&le32(0)); // quality
    v.extend_from_slice(&le32(0)); // sample_size
    v.extend_from_slice(&le16(0)); // frame.left
    v.extend_from_slice(&le16(0)); // frame.top
    v.extend_from_slice(&le16(320)); // frame.right
    v.extend_from_slice(&le16(240)); // frame.bottom
    v
}

/// A 40-byte bitmap-info `strf` payload for a video stream.
fn strf_vids_payload() -> Vec<u8> {
    let mut v = Vec::new();
    v.extend_from_slice(&le32(40)); // size
    v.extend_from_slice(&le32(320)); // width
    v.extend_from_slice(&le32(240)); // height
    v.extend_from_slice(&le16(1)); // planes
    v.extend_from_slice(&le16(24)); // bit_count
    v.extend_from_slice(&le32(0)); // compression
    v.extend_from_slice(&le32(230400)); // size_image
    v.extend_from_slice(&le32(0)); // x_pels_per_meter
    v.extend_from_slice(&le32(0)); // y_pels_per_meter
    v.extend_from_slice(&le32(0)); // clr_used
    v.extend_from_slice(&le32(0)); // clr_important
    v
}

/// An 18+extra byte wave-format `strf` payload for an audio stream.
fn strf_auds_payload(extra: &[u8]) -> Vec<u8> {
    let mut v = Vec::new();
    v.extend_from_slice(&le16(1)); // format_tag
    v.extend_from_slice(&le16(2)); // channels
    v.extend_from_slice(&le32(44100)); // samples_per_sec
    v.extend_from_slice(&le32(176400)); // avg_bytes_per_sec
    v.extend_from_slice(&le16(4)); // block_align
    v.extend_from_slice(&le16(16)); // bits_per_sample
    v.extend_from_slice(&le16(extra.len() as u16)); // size
    v.extend_from_slice(extra);
    v
}

/// One `strl` list holding a video header and format.
fn vids_strl() -> Vec<u8> {
    let mut inner = Vec::new();
    inner.extend_from_slice(&chunk(b"strh", &strh_payload(b"vids")));
    inner.extend_from_slice(&chunk(b"strf", &strf_vids_payload()));
    list(b"strl", &inner)
}

fn minimal_avi(streams_declared: u32) -> Vec<u8> {
    let mut hdrl = Vec::new();
    hdrl.extend_from_slice(&chunk(b"avih", &avih_payload(streams_declared)));
    hdrl.extend_from_slice(&vids_strl());
    let mut top = Vec::new();
    top.extend_from_slice(&list(b"hdrl", &hdrl));
    top.extend_from_slice(&list(b"movi", &[]));
    riff_avi(&top)
}

fn fcc(tag: &[u8; 4]) -> FourCC {
    FourCC::from_array(*tag)
}

#[test]
fn reiterating_a_list_yields_the_same_children() {
    let mut contents = Vec::new();
    contents.extend_from_slice(&chunk(b"one ", b"abc"));
    contents.extend_from_slice(&chunk(b"two ", b"defg"));
    contents.extend_from_slice(&list(b"sub ", &chunk(b"innr", b"x")));
    let data = riff_avi(&contents);
    let riff = Riff::new(data);
    let mut it = riff.iter();
    let top = it.next().unwrap().unwrap();
    let mut first_pass: Vec<(FourCC, u64)> = Vec::new();
    let mut li = top.iter();
    while let Some(n) = li.next() {
        let n = n.unwrap();
        first_pass.push(match &n {
            Node::List(l) => (l.fourcc(), l.size()),
            Node::Chunk(c) => (c.fourcc(), c.size()),
        });
    }
    let mut second_pass: Vec<(FourCC, u64)> = Vec::new();
    let mut li2 = top.iter();
    while let Some(n) = li2.next() {
        let n = n.unwrap();
        second_pass.push(match &n {
            Node::List(l) => (l.fourcc(), l.size()),
            Node::Chunk(c) => (c.fourcc(), c.size()),
        });
    }
    assert_eq!(first_pass, second_pass);
    assert_eq!(
        first_pass,
        vec![(fcc(b"one "), 3), (fcc(b"two "), 4), (fcc(b"sub "), 10)]
    );
}

#[test]
fn chunk_size_unchanged_by_consuming_reader() {
    let data = riff_avi(&chunk(b"smpl", b"hello"));
    let riff = Riff::new(data);
    let top = riff.iter().next().unwrap().unwrap();
    let node = top.iter().next().unwrap().unwrap();
    let c = node.chunk_or(()).unwrap();
    let before = c.size();
    let mut rd = c.read();
    let mut total = Vec::new();
    loop {
        let part = rd.read(2);
        if part.is_empty() {
            break;
        }
        total.extend_from_slice(&part);
    }
    assert_eq!(total, b"hello".to_vec());
    assert_eq!(before, 5);
    assert_eq!(c.size(), 5);
}

#[test]
fn index_entries_round_trip_through_idx1() {
    let entries = [
        (0x63643030u32, 0x10, 4, 1200),
        (0x62643130, 0, 1204, 800),
        (0x63643030, 0x10, 2004, 1100),
    ];
    let mut raw = Vec::new();
    for (ckid, flags, off, len) in entries {
        raw.extend_from_slice(&le32(ckid));
        raw.extend_from_slice(&le32(flags));
        raw.extend_from_slice(&le32(off));
        raw.extend_from_slice(&le32(len));
    }
    let mut hdrl = Vec::new();
    hdrl.extend_from_slice(&chunk(b"avih", &avih_payload(1)));
    hdrl.extend_from_slice(&vids_strl());
    let mut top = Vec::new();
    top.extend_from_slice(&list(b"hdrl", &hdrl));
    top.extend_from_slice(&list(b"movi", &[]));
    top.extend_from_slice(&chunk(b"idx1", &raw));
    let riff = Riff::new(riff_avi(&top));
    let d = Demuxer::from_riff(&riff).unwrap();
    let decoded = d.idx1.expect("idx1 present");
    assert_eq!(decoded.len(), entries.len());
    for (got, (ckid, flags, off, len)) in decoded.iter().zip(entries) {
        assert_eq!(
            (got.ckid, got.flags, got.chunk_offset, got.chunk_length),
            (ckid, flags, off, len)
        );
    }
}

#[test]
fn idx1_with_partial_trailing_record_is_truncation() {
    let mut raw = vec![0u8; 16];
    raw.extend_from_slice(&[1, 2, 3, 4]); // a partial record
    let mut top = Vec::new();
    let mut hdrl = Vec::new();
    hdrl.extend_from_slice(&chunk(b"avih", &avih_payload(1)));
    hdrl.extend_from_slice(&vids_strl());
    top.extend_from_slice(&list(b"hdrl", &hdrl));
    top.extend_from_slice(&list(b"movi", &[]));
    top.extend_from_slice(&chunk(b"idx1", &raw));
    let riff = Riff::new(riff_avi(&top));
    let r = Demuxer::from_riff(&riff);
    assert_eq!(
        r.unwrap_err(),
        AVIError::FormatError { rule: FormatRule::Truncated }
    );
}

#[test]
fn odd_sized_chunk_window_and_sibling_after_pad() {
    let mut contents = Vec::new();
    contents.extend_from_slice(&chunk(b"odd ", b"abcde")); // 5 bytes + 1 pad
    contents.extend_from_slice(&chunk(b"nxt ", b"wxyz"));
    let riff = Riff::new(riff_avi(&contents));
    let top = riff.iter().next().unwrap().unwrap();
    let mut li = top.iter();
    let first = li.next().unwrap().unwrap().chunk_or(()).unwrap();
    assert_eq!(first.fourcc(), fcc(b"odd "));
    assert_eq!(first.size(), 5); // exactly the odd declared size
    let mut rd = first.read();
    assert_eq!(rd.read(16), b"abcde".to_vec());
    let second = li.next().unwrap().unwrap().chunk_or(()).unwrap();
    assert_eq!(second.fourcc(), fcc(b"nxt ")); // found after the pad byte
    assert_eq!(second.size(), 4);
    let mut rd2 = second.read();
    assert_eq!(rd2.read(16), b"wxyz".to_vec());
    assert!(li.next().is_none());
}

#[test]
fn oversized_chunk_size_is_rejected_as_truncation() {
    let mut contents = Vec::new();
    contents.extend_from_slice(b"big ");
    contents.extend_from_slice(&le32(1000)); // declares far more than remains
    contents.extend_from_slice(b"xy");
    let riff = Riff::new(riff_avi(&contents));
    let top = riff.iter().next().unwrap().unwrap();
    let mut li = top.iter();
    let r = li.next().unwrap();
    assert_eq!(r.unwrap_err(), RiffError::Truncated);
}

#[test]
fn minimal_avi_demuxes() {
    let riff = Riff::new(minimal_avi(1));
    let d = Demuxer::from_riff(&riff).unwrap();
    assert_eq!(d.header.streams, 1);
    assert_eq!(d.header.micro_sec_per_frame, 40000);
    assert_eq!(d.header.width, 320);
    assert_eq!(d.header.height, 240);
    assert_eq!(d.streams.len(), 1);
    let s = &d.streams[0];
    assert_eq!(s.header.fcc_type, fcc(b"vids"));
    assert_eq!(s.header.fcc_handler, fcc(b"h264"));
    assert_eq!(s.header.rate, 25);
    assert_eq!(s.header.frame.right, 320);
    assert_eq!(s.header.frame.bottom, 240);
    match &s.format {
        Format::Video(b) => {
            assert_eq!(b.width, 320);
            assert_eq!(b.height, 240);
            assert_eq!(b.bit_count, 24);
        }
        other => panic!("expected video format, got {:?}", other),
    }
    assert!(s.name.is_none());
    assert!(s.index.is_none());
    assert!(d.idx1.is_none());
    assert!(d.info.is_none());
    assert_eq!(d.movi.fourcc(), fcc(b"movi"));
}

#[test]
fn stream_count_mismatch_fails() {
    let riff = Riff::new(minimal_avi(2));
    let r = Demuxer::from_riff(&riff);
    assert_eq!(
        r.unwrap_err(),
        AVIError::FormatError { rule: FormatRule::StreamCountMismatch }
    );
}

#[test]
fn strf_before_strh_fails() {
    let mut inner = Vec::new();
    inner.extend_from_slice(&chunk(b"strf", &strf_vids_payload()));
    inner.extend_from_slice(&chunk(b"strh", &strh_payload(b"vids")));
    let mut hdrl = Vec::new();
    hdrl.extend_from_slice(&chunk(b"avih", &avih_payload(1)));
    hdrl.extend_from_slice(&list(b"strl", &inner));
    let mut top = Vec::new();
    top.extend_from_slice(&list(b"hdrl", &hdrl));
    top.extend_from_slice(&list(b"movi", &[]));
    let riff = Riff::new(riff_avi(&top));
    let r = Demuxer::from_riff(&riff);
    assert_eq!(
        r.unwrap_err(),
        AVIError::FormatError { rule: FormatRule::StrfBeforeStrh }
    );
}

#[test]
fn unknown_top_level_tag_carries_the_tag() {
    let mut top = Vec::new();
    let mut hdrl = Vec::new();
    hdrl.extend_from_slice(&chunk(b"avih", &avih_payload(1)));
    hdrl.extend_from_slice(&vids_strl());
    top.extend_from_slice(&list(b"hdrl", &hdrl));
    top.extend_from_slice(&chunk(b"XTRA", b"??"));
    top.extend_from_slice(&list(b"movi", &[]));
    let riff = Riff::new(riff_avi(&top));
    let r = Demuxer::from_riff(&riff);
    assert_eq!(r.unwrap_err(), AVIError::UnknownFCC(fcc(b"XTRA")));
}

#[test]
fn junk_is_skipped_everywhere() {
    let mut hdrl = Vec::new();
    hdrl.extend_from_slice(&chunk(b"JUNK", &[0; 10]));
    hdrl.extend_from_slice(&chunk(b"avih", &avih_payload(1)));
    hdrl.extend_from_slice(&vids_strl());
    let mut top = Vec::new();
    top.extend_from_slice(&chunk(b"JUNK", &[0; 6]));
    top.extend_from_slice(&list(b"hdrl", &hdrl));
    top.extend_from_slice(&list(b"movi", &[]));
    top.extend_from_slice(&chunk(b"JUNK", &[0; 3]));
    let riff = Riff::new(riff_avi(&top));
    let d = Demuxer::from_riff(&riff).unwrap();
    assert_eq!(d.streams.len(), 1);
}

#[test]
fn duplicate_avih_fails() {
    let mut hdrl = Vec::new();
    hdrl.extend_from_slice(&chunk(b"avih", &avih_payload(1)));
    hdrl.extend_from_slice(&chunk(b"avih", &avih_payload(1)));
    hdrl.extend_from_slice(&vids_strl());
    let mut top = Vec::new();
    top.extend_from_slice(&list(b"hdrl", &hdrl));
    top.extend_from_slice(&list(b"movi", &[]));
    let riff = Riff::new(riff_avi(&top));
    let r = Demuxer::from_riff(&riff);
    assert_eq!(
        r.unwrap_err(),
        AVIError::FormatError { rule: FormatRule::AvihDuplicate }
    );
}

#[test]
fn missing_movi_fails() {
    let mut hdrl = Vec::new();
    hdrl.extend_from_slice(&chunk(b"avih", &avih_payload(1)));
    hdrl.extend_from_slice(&vids_strl());
    let top = list(b"hdrl", &hdrl);
    let riff = Riff::new(riff_avi(&top));
    let r = Demuxer::from_riff(&riff);
    assert_eq!(
        r.unwrap_err(),
        AVIError::FormatError { rule: FormatRule::MoviMissing }
    );
}

#[test]
fn missing_avih_fails() {
    let mut hdrl = Vec::new();
    hdrl.extend_from_slice(&vids_strl());
    let mut top = Vec::new();
    top.extend_from_slice(&list(b"hdrl", &hdrl));
    top.extend_from_slice(&list(b"movi", &[]));
    let riff = Riff::new(riff_avi(&top));
    // the strl is decoded first, so stream count cannot be checked; the
    // missing header is reported
    let r = Demuxer::from_riff(&riff);
    assert_eq!(
        r.unwrap_err(),
        AVIError::FormatError { rule: FormatRule::AvihMissing }
    );
}

#[test]
fn non_avi_first_block_fails() {
    let mut v = Vec::new();
    v.extend_from_slice(b"RIFF");
    v.extend_from_slice(&le32(4));
    v.extend_from_slice(b"WAVE");
    let riff = Riff::new(v);
    let r = Demuxer::from_riff(&riff);
    assert_eq!(r.unwrap_err(), AVIError::FormatError { rule: FormatRule::NotAvi });
}

#[test]
fn empty_source_has_no_top_level_block() {
    let riff = Riff::new(Vec::new());
    let r = Demuxer::from_riff(&riff);
    assert_eq!(
        r.unwrap_err(),
        AVIError::FormatError { rule: FormatRule::TopLevelMissing }
    );
}

#[test]
fn audio_stream_with_extra_bytes() {
    let extra = [7u8, 8, 9, 10];
    let mut inner = Vec::new();
    inner.extend_from_slice(&chunk(b"strh", &strh_payload(b"auds")));
    inner.extend_from_slice(&chunk(b"strf", &strf_auds_payload(&extra)));
    inner.extend_from_slice(&chunk(b"strn", b"mic1"));
    let mut hdrl = Vec::new();
    hdrl.extend_from_slice(&chunk(b"avih", &avih_payload(1)));
    hdrl.extend_from_slice(&list(b"strl", &inner));
    let mut top = Vec::new();
    top.extend_from_slice(&list(b"hdrl", &hdrl));
    top.extend_from_slice(&list(b"movi", &[]));
    let riff = Riff::new(riff_avi(&top));
    let d = Demuxer::from_riff(&riff).unwrap();
    let s = &d.streams[0];
    match &s.format {
        Format::Audio(w) => {
            assert_eq!(w.header.channels, 2);
            assert_eq!(w.header.samples_per_sec, 44100);
            assert_eq!(w.header.size, 4);
            assert_eq!(w.extra, extra.to_vec());
        }
        other => panic!("expected audio format, got {:?}", other),
    }
    assert_eq!(s.name.as_deref(), Some("mic1"));
}

#[test]
fn stream_index_decodes_and_indexes() {
    let mut payload = Vec::new();
    payload.extend_from_slice(b"ix00"); // fcc
    payload.extend_from_slice(&le32(24)); // cb
    payload.extend_from_slice(&le16(1)); // longs_per_entry
    payload.push(0); // index_sub_type
    payload.push(1); // index_type
    payload.extend_from_slice(&le32(2)); // entries_in_use
    payload.extend_from_slice(&le32(0x30306463)); // chunk_id
    for _ in 0..3 {
        payload.extend_from_slice(&le32(0)); // reserved
    }
    payload.extend_from_slice(&le32(0xAABBCCDD));
    payload.extend_from_slice(&le32(0x11223344));
    let data = payload;
    let backing = data.clone();
    let c = Chunk {
        fcc: fcc(b"indx"),
        iobuff: IOBuffer::new(&backing, 0, backing.len() as u64),
    };
    let si = StreamIndex::from_riff(&c).unwrap();
    assert_eq!(si.header.longs_per_entry, 1);
    assert_eq!(si.entries.len(), 2);
    assert_eq!(si.entry(0).unwrap().adw, 0xAABBCCDD);
    assert_eq!(si.entry(1).unwrap().adw, 0x11223344);
    assert!(si.entry(2).is_none());
}

#[test]
fn super_index_unhandled_type_is_unimplemented() {
    let mut payload = Vec::new();
    payload.extend_from_slice(b"indx");
    payload.extend_from_slice(&le32(24));
    payload.extend_from_slice(&le16(4)); // longs_per_entry for 16-byte entries
    payload.push(0); // index_sub_type
    payload.push(1); // index_type: not index-of-indexes
    payload.extend_from_slice(&le32(0));
    payload.extend_from_slice(&le32(0));
    for _ in 0..3 {
        payload.extend_from_slice(&le32(0));
    }
    let backing = payload;
    let c = Chunk {
        fcc: fcc(b"indx"),
        iobuff: IOBuffer::new(&backing, 0, backing.len() as u64),
    };
    let r = SuperIndex::from_riff(&c);
    assert_eq!(r.unwrap_err(), AVIError::Unimplemented { index_type: 1 });
}

#[test]
fn super_index_of_indexes_decodes() {
    let mut payload = Vec::new();
    payload.extend_from_slice(b"indx");
    payload.extend_from_slice(&le32(24));
    payload.extend_from_slice(&le16(4));
    payload.push(2); // two-field sub-type
    payload.push(0); // index of indexes
    payload.extend_from_slice(&le32(1));
    payload.extend_from_slice(&le32(0));
    for _ in 0..3 {
        payload.extend_from_slice(&le32(0));
    }
    payload.extend_from_slice(&0x1122334455667788u64.to_le_bytes()); // offset
    payload.extend_from_slice(&le32(512)); // size
    payload.extend_from_slice(&le32(30)); // duration
    let backing = payload;
    let c = Chunk {
        fcc: fcc(b"indx"),
        iobuff: IOBuffer::new(&backing, 0, backing.len() as u64),
    };
    let si = SuperIndex::from_riff(&c).unwrap();
    assert_eq!(si.entries.len(), 1);
    let e = si.entry(0).unwrap();
    assert_eq!(e.offset, 0x1122334455667788);
    assert_eq!(e.size, 512);
    assert_eq!(e.duration, 30);
}

#[test]
fn fourcc_constructors() {
    assert_eq!(FourCC::from_array(*b"RIFF"), FourCC(0x52, 0x49, 0x46, 0x46));
    assert_eq!(FourCC::from_slice(b"AVI "), Some(FourCC::from_array(*b"AVI ")));
    assert_eq!(FourCC::from_slice(b"toolong"), None);
    assert_eq!(FourCC::from_str("movi"), Some(FourCC::from_array(*b"movi")));
    assert_eq!(FourCC::from_str("hi"), None);
}

#[test]
fn window_seek_and_read_semantics() {
    let backing: Vec<u8> = (0u8..10).collect();
    let mut w = IOBuffer::new(&backing, 2, 6); // bytes 2..8
    assert_eq!(w.read(3), vec![2, 3, 4]);
    assert_eq!(w.seek(SeekFrom::Start(0)), Ok(0));
    assert_eq!(w.read(100), vec![2, 3, 4, 5, 6, 7]); // clamped to the window
    assert_eq!(w.read(1), Vec::<u8>::new()); // exhausted
    assert_eq!(w.seek(SeekFrom::End(-2)), Ok(4));
    assert_eq!(w.read(100), vec![6, 7]);
    assert_eq!(w.seek(SeekFrom::Current(-100)), Err(RiffError::InvalidSeek));
    assert_eq!(w.seek(SeekFrom::End(3)), Ok(9)); // past the end is allowed
    assert_eq!(w.read(1), Vec::<u8>::new());
}

#[test]
fn release_returns_the_source() {
    let data = minimal_avi(1);
    let copy = data.clone();
    let riff = Riff::new(data);
    {
        let _ = Demuxer::from_riff(&riff).unwrap();
    }
    assert_eq!(riff.release(), copy);
}

#[test]
fn top_level_iteration_stops_at_non_riff_tag() {
    let mut v = riff_avi(&[]);
    v.extend_from_slice(b"GARBAGE_____");
    let riff = Riff::new(v);
    let mut it = riff.iter();
    assert!(it.next().unwrap().is_ok());
    assert!(it.next().is_none());
}

#[test]
fn hdrl_as_chunk_fails() {
    let mut top = Vec::new();
    top.extend_from_slice(&chunk(b"hdrl", &[0; 4]));
    top.extend_from_slice(&list(b"movi", &[]));
    let riff = Riff::new(riff_avi(&top));
    let r = Demuxer::from_riff(&riff);
    assert_eq!(
        r.unwrap_err(),
        AVIError::FormatError { rule: FormatRule::HdrlNotList }
    );
}

#[test]
fn nested_list_inside_strl_fails() {
    let mut inner = Vec::new();
    inner.extend_from_slice(&chunk(b"strh", &strh_payload(b"vids")));
    inner.extend_from_slice(&list(b"xtra", &[]));
    let mut hdrl = Vec::new();
    hdrl.extend_from_slice(&chunk(b"avih", &avih_payload(1)));
    hdrl.extend_from_slice(&list(b"strl", &inner));
    let mut top = Vec::new();
    top.extend_from_slice(&list(b"hdrl", &hdrl));
    top.extend_from_slice(&list(b"movi", &[]));
    let riff = Riff::new(riff_avi(&top));
    let r = Demuxer::from_riff(&riff);
    assert_eq!(
        r.unwrap_err(),
        AVIError::FormatError { rule: FormatRule::StreamChildNotChunk }
    );
}

#[test]
fn duplicate_movi_fails() {
    let mut hdrl = Vec::new();
    hdrl.extend_from_slice(&chunk(b"avih", &avih_payload(1)));
    hdrl.extend_from_slice(&vids_strl());
    let mut top = Vec::new();
    top.extend_from_slice(&list(b"hdrl", &hdrl));
    top.extend_from_slice(&list(b"movi", &[]));
    top.extend_from_slice(&list(b"movi", &[]));
    let riff = Riff::new(riff_avi(&top));
    let r = Demuxer::from_riff(&riff);
    assert_eq!(
        r.unwrap_err(),
        AVIError::FormatError { rule: FormatRule::MoviDuplicate }
    );
}

#[test]
fn invalid_utf8_stream_name_fails() {
    let mut inner = Vec::new();
    inner.extend_from_slice(&chunk(b"strh", &strh_payload(b"vids")));
    inner.extend_from_slice(&chunk(b"strf", &strf_vids_payload()));
    inner.extend_from_slice(&chunk(b"strn", &[0xFF, 0xFE]));
    let mut hdrl = Vec::new();
    hdrl.extend_from_slice(&chunk(b"avih", &avih_payload(1)));
    hdrl.extend_from_slice(&list(b"strl", &inner));
    let mut top = Vec::new();
    top.extend_from_slice(&list(b"hdrl", &hdrl));
    top.extend_from_slice(&list(b"movi", &[]));
    let riff = Riff::new(riff_avi(&top));
    let r = Demuxer::from_riff(&riff);
    assert_eq!(
        r.unwrap_err(),
        AVIError::FormatError { rule: FormatRule::StrnNotText }
    );
}

#[test]
fn short_stream_header_is_truncation() {
    let mut inner = Vec::new();
    inner.extend_from_slice(&chunk(b"strh", &[0; 20])); // fewer than the fixed layout
    let mut hdrl = Vec::new();
    hdrl.extend_from_slice(&chunk(b"avih", &avih_payload(1)));
    hdrl.extend_from_slice(&list(b"strl", &inner));
    let mut top = Vec::new();
    top.extend_from_slice(&list(b"hdrl", &hdrl));
    top.extend_from_slice(&list(b"movi", &[]));
    let riff = Riff::new(riff_avi(&top));
    let r = Demuxer::from_riff(&riff);
    assert_eq!(
        r.unwrap_err(),
        AVIError::FormatError { rule: FormatRule::Truncated }
    );
}

#[test]
fn stream_index_entry_size_mismatch_fails() {
    let mut payload = Vec::new();
    payload.extend_from_slice(b"ix00");
    payload.extend_from_slice(&le32(24));
    payload.extend_from_slice(&le16(2)); // wrong longs_per_entry
    payload.push(0);
    payload.push(1);
    payload.extend_from_slice(&le32(0));
    payload.extend_from_slice(&le32(0));
    for _ in 0..3 {
        payload.extend_from_slice(&le32(0));
    }
    let backing = payload;
    let c = Chunk {
        fcc: fcc(b"indx"),
        iobuff: IOBuffer::new(&backing, 0, backing.len() as u64),
    };
    let r = StreamIndex::from_riff(&c);
    assert_eq!(
        r.unwrap_err(),
        AVIError::FormatError { rule: FormatRule::IndexEntrySizeMismatch }
    );
}

#[test]
fn node_accessors_and_closures() {
    let mut contents = Vec::new();
    contents.extend_from_slice(&chunk(b"ck  ", b"zz"));
    contents.extend_from_slice(&list(b"ls  ", &[]));
    let riff = Riff::new(riff_avi(&contents));
    let top = riff.iter().next().unwrap().unwrap();
    let mut li = top.iter();
    let first = li.next().unwrap().unwrap();
    assert_eq!(first.fourcc(), fcc(b"ck  "));
    assert!(first.chunk_or(0u32).is_ok());
    let e = first.list_or_else(|c| c.fourcc()).unwrap_err();
    assert_eq!(e, fcc(b"ck  "));
    let second = li.next().unwrap().unwrap();
    assert_eq!(second.fourcc(), fcc(b"ls  "));
    assert!(second.list_or(0u32).is_ok());
    let e2 = second.chunk_or_else(|l| l.fourcc()).unwrap_err();
    assert_eq!(e2, fcc(b"ls  "));
    assert!(li.next().is_none());
}
