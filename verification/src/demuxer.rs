pub mod index;
pub mod stream;

use vstd::prelude::*;

use crate::data::{
    fcc_avi, fcc_avih, fcc_hdrl, fcc_idx1, fcc_info, fcc_junk, fcc_movi, fcc_strl, BitmapInfoHeader,
    IndexEntry, MainHeader, WaveFormat, WaveFormatV, BITMAPINFOHEADER,
};
use crate::fourcc::FourCC;
use crate::riff::{
    lemma_list_step_bounds, list_step, riff_step, List, ListStep, Node, Riff, RiffError,
};
use crate::demuxer::stream::{views_of, RawStream, RawStreamV};

verus! {

/// The grammar rule a malformed file broke; carried by
/// [`AVIError::FormatError`] so a failure pinpoints its origin.
#[derive(Clone, Copy, PartialEq, Eq, Structural, Debug)]
pub enum FormatRule {
    /// The file holds no top-level `RIFF` block at all.
    TopLevelMissing,
    /// The first top-level block is not tagged `AVI `.
    NotAvi,
    /// A declared size overran the bytes that remain, or a fixed record was
    /// cut short.
    Truncated,
    /// A seek computed an out-of-range position.
    BadSeek,
    /// `hdrl` appeared as a chunk where a list is required.
    HdrlNotList,
    /// A second `avih` chunk appeared.
    AvihDuplicate,
    /// `avih` appeared as a list where a chunk is required.
    AvihNotChunk,
    /// No `avih` chunk was present in the header list.
    AvihMissing,
    /// `strl` appeared as a chunk where a list is required.
    StrlNotList,
    /// `INFO` appeared as a chunk where a list is required.
    InfoNotList,
    /// A second `INFO` list appeared.
    InfoDuplicate,
    /// `movi` appeared as a chunk where a list is required.
    MoviNotList,
    /// A second `movi` list appeared.
    MoviDuplicate,
    /// No `movi` list was present.
    MoviMissing,
    /// `idx1` appeared as a list where a chunk is required.
    Idx1NotChunk,
    /// A second `idx1` chunk appeared.
    Idx1Duplicate,
    /// The main header's stream count differs from the number of `strl`
    /// lists.
    StreamCountMismatch,
    /// A stream was decoded from a list not tagged `strl`.
    NotStrl,
    /// A stream description list held a nested list; only chunks belong
    /// there.
    StreamChildNotChunk,
    /// A second `strh` chunk appeared in one stream description.
    StrhDuplicate,
    /// No `strh` chunk was present in a stream description.
    StrhMissing,
    /// A second `strf` chunk appeared in one stream description.
    StrfDuplicate,
    /// No `strf` chunk was present in a stream description.
    StrfMissing,
    /// `strf` appeared before `strh`, so the stream's type was not yet
    /// known.
    StrfBeforeStrh,
    /// A second `strn` chunk appeared in one stream description.
    StrnDuplicate,
    /// A stream name was not valid text.
    StrnNotText,
    /// A second `indx` chunk appeared in one stream description.
    IndxDuplicate,
    /// An index header declares an entry size this library does not
    /// understand.
    IndexEntrySizeMismatch,
    /// An index header declares an unknown sub-type.
    IndexSubTypeUnknown,
}

/// Failures of the AVI grammar walk.
#[derive(Clone, Copy, PartialEq, Eq, Structural, Debug)]
pub enum AVIError {
    /// The file breaks the named grammar rule: it is malformed or
    /// truncated.
    FormatError { rule: FormatRule },
    /// A tag appeared where the grammar enumerates a closed set of expected
    /// tags, and it is neither expected nor the skip tag.
    UnknownFCC(FourCC),
    /// The bytes are well-formed under a recognized sub-schema whose
    /// variant this library does not decode; the file is not corrupt.
    Unimplemented { index_type: u8 },
}

pub type AVIResult<T> = Result<T, AVIError>;

/// How a container-layer failure surfaces at the AVI level.
pub open spec fn spec_avi_err(e: RiffError) -> AVIError {
    match e {
        RiffError::Truncated => AVIError::FormatError { rule: FormatRule::Truncated },
        RiffError::InvalidSeek => AVIError::FormatError { rule: FormatRule::BadSeek },
    }
}

#[verifier::when_used_as_spec(spec_avi_err)]
pub fn avi_err(e: RiffError) -> (r: AVIError)
    ensures
        r == spec_avi_err(e),
{
    match e {
        RiffError::Truncated => AVIError::FormatError { rule: FormatRule::Truncated },
        RiffError::InvalidSeek => AVIError::FormatError { rule: FormatRule::BadSeek },
    }
}

/// A stream's format descriptor, chosen by the stream header's type tag.
#[derive(Clone, PartialEq, Eq, Debug)]
pub enum Format {
    Video(BitmapInfoHeader),
    Audio(WaveFormat),
}

/// Mathematical value of a [`Format`].
pub enum FormatV {
    Video(BITMAPINFOHEADER),
    Audio(WaveFormatV),
}

impl View for Format {
    type V = FormatV;

    open spec fn view(&self) -> FormatV {
        match self {
            Format::Video(b) => FormatV::Video(*b),
            Format::Audio(w) => FormatV::Audio(w@),
        }
    }
}

/// The header facts of a list kept opaque by the demuxer (its tag and the
/// window bounding its bytes).
pub struct ListV {
    pub fcc: FourCC,
    pub start: int,
    pub size: int,
}

/// The opaque-list value of an exec [`List`].
pub open spec fn list_view(l: List) -> ListV {
    ListV { fcc: l.fcc, start: l.iobuff.start as int, size: l.iobuff.size as int }
}

/// The demuxed representation of an AVI file: the main header, one
/// description per stream, the optional metadata list and flat index, and
/// the mandatory media-data list.
#[derive(Debug)]
pub struct Demuxer<'a> {
    pub header: MainHeader,
    pub streams: Vec<RawStream>,
    pub info: Option<List<'a>>,
    pub movi: List<'a>,
    pub idx1: Option<Vec<IndexEntry>>,
}

/// Mathematical value of a [`Demuxer`].
pub struct DemuxerV {
    pub header: MainHeader,
    pub streams: Seq<RawStreamV>,
    pub info: Option<ListV>,
    pub movi: ListV,
    pub idx1: Option<Seq<IndexEntry>>,
}

impl<'a> View for Demuxer<'a> {
    type V = DemuxerV;

    open spec fn view(&self) -> DemuxerV {
        DemuxerV {
            header: self.header,
            streams: views_of(self.streams@),
            info: match self.info {
                Some(l) => Some(list_view(l)),
                None => None,
            },
            movi: list_view(self.movi),
            idx1: match self.idx1 {
                Some(v) => Some(v@),
                None => None,
            },
        }
    }
}

/// What a pass over the `AVI ` list has gathered so far.
pub struct DemuxState {
    pub header: Option<MainHeader>,
    pub streams: Seq<RawStreamV>,
    pub info: Option<ListV>,
    pub movi: Option<ListV>,
    pub idx1: Option<Seq<IndexEntry>>,
}

/// Nothing gathered yet.
pub open spec fn spec_demux_init() -> DemuxState {
    DemuxState { header: None, streams: Seq::empty(), info: None, movi: None, idx1: None }
}

/// The state of an exec pass.
pub open spec fn dst_of<'a>(
    header: Option<MainHeader>,
    streams: Seq<RawStream>,
    info: Option<List<'a>>,
    movi: Option<List<'a>>,
    idx1: Option<Vec<IndexEntry>>,
) -> DemuxState {
    DemuxState {
        header,
        streams: views_of(streams),
        info: match info {
            Some(l) => Some(list_view(l)),
            None => None,
        },
        movi: match movi {
            Some(l) => Some(list_view(l)),
            None => None,
        },
        idx1: match idx1 {
            Some(v) => Some(v@),
            None => None,
        },
    }
}

/// What a finished pass yields: the main header must have appeared, its
/// stream count must equal the number of stream descriptions gathered, and
/// the media-data list must have appeared — checked in that order.
pub open spec fn spec_demux_finish(st: DemuxState) -> Result<DemuxerV, AVIError> {
    match st.header {
        None => Err(AVIError::FormatError { rule: FormatRule::AvihMissing }),
        Some(h) => {
            if h.streams != st.streams.len() {
                Err(AVIError::FormatError { rule: FormatRule::StreamCountMismatch })
            } else {
                match st.movi {
                    None => Err(AVIError::FormatError { rule: FormatRule::MoviMissing }),
                    Some(m) => Ok(
                        DemuxerV {
                            header: h,
                            streams: st.streams,
                            info: st.info,
                            movi: m,
                            idx1: st.idx1,
                        },
                    ),
                }
            }
        },
    }
}

/// The walk over the header list's children from window offset `p`:
/// exactly one `avih` main header, one stream per `strl` sub-list, `JUNK`
/// skipped, anything else an unknown tag.
pub open spec fn spec_hdrl_from(
    data: Seq<u8>,
    start: int,
    size: int,
    p: int,
    header: Option<MainHeader>,
    streams: Seq<RawStreamV>,
) -> Result<(Option<MainHeader>, Seq<RawStreamV>), AVIError>
    decreases size - p,
{
    match list_step(data, start, size, p) {
        ListStep::End => Ok((header, streams)),
        ListStep::Fail => Err(AVIError::FormatError { rule: FormatRule::Truncated }),
        ListStep::Item { is_list, fcc, off, len, next } => {
            if !(p < next && next <= size) {
                Err(AVIError::FormatError { rule: FormatRule::Truncated })
            } else if fcc == fcc_avih() {
                if header is Some {
                    Err(AVIError::FormatError { rule: FormatRule::AvihDuplicate })
                } else if is_list {
                    Err(AVIError::FormatError { rule: FormatRule::AvihNotChunk })
                } else if len < 56 {
                    Err(AVIError::FormatError { rule: FormatRule::Truncated })
                } else {
                    spec_hdrl_from(
                        data,
                        start,
                        size,
                        next,
                        Some(MainHeader::spec_decode(data, off)),
                        streams,
                    )
                }
            } else if fcc == fcc_strl() {
                if !is_list {
                    Err(AVIError::FormatError { rule: FormatRule::StrlNotList })
                } else {
                    match crate::demuxer::stream::spec_stream(data, fcc, off, len) {
                        Ok(rs) => spec_hdrl_from(data, start, size, next, header, streams.push(rs)),
                        Err(e) => Err(e),
                    }
                }
            } else if fcc == fcc_junk() {
                spec_hdrl_from(data, start, size, next, header, streams)
            } else {
                Err(AVIError::UnknownFCC(fcc))
            }
        },
    }
}

/// The walk over the `AVI ` list's children from window offset `p` with
/// state `st`: one header list, at most one metadata list, exactly one
/// media-data list, at most one flat index, `JUNK` skipped, anything else
/// an unknown tag.
pub open spec fn spec_demux_from(
    data: Seq<u8>,
    start: int,
    size: int,
    p: int,
    st: DemuxState,
) -> Result<DemuxerV, AVIError>
    decreases size - p,
{
    match list_step(data, start, size, p) {
        ListStep::End => spec_demux_finish(st),
        ListStep::Fail => Err(AVIError::FormatError { rule: FormatRule::Truncated }),
        ListStep::Item { is_list, fcc, off, len, next } => {
            if !(p < next && next <= size) {
                Err(AVIError::FormatError { rule: FormatRule::Truncated })
            } else if fcc == fcc_hdrl() {
                if !is_list {
                    Err(AVIError::FormatError { rule: FormatRule::HdrlNotList })
                } else {
                    match spec_hdrl_from(data, off, len, 0, st.header, st.streams) {
                        Ok((h, ss)) => spec_demux_from(
                            data,
                            start,
                            size,
                            next,
                            DemuxState {
                                header: h,
                                streams: ss,
                                info: st.info,
                                movi: st.movi,
                                idx1: st.idx1,
                            },
                        ),
                        Err(e) => Err(e),
                    }
                }
            } else if fcc == fcc_info() {
                if st.info is Some {
                    Err(AVIError::FormatError { rule: FormatRule::InfoDuplicate })
                } else if !is_list {
                    Err(AVIError::FormatError { rule: FormatRule::InfoNotList })
                } else {
                    spec_demux_from(
                        data,
                        start,
                        size,
                        next,
                        DemuxState {
                            header: st.header,
                            streams: st.streams,
                            info: Some(ListV { fcc, start: off, size: len }),
                            movi: st.movi,
                            idx1: st.idx1,
                        },
                    )
                }
            } else if fcc == fcc_movi() {
                if st.movi is Some {
                    Err(AVIError::FormatError { rule: FormatRule::MoviDuplicate })
                } else if !is_list {
                    Err(AVIError::FormatError { rule: FormatRule::MoviNotList })
                } else {
                    spec_demux_from(
                        data,
                        start,
                        size,
                        next,
                        DemuxState {
                            header: st.header,
                            streams: st.streams,
                            info: st.info,
                            movi: Some(ListV { fcc, start: off, size: len }),
                            idx1: st.idx1,
                        },
                    )
                }
            } else if fcc == fcc_idx1() {
                if st.idx1 is Some {
                    Err(AVIError::FormatError { rule: FormatRule::Idx1Duplicate })
                } else if is_list {
                    Err(AVIError::FormatError { rule: FormatRule::Idx1NotChunk })
                } else {
                    match IndexEntry::spec_decode_seq(data, off, off + len) {
                        Ok(es) => spec_demux_from(
                            data,
                            start,
                            size,
                            next,
                            DemuxState {
                                header: st.header,
                                streams: st.streams,
                                info: st.info,
                                movi: st.movi,
                                idx1: Some(es),
                            },
                        ),
                        Err(e) => Err(spec_avi_err(e)),
                    }
                }
            } else if fcc == fcc_junk() {
                spec_demux_from(data, start, size, next, st)
            } else {
                Err(AVIError::UnknownFCC(fcc))
            }
        },
    }
}

/// What demuxing a whole byte source yields: the first top-level block
/// must exist and be tagged `AVI `, and its children must satisfy the AVI
/// grammar.  Success and every failure are pinned by the bytes alone.
pub open spec fn spec_demux(data: Seq<u8>) -> Result<DemuxerV, AVIError> {
    match riff_step(data, data.len() as int, 0) {
        ListStep::End => Err(AVIError::FormatError { rule: FormatRule::TopLevelMissing }),
        ListStep::Fail => Err(AVIError::FormatError { rule: FormatRule::Truncated }),
        ListStep::Item { is_list, fcc, off, len, next } => {
            if fcc != fcc_avi() {
                Err(AVIError::FormatError { rule: FormatRule::NotAvi })
            } else {
                spec_demux_from(data, off, len, 0, spec_demux_init())
            }
        },
    }
}

impl<'a> Demuxer<'a> {
    /// The windows the demuxer keeps open (metadata and media data) lie
    /// inside `data`, the byte source it was decoded from.
    pub open spec fn tied(self, data: Seq<u8>) -> bool {
        self.movi.iobuff.wf() && self.movi.iobuff.data@ == data && (match self.info {
            Some(l) => l.iobuff.wf() && l.iobuff.data@ == data,
            None => true,
        })
    }

    /// Runs the AVI grammar over the first top-level block of `data`, per
    /// [`spec_demux`]: the returned aggregate, or the exact failure, is
    /// determined by the underlying bytes.
    #[verifier::loop_isolation(false)]
    pub fn from_riff(data: &'a Riff) -> (r: AVIResult<Demuxer<'a>>)
        ensures
            ({
                let sres = spec_demux(data.data@);
                match r {
                    Ok(dm) => sres == Ok::<DemuxerV, AVIError>(dm@) && dm.tied(data.data@),
                    Err(e) => sres == Err::<DemuxerV, AVIError>(e),
                }
            }),
    {
        let ghost dv = data.data@;
        let mut it = data.iter();
        let first = it.next();
        let lst = match first {
            None => {
                return Err(AVIError::FormatError { rule: FormatRule::TopLevelMissing });
            },
            Some(Err(e)) => {
                return Err(avi_err(e));
            },
            Some(Ok(l)) => l,
        };
        if !(lst.fourcc() == fcc_avi()) {
            return Err(AVIError::FormatError { rule: FormatRule::NotAvi });
        }
        let ghost s0 = lst.iobuff.start as int;
        let ghost sz0 = lst.iobuff.size as int;
        let mut itc = lst.iter();
        let mut header: Option<MainHeader> = None;
        let mut streams: Vec<RawStream> = Vec::new();
        let mut info: Option<List<'a>> = None;
        let mut movi: Option<List<'a>> = None;
        let mut idx1: Option<Vec<IndexEntry>> = None;
        proof {
            assert(views_of(streams@) =~= Seq::<RawStreamV>::empty());
        }
        loop
            invariant
                itc.iobuff.wf(),
                itc.iobuff.pos <= itc.iobuff.size,
                itc.iobuff.data@ == dv,
                itc.iobuff.start == s0,
                itc.iobuff.size == sz0,
                (match info {
                    Some(l) => l.iobuff.wf() && l.iobuff.data@ == dv,
                    None => true,
                }),
                (match movi {
                    Some(l) => l.iobuff.wf() && l.iobuff.data@ == dv,
                    None => true,
                }),
                spec_demux_from(dv, s0, sz0, itc.iobuff.pos as int, dst_of(header, streams@, info, movi, idx1))
                    == spec_demux(dv),
            decreases sz0 - itc.iobuff.pos,
        {
            let ghost p = itc.iobuff.pos as int;
            let ghost st_pre = dst_of(header, streams@, info, movi, idx1);
            let step = itc.next();
            let node = match step {
                None => { break ; },
                Some(Err(e)) => {
                    return Err(avi_err(e));
                },
                Some(Ok(n)) => n,
            };
            proof {
                lemma_list_step_bounds(dv, s0, sz0, p);
            }
            let fcc = node.fourcc();
            if fcc == fcc_hdrl() {
                let hl = match node {
                    Node::List(l) => l,
                    Node::Chunk(_) => {
                        return Err(AVIError::FormatError { rule: FormatRule::HdrlNotList });
                    },
                };
                let ghost hoff = hl.iobuff.start as int;
                let ghost hsz = hl.iobuff.size as int;
                let mut hit = hl.iter();
                let ghost h_entry = header;
                let ghost ss_entry = views_of(streams@);
                loop
                    invariant
                        hit.iobuff.wf(),
                        hit.iobuff.pos <= hit.iobuff.size,
                        hit.iobuff.data@ == dv,
                        hit.iobuff.start == hoff,
                        hit.iobuff.size == hsz,
                        spec_hdrl_from(dv, hoff, hsz, hit.iobuff.pos as int, header, views_of(streams@))
                            == spec_hdrl_from(dv, hoff, hsz, 0, h_entry, ss_entry),
                    decreases hsz - hit.iobuff.pos,
                {
                    let ghost hp = hit.iobuff.pos as int;
                    let ghost hh_pre = header;
                    let ghost hss_pre = views_of(streams@);
                    let hstep = hit.next();
                    let hnode = match hstep {
                        None => { break ; },
                        Some(Err(e)) => {
                            return Err(avi_err(e));
                        },
                        Some(Ok(n)) => n,
                    };
                    proof {
                        lemma_list_step_bounds(dv, hoff, hsz, hp);
                    }
                    let hfcc = hnode.fourcc();
                    if hfcc == fcc_avih() {
                        if header.is_some() {
                            return Err(AVIError::FormatError { rule: FormatRule::AvihDuplicate });
                        }
                        let hc = match hnode {
                            Node::Chunk(c) => c,
                            Node::List(_) => {
                                return Err(
                                    AVIError::FormatError { rule: FormatRule::AvihNotChunk },
                                );
                            },
                        };
                        let mut rd = hc.read();
                        let mh = match MainHeader::deser(&mut rd) {
                            Ok(h) => h,
                            Err(e) => {
                                return Err(avi_err(e));
                            },
                        };
                        header = Some(mh);
                    } else if hfcc == fcc_strl() {
                        let sl = match hnode {
                            Node::List(l) => l,
                            Node::Chunk(_) => {
                                return Err(AVIError::FormatError { rule: FormatRule::StrlNotList });
                            },
                        };
                        let rs = match RawStream::from_riff(&sl) {
                            Ok(rs) => rs,
                            Err(e) => {
                                return Err(e);
                            },
                        };
                        proof {
                            crate::demuxer::stream::lemma_views_push(streams@, rs);
                        }
                        streams.push(rs);
                    } else if hfcc == fcc_junk() {
                        // padding: skipped
                    } else {
                        return Err(AVIError::UnknownFCC(hfcc));
                    }
                    proof {
                        assert(spec_hdrl_from(dv, hoff, hsz, hp, hh_pre, hss_pre)
                            == spec_hdrl_from(
                            dv,
                            hoff,
                            hsz,
                            hit.iobuff.pos as int,
                            header,
                            views_of(streams@),
                        ));
                    }
                }
                proof {
                    assert(spec_demux_from(dv, s0, sz0, p, st_pre) == spec_demux_from(
                        dv,
                        s0,
                        sz0,
                        itc.iobuff.pos as int,
                        dst_of(header, streams@, info, movi, idx1),
                    ));
                }
            } else if fcc == fcc_info() {
                if info.is_some() {
                    return Err(AVIError::FormatError { rule: FormatRule::InfoDuplicate });
                }
                let l = match node {
                    Node::List(l) => l,
                    Node::Chunk(_) => {
                        return Err(AVIError::FormatError { rule: FormatRule::InfoNotList });
                    },
                };
                info = Some(l);
            } else if fcc == fcc_movi() {
                if movi.is_some() {
                    return Err(AVIError::FormatError { rule: FormatRule::MoviDuplicate });
                }
                let l = match node {
                    Node::List(l) => l,
                    Node::Chunk(_) => {
                        return Err(AVIError::FormatError { rule: FormatRule::MoviNotList });
                    },
                };
                movi = Some(l);
            } else if fcc == fcc_idx1() {
                if idx1.is_some() {
                    return Err(AVIError::FormatError { rule: FormatRule::Idx1Duplicate });
                }
                let c = match node {
                    Node::Chunk(c) => c,
                    Node::List(_) => {
                        return Err(AVIError::FormatError { rule: FormatRule::Idx1NotChunk });
                    },
                };
                let mut rd = c.read();
                let es = match IndexEntry::deser_seq(&mut rd) {
                    Ok(v) => v,
                    Err(e) => {
                        return Err(avi_err(e));
                    },
                };
                idx1 = Some(es);
            } else if fcc == fcc_junk() {
                // padding: skipped
            } else {
                return Err(AVIError::UnknownFCC(fcc));
            }
            proof {
                assert(spec_demux_from(dv, s0, sz0, p, st_pre) == spec_demux_from(
                    dv,
                    s0,
                    sz0,
                    itc.iobuff.pos as int,
                    dst_of(header, streams@, info, movi, idx1),
                ));
            }
        }
        let mh = match header {
            Some(h) => h,
            None => {
                return Err(AVIError::FormatError { rule: FormatRule::AvihMissing });
            },
        };
        if mh.streams as usize != streams.len() {
            return Err(AVIError::FormatError { rule: FormatRule::StreamCountMismatch });
        }
        let mv = match movi {
            Some(m) => m,
            None => {
                return Err(AVIError::FormatError { rule: FormatRule::MoviMissing });
            },
        };
        Ok(Demuxer { header: mh, streams, info, movi: mv, idx1 })
    }
}

} // verus!
