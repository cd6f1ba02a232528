use vstd::prelude::*;

use crate::data::{
    fcc_auds, fcc_indx, fcc_junk, fcc_strh, fcc_strl, fcc_strn, fcc_strf, fcc_vids, StreamHeader,
    WaveFormat, BITMAPINFOHEADER,
};
use crate::demuxer::index::{StreamIndex, StreamIndexV};
use crate::demuxer::{avi_err, spec_avi_err, AVIError, AVIResult, Format, FormatV, FormatRule};
use crate::riff::{lemma_list_step_bounds, list_step, List, ListStep, Node};
use vstd::utf8::{decode_utf8, valid_utf8};

verus! {

/// One demuxed stream: its fixed header, its format descriptor, and the
/// optional display name and per-stream index.
#[derive(Clone, PartialEq, Eq, Debug)]
pub struct RawStream {
    pub header: StreamHeader,
    pub format: Format,
    pub name: Option<String>,
    pub index: Option<StreamIndex>,
}

/// Mathematical value of a [`RawStream`].
pub struct RawStreamV {
    pub header: StreamHeader,
    pub format: FormatV,
    pub name: Option<Seq<char>>,
    pub index: Option<StreamIndexV>,
}

impl View for RawStream {
    type V = RawStreamV;

    open spec fn view(&self) -> RawStreamV {
        RawStreamV {
            header: self.header,
            format: self.format@,
            name: match self.name {
                Some(s) => Some(s@),
                None => None,
            },
            index: match self.index {
                Some(i) => Some(i@),
                None => None,
            },
        }
    }
}

/// The values of a sequence of streams.
pub open spec fn views_of(s: Seq<RawStream>) -> Seq<RawStreamV> {
    s.map_values(|r: RawStream| r@)
}

/// What a pass over a stream description list has gathered so far.
pub struct StreamState {
    pub header: Option<StreamHeader>,
    pub format: Option<FormatV>,
    pub name: Option<Seq<char>>,
    pub index: Option<StreamIndexV>,
}

/// Nothing gathered yet.
pub open spec fn spec_stream_init() -> StreamState {
    StreamState { header: None, format: None, name: None, index: None }
}

/// The state of an exec pass.
pub open spec fn st_of(
    header: Option<StreamHeader>,
    format: Option<Format>,
    name: Option<String>,
    index: Option<StreamIndex>,
) -> StreamState {
    StreamState {
        header,
        format: match format {
            Some(f) => Some(f@),
            None => None,
        },
        name: match name {
            Some(s) => Some(s@),
            None => None,
        },
        index: match index {
            Some(i) => Some(i@),
            None => None,
        },
    }
}

/// What a finished pass yields: the mandatory header and format, or the
/// error for whichever is missing (header first, as the walk reports it).
pub open spec fn spec_stream_finish(st: StreamState) -> Result<RawStreamV, AVIError> {
    match st.header {
        None => Err(AVIError::FormatError { rule: FormatRule::StrhMissing }),
        Some(h) => match st.format {
            None => Err(AVIError::FormatError { rule: FormatRule::StrfMissing }),
            Some(f) => Ok(RawStreamV { header: h, format: f, name: st.name, index: st.index }),
        },
    }
}

/// The walk over a stream description list's children from window offset
/// `p` with state `st`: every child must be a chunk; `strh` and `strf` are
/// mandatory and unique, `strn` and `indx` optional and unique, `JUNK` is
/// skipped, and anything else is an unknown tag.  `strf`'s meaning depends
/// on the already-seen stream type, so `strf` before `strh` is an error.
pub open spec fn spec_stream_from(
    data: Seq<u8>,
    start: int,
    size: int,
    p: int,
    st: StreamState,
) -> Result<RawStreamV, AVIError>
    decreases size - p,
{
    match list_step(data, start, size, p) {
        ListStep::End => spec_stream_finish(st),
        ListStep::Fail => Err(AVIError::FormatError { rule: FormatRule::Truncated }),
        ListStep::Item { is_list, fcc, off, len, next } => {
            if !(p < next && next <= size) {
                Err(AVIError::FormatError { rule: FormatRule::Truncated })
            } else if is_list {
                Err(AVIError::FormatError { rule: FormatRule::StreamChildNotChunk })
            } else if fcc == fcc_strh() {
                if st.header is Some {
                    Err(AVIError::FormatError { rule: FormatRule::StrhDuplicate })
                } else if len < 56 {
                    Err(AVIError::FormatError { rule: FormatRule::Truncated })
                } else {
                    spec_stream_from(
                        data,
                        start,
                        size,
                        next,
                        StreamState {
                            header: Some(StreamHeader::spec_decode(data, off)),
                            format: st.format,
                            name: st.name,
                            index: st.index,
                        },
                    )
                }
            } else if fcc == fcc_strf() {
                if st.format is Some {
                    Err(AVIError::FormatError { rule: FormatRule::StrfDuplicate })
                } else {
                    match st.header {
                        None => Err(AVIError::FormatError { rule: FormatRule::StrfBeforeStrh }),
                        Some(h) => {
                            if h.fcc_type == fcc_vids() {
                                if len < 40 {
                                    Err(AVIError::FormatError { rule: FormatRule::Truncated })
                                } else {
                                    spec_stream_from(
                                        data,
                                        start,
                                        size,
                                        next,
                                        StreamState {
                                            header: st.header,
                                            format: Some(
                                                FormatV::Video(
                                                    BITMAPINFOHEADER::spec_decode(data, off),
                                                ),
                                            ),
                                            name: st.name,
                                            index: st.index,
                                        },
                                    )
                                }
                            } else if h.fcc_type == fcc_auds() {
                                match WaveFormat::spec_decode(data, off, off + len) {
                                    Ok(w) => spec_stream_from(
                                        data,
                                        start,
                                        size,
                                        next,
                                        StreamState {
                                            header: st.header,
                                            format: Some(FormatV::Audio(w)),
                                            name: st.name,
                                            index: st.index,
                                        },
                                    ),
                                    Err(e) => Err(spec_avi_err(e)),
                                }
                            } else if h.fcc_type == fcc_junk() {
                                spec_stream_from(data, start, size, next, st)
                            } else {
                                Err(AVIError::UnknownFCC(h.fcc_type))
                            }
                        },
                    }
                }
            } else if fcc == fcc_strn() {
                if st.name is Some {
                    Err(AVIError::FormatError { rule: FormatRule::StrnDuplicate })
                } else {
                    let bytes = data.subrange(off, off + len);
                    if !valid_utf8(bytes) {
                        Err(AVIError::FormatError { rule: FormatRule::StrnNotText })
                    } else {
                        spec_stream_from(
                            data,
                            start,
                            size,
                            next,
                            StreamState {
                                header: st.header,
                                format: st.format,
                                name: Some(decode_utf8(bytes)),
                                index: st.index,
                            },
                        )
                    }
                }
            } else if fcc == fcc_indx() {
                if st.index is Some {
                    Err(AVIError::FormatError { rule: FormatRule::IndxDuplicate })
                } else {
                    match StreamIndex::spec_from(data, off, off + len) {
                        Ok(si) => spec_stream_from(
                            data,
                            start,
                            size,
                            next,
                            StreamState {
                                header: st.header,
                                format: st.format,
                                name: st.name,
                                index: Some(si),
                            },
                        ),
                        Err(e) => Err(e),
                    }
                }
            } else if fcc == fcc_junk() {
                spec_stream_from(data, start, size, next, st)
            } else {
                Err(AVIError::UnknownFCC(fcc))
            }
        },
    }
}

/// One stream decoded from a whole `strl` list (whose tag must be `strl`).
pub open spec fn spec_stream(data: Seq<u8>, fcc: crate::fourcc::FourCC, start: int, size: int) -> Result<
    RawStreamV,
    AVIError,
> {
    if fcc != fcc_strl() {
        Err(AVIError::FormatError { rule: FormatRule::NotStrl })
    } else {
        spec_stream_from(data, start, size, 0, spec_stream_init())
    }
}

/// Relies on `String::from_utf8`: it succeeds exactly on valid UTF-8 input
/// and then yields precisely the decoded characters, consuming the buffer.
#[verifier::external_body]
fn bytes_to_text(v: Vec<u8>) -> (r: Option<String>)
    ensures
        match r {
            Some(s) => valid_utf8(v@) && s@ == decode_utf8(v@),
            None => !valid_utf8(v@),
        },
{
    match String::from_utf8(v) {
        Ok(s) => Some(s),
        Err(_) => None,
    }
}

impl RawStream {
    /// Walks one `strl` list and assembles the stream, per
    /// [`spec_stream`]: exactly what it returns, success and each failure
    /// alike, is determined by the list's bytes.
    #[verifier::loop_isolation(false)]
    pub fn from_riff<'a>(list: &List<'a>) -> (r: AVIResult<RawStream>)
        requires
            list.iobuff.wf(),
        ensures
            ({
                let sres = spec_stream(
                    list.iobuff.data@,
                    list.fcc,
                    list.iobuff.start as int,
                    list.iobuff.size as int,
                );
                match r {
                    Ok(rs) => sres == Ok::<RawStreamV, AVIError>(rs@),
                    Err(e) => sres == Err::<RawStreamV, AVIError>(e),
                }
            }),
    {
        let ghost d = list.iobuff.data@;
        let ghost s0 = list.iobuff.start as int;
        let ghost sz0 = list.iobuff.size as int;
        if !(list.fourcc() == fcc_strl()) {
            return Err(AVIError::FormatError { rule: FormatRule::NotStrl });
        }
        let mut it = list.iter();
        let mut header: Option<StreamHeader> = None;
        let mut format: Option<Format> = None;
        let mut name: Option<String> = None;
        let mut index: Option<StreamIndex> = None;
        loop
            invariant
                it.iobuff.wf(),
                it.iobuff.pos <= it.iobuff.size,
                it.iobuff.data@ == d,
                it.iobuff.start == s0,
                it.iobuff.size == sz0,
                spec_stream_from(d, s0, sz0, it.iobuff.pos as int, st_of(header, format, name, index))
                    == spec_stream_from(d, s0, sz0, 0, spec_stream_init()),
            decreases sz0 - it.iobuff.pos,
        {
            let ghost p = it.iobuff.pos as int;
            let ghost st_pre = st_of(header, format, name, index);
            let step = it.next();
            let node = match step {
                None => { break ; },
                Some(Err(e)) => {
                    return Err(avi_err(e));
                },
                Some(Ok(n)) => n,
            };
            proof {
                lemma_list_step_bounds(d, s0, sz0, p);
            }
            let c = match node {
                Node::Chunk(c) => c,
                Node::List(_) => {
                    return Err(AVIError::FormatError { rule: FormatRule::StreamChildNotChunk });
                },
            };
            let fcc = c.fourcc();
            if fcc == fcc_strh() {
                if header.is_some() {
                    return Err(AVIError::FormatError { rule: FormatRule::StrhDuplicate });
                }
                let mut rd = c.read();
                let h = match StreamHeader::deser(&mut rd) {
                    Ok(h) => h,
                    Err(e) => {
                        return Err(avi_err(e));
                    },
                };
                header = Some(h);
            } else if fcc == fcc_strf() {
                if format.is_some() {
                    return Err(AVIError::FormatError { rule: FormatRule::StrfDuplicate });
                }
                let h = match header {
                    Some(h) => h,
                    None => {
                        return Err(AVIError::FormatError { rule: FormatRule::StrfBeforeStrh });
                    },
                };
                if h.fcc_type == fcc_vids() {
                    let mut rd = c.read();
                    let b = match BITMAPINFOHEADER::deser(&mut rd) {
                        Ok(b) => b,
                        Err(e) => {
                            return Err(avi_err(e));
                        },
                    };
                    format = Some(Format::Video(b));
                } else if h.fcc_type == fcc_auds() {
                    let mut rd = c.read();
                    let w = match WaveFormat::deser(&mut rd) {
                        Ok(w) => w,
                        Err(e) => {
                            return Err(avi_err(e));
                        },
                    };
                    format = Some(Format::Audio(w));
                } else if h.fcc_type == fcc_junk() {
                    // a padding type tag: this strf is skipped
                } else {
                    return Err(AVIError::UnknownFCC(h.fcc_type));
                }
            } else if fcc == fcc_strn() {
                if name.is_some() {
                    return Err(AVIError::FormatError { rule: FormatRule::StrnDuplicate });
                }
                let mut rd = c.read();
                let n = c.size();
                let bytes = rd.read(n as usize);
                match bytes_to_text(bytes) {
                    Some(s) => {
                        name = Some(s);
                    },
                    None => {
                        return Err(AVIError::FormatError { rule: FormatRule::StrnNotText });
                    },
                }
            } else if fcc == fcc_indx() {
                if index.is_some() {
                    return Err(AVIError::FormatError { rule: FormatRule::IndxDuplicate });
                }
                let si = match StreamIndex::from_riff(&c) {
                    Ok(si) => si,
                    Err(e) => {
                        return Err(e);
                    },
                };
                index = Some(si);
            } else if fcc == fcc_junk() {
                // padding: skipped
            } else {
                return Err(AVIError::UnknownFCC(fcc));
            }
            proof {
                assert(spec_stream_from(d, s0, sz0, p, st_pre) == spec_stream_from(
                    d,
                    s0,
                    sz0,
                    it.iobuff.pos as int,
                    st_of(header, format, name, index),
                ));
            }
        }
        let h = match header {
            Some(h) => h,
            None => {
                return Err(AVIError::FormatError { rule: FormatRule::StrhMissing });
            },
        };
        let f = match format {
            Some(f) => f,
            None => {
                return Err(AVIError::FormatError { rule: FormatRule::StrfMissing });
            },
        };
        Ok(RawStream { header: h, format: f, name, index })
    }
}

/// Appending one stream appends its value.
pub proof fn lemma_views_push(s: Seq<RawStream>, r: RawStream)
    ensures
        views_of(s.push(r)) == views_of(s).push(r@),
{
    assert(views_of(s.push(r)) =~= views_of(s).push(r@));
}

} // verus!
