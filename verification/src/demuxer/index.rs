use vstd::prelude::*;

use crate::data::{
    StreamIndexEntry, StreamIndexHeader, SuperIndexEntry, SuperIndexHeader, AVI_INDEX_2FIELD,
    AVI_INDEX_OF_INDEXES,
};
use crate::demuxer::{spec_avi_err, avi_err, AVIError, AVIResult, FormatRule};
use crate::riff::Chunk;

verus! {

/// A per-stream sample index (`indx`): its header plus the entries filling
/// the rest of the chunk.
#[derive(Clone, PartialEq, Eq, Debug)]
pub struct StreamIndex {
    pub header: StreamIndexHeader,
    pub entries: Vec<StreamIndexEntry>,
}

/// Mathematical value of a [`StreamIndex`].
pub struct StreamIndexV {
    pub header: StreamIndexHeader,
    pub entries: Seq<StreamIndexEntry>,
}

impl View for StreamIndex {
    type V = StreamIndexV;

    open spec fn view(&self) -> StreamIndexV {
        StreamIndexV { header: self.header, entries: self.entries@ }
    }
}

impl StreamIndex {
    /// The index stored at `data[i..end)`: a 32-byte header whose
    /// `longs_per_entry` must name this library's entry size, then entries
    /// until the end of the range.
    pub open spec fn spec_from(data: Seq<u8>, i: int, end: int) -> Result<StreamIndexV, AVIError> {
        if end - i < 32 {
            Err(AVIError::FormatError { rule: FormatRule::Truncated })
        } else {
            let h = StreamIndexHeader::spec_decode(data, i);
            if h.longs_per_entry != 1 {
                Err(AVIError::FormatError { rule: FormatRule::IndexEntrySizeMismatch })
            } else {
                match StreamIndexEntry::spec_decode_seq(data, i + 32, end) {
                    Ok(es) => Ok(StreamIndexV { header: h, entries: es }),
                    Err(e) => Err(spec_avi_err(e)),
                }
            }
        }
    }

    /// The entry at position `id`, if there is one.
    pub fn entry(&self, id: usize) -> (r: Option<&StreamIndexEntry>)
        ensures
            match r {
                Some(e) => id < self.entries@.len() && *e == self.entries@[id as int],
                None => id >= self.entries@.len(),
            },
    {
        if id < self.entries.len() {
            Some(&self.entries[id])
        } else {
            None
        }
    }

    /// Decodes a whole `indx` chunk, per [`StreamIndex::spec_from`].
    pub fn from_riff<'a>(chunk: &Chunk<'a>) -> (r: AVIResult<StreamIndex>)
        requires
            chunk.iobuff.wf(),
        ensures
            ({
                let sres = StreamIndex::spec_from(
                    chunk.iobuff.data@,
                    chunk.iobuff.start as int,
                    chunk.iobuff.start + chunk.iobuff.size,
                );
                match r {
                    Ok(si) => sres == Ok::<StreamIndexV, AVIError>(si@),
                    Err(e) => sres == Err::<StreamIndexV, AVIError>(e),
                }
            }),
    {
        let mut read = chunk.read();
        let header = match StreamIndexHeader::deser(&mut read) {
            Ok(h) => h,
            Err(e) => {
                return Err(avi_err(e));
            },
        };
        if header.longs_per_entry as usize * 4 != 4 {
            return Err(AVIError::FormatError { rule: FormatRule::IndexEntrySizeMismatch });
        }
        let entries = match StreamIndexEntry::deser_seq(&mut read) {
            Ok(v) => v,
            Err(e) => {
                return Err(avi_err(e));
            },
        };
        Ok(StreamIndex { header, entries })
    }
}

/// An index of indexes: the top level of the two-level index layout, whose
/// entries each locate a secondary index block.
#[derive(Clone, PartialEq, Eq, Debug)]
pub struct SuperIndex {
    pub header: SuperIndexHeader,
    pub entries: Vec<SuperIndexEntry>,
}

/// Mathematical value of a [`SuperIndex`].
pub struct SuperIndexV {
    pub header: SuperIndexHeader,
    pub entries: Seq<SuperIndexEntry>,
}

impl View for SuperIndex {
    type V = SuperIndexV;

    open spec fn view(&self) -> SuperIndexV {
        SuperIndexV { header: self.header, entries: self.entries@ }
    }
}

impl SuperIndex {
    /// The super index stored at `data[i..end)`.  The header must name this
    /// library's entry size and a known sub-type; a recognized index type
    /// other than index-of-indexes is well-formed but unimplemented.
    pub open spec fn spec_from(data: Seq<u8>, i: int, end: int) -> Result<SuperIndexV, AVIError> {
        if end - i < 32 {
            Err(AVIError::FormatError { rule: FormatRule::Truncated })
        } else {
            let h = SuperIndexHeader::spec_decode(data, i);
            if h.longs_per_entry != 4 {
                Err(AVIError::FormatError { rule: FormatRule::IndexEntrySizeMismatch })
            } else if h.index_sub_type != 0 && h.index_sub_type != AVI_INDEX_2FIELD {
                Err(AVIError::FormatError { rule: FormatRule::IndexSubTypeUnknown })
            } else if h.index_type != AVI_INDEX_OF_INDEXES {
                Err(AVIError::Unimplemented { index_type: h.index_type })
            } else {
                match SuperIndexEntry::spec_decode_seq(data, i + 32, end) {
                    Ok(es) => Ok(SuperIndexV { header: h, entries: es }),
                    Err(e) => Err(spec_avi_err(e)),
                }
            }
        }
    }

    /// The entry at position `id`, if there is one.
    pub fn entry(&self, id: usize) -> (r: Option<&SuperIndexEntry>)
        ensures
            match r {
                Some(e) => id < self.entries@.len() && *e == self.entries@[id as int],
                None => id >= self.entries@.len(),
            },
    {
        if id < self.entries.len() {
            Some(&self.entries[id])
        } else {
            None
        }
    }

    /// Decodes a whole super-index chunk, per [`SuperIndex::spec_from`].
    pub fn from_riff<'a>(chunk: &Chunk<'a>) -> (r: AVIResult<SuperIndex>)
        requires
            chunk.iobuff.wf(),
        ensures
            ({
                let sres = SuperIndex::spec_from(
                    chunk.iobuff.data@,
                    chunk.iobuff.start as int,
                    chunk.iobuff.start + chunk.iobuff.size,
                );
                match r {
                    Ok(si) => sres == Ok::<SuperIndexV, AVIError>(si@),
                    Err(e) => sres == Err::<SuperIndexV, AVIError>(e),
                }
            }),
    {
        let mut read = chunk.read();
        let header = match SuperIndexHeader::deser(&mut read) {
            Ok(h) => h,
            Err(e) => {
                return Err(avi_err(e));
            },
        };
        if header.longs_per_entry as usize * 4 != 16 {
            return Err(AVIError::FormatError { rule: FormatRule::IndexEntrySizeMismatch });
        }
        if header.index_sub_type != 0 && header.index_sub_type != AVI_INDEX_2FIELD {
            return Err(AVIError::FormatError { rule: FormatRule::IndexSubTypeUnknown });
        }
        if header.index_type != AVI_INDEX_OF_INDEXES {
            return Err(AVIError::Unimplemented { index_type: header.index_type });
        }
        let entries = match SuperIndexEntry::deser_seq(&mut read) {
            Ok(v) => v,
            Err(e) => {
                return Err(avi_err(e));
            },
        };
        Ok(SuperIndex { header, entries })
    }
}

} // verus!
