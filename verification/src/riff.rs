use vstd::prelude::*;

use crate::fourcc::FourCC;

verus! {

/// Tag that marks a nested container node.
pub open spec fn spec_list_tag() -> FourCC {
    FourCC(0x4c, 0x49, 0x53, 0x54)
}

#[verifier::when_used_as_spec(spec_list_tag)]
pub fn list_tag() -> (r: FourCC)
    ensures
        r == spec_list_tag(),
{
    FourCC(0x4c, 0x49, 0x53, 0x54)
}

/// Tag that marks a top-level RIFF block.
pub open spec fn spec_riff_tag() -> FourCC {
    FourCC(0x52, 0x49, 0x46, 0x46)
}

#[verifier::when_used_as_spec(spec_riff_tag)]
pub fn riff_tag() -> (r: FourCC)
    ensures
        r == spec_riff_tag(),
{
    FourCC(0x52, 0x49, 0x46, 0x46)
}

/// Failures the container layer itself can produce.  I/O is outside this
/// library: the whole byte source is held in memory, so the only failures are
/// structural.
#[derive(Clone, Copy, PartialEq, Eq, Structural, Debug)]
pub enum RiffError {
    /// A declared size overruns the bytes that remain, or a record was cut
    /// short of its fixed layout.
    Truncated,
    /// A seek tried to land before the start of a window, or past `u64::MAX`.
    InvalidSeek,
}

/// Addressing modes for [`IOBuffer::seek`].
#[derive(Clone, Copy, PartialEq, Eq, Structural, Debug)]
pub enum SeekFrom {
    Start(u64),
    Current(i64),
    End(i64),
}

/// The little-endian 16-bit value stored at `data[i..i+2]`.
pub open spec fn le16(data: Seq<u8>, i: int) -> u16
    recommends
        0 <= i,
        i + 2 <= data.len(),
{
    (data[i] + data[i + 1] * 0x100) as u16
}

/// The little-endian 32-bit value stored at `data[i..i+4]`.
pub open spec fn le32(data: Seq<u8>, i: int) -> u32
    recommends
        0 <= i,
        i + 4 <= data.len(),
{
    (data[i] + data[i + 1] * 0x100 + data[i + 2] * 0x10000 + data[i + 3] * 0x1000000) as u32
}

/// The little-endian 64-bit value stored at `data[i..i+8]`.
pub open spec fn le64(data: Seq<u8>, i: int) -> u64
    recommends
        0 <= i,
        i + 8 <= data.len(),
{
    (le32(data, i) + le32(data, i + 4) * 0x100000000) as u64
}

/// The four-character tag stored at `data[i..i+4]`.
pub open spec fn fcc_at(data: Seq<u8>, i: int) -> FourCC
    recommends
        0 <= i,
        i + 4 <= data.len(),
{
    FourCC(data[i], data[i + 1], data[i + 2], data[i + 3])
}

/// A bounded, seekable window over the shared underlying byte source.
/// `start` is an absolute offset into the source, `pos` is relative to
/// `start`, and `size` is the window's length.  Reads are clamped to
/// `[0, size)`; a cursor past `size` simply reads nothing.
#[derive(Clone, Copy, Debug)]
pub struct IOBuffer<'a> {
    pub data: &'a Vec<u8>,
    pub start: u64,
    pub pos: u64,
    pub size: u64,
}

impl<'a> IOBuffer<'a> {
    /// The window lies inside the underlying source (whose length, held in a
    /// `usize`, bounds every offset).
    pub open spec fn wf(self) -> bool {
        self.start + self.size <= self.data@.len() && self.start + self.size <= usize::MAX
    }

    /// Bytes still readable before the window's end.
    pub open spec fn left(self) -> int {
        if self.pos <= self.size {
            self.size - self.pos
        } else {
            0
        }
    }

    /// The cursor clamped to the window, as an offset from `start`.
    pub open spec fn cur(self) -> int {
        if self.pos <= self.size {
            self.pos as int
        } else {
            self.size as int
        }
    }

    /// `other` is the same window over the same source, cursor aside.
    pub open spec fn same_window(self, other: IOBuffer<'a>) -> bool {
        self.data == other.data && self.start == other.start && self.size == other.size
    }

    pub fn new(data: &'a Vec<u8>, start: u64, size: u64) -> (r: IOBuffer<'a>)
        requires
            start + size <= data@.len(),
            start + size <= usize::MAX,
        ensures
            r.data == data,
            r.start == start,
            r.pos == 0,
            r.size == size,
    {
        IOBuffer { data, start, pos: 0, size }
    }

    pub fn amount_left(&self) -> (r: u64)
        ensures
            r == self.left(),
    {
        self.size - (if self.pos < self.size {
            self.pos
        } else {
            self.size
        })
    }

    /// A child window of exactly `size` bytes starting at the current cursor.
    /// The parent's cursor is left alone; the caller advances it afterwards.
    pub fn take_slice(&self, size: u64) -> (r: Result<IOBuffer<'a>, RiffError>)
        requires
            self.wf(),
        ensures
            match r {
                Ok(c) => size <= self.left() && c.data == self.data && c.start == self.start
                    + self.cur() && c.pos == 0 && c.size == size && c.wf(),
                Err(e) => e == RiffError::Truncated && size > self.left(),
            },
    {
        let left = self.amount_left();
        if size > left {
            Err(RiffError::Truncated)
        } else {
            let p = if self.pos < self.size {
                self.pos
            } else {
                self.size
            };
            Ok(IOBuffer { data: self.data, start: self.start + p, pos: 0, size })
        }
    }

    /// Copies `min(n, remaining)` bytes at the cursor and advances past them.
    /// An empty result is the canonical end-of-range signal.
    pub fn read(&mut self, n: usize) -> (r: Vec<u8>)
        requires
            old(self).wf(),
        ensures
            final(self).same_window(*old(self)),
            ({
                let take = if n as int <= old(self).left() {
                    n as int
                } else {
                    old(self).left()
                };
                r@.len() == take && final(self).pos == old(self).pos + take && r@ == old(
                    self,
                ).data@.subrange(
                    old(self).start + old(self).cur(),
                    old(self).start + old(self).cur() + take,
                )
            }),
    {
        let left = self.amount_left();
        let take: u64 = if (n as u64) < left {
            n as u64
        } else {
            left
        };
        let base: u64 = self.start + (if self.pos < self.size {
            self.pos
        } else {
            self.size
        });
        let ghost s0 = *self;
        let mut out: Vec<u8> = Vec::new();
        let mut i: u64 = 0;
        while i < take
            invariant
                *self == s0,
                self.wf(),
                take <= s0.left(),
                base == s0.start + s0.cur(),
                i <= take,
                out@.len() == i,
                out@ == s0.data@.subrange(base as int, base + i),
            decreases take - i,
        {
            out.push(self.data[(base + i) as usize]);
            i += 1;
            proof {
                assert(out@ =~= s0.data@.subrange(base as int, base + i));
            }
        }
        self.pos = self.pos + take;
        out
    }

    /// Moves the cursor.  Landing past the window's end is allowed (reads
    /// then return nothing); landing below zero, or past `u64::MAX`, fails.
    pub fn seek(&mut self, target: SeekFrom) -> (r: Result<u64, RiffError>)
        ensures
            final(self).same_window(*old(self)),
            ({
                let t: int = match target {
                    SeekFrom::Start(p) => p as int,
                    SeekFrom::Current(o) => old(self).pos + o,
                    SeekFrom::End(o) => old(self).size + o,
                };
                if 0 <= t && t <= u64::MAX {
                    r == Ok::<u64, RiffError>(t as u64) && final(self).pos == t
                } else {
                    r == Err::<u64, RiffError>(RiffError::InvalidSeek) && final(self).pos == old(
                        self,
                    ).pos
                }
            }),
    {
        let t: Result<u64, RiffError> = match target {
            SeekFrom::Start(p) => Ok(p),
            SeekFrom::Current(o) => {
                if o >= 0 {
                    let ou = o as u64;
                    if self.pos <= u64::MAX - ou {
                        Ok(self.pos + ou)
                    } else {
                        Err(RiffError::InvalidSeek)
                    }
                } else {
                    let mag = ((-(o + 1)) as u64) + 1;
                    if mag > self.pos {
                        Err(RiffError::InvalidSeek)
                    } else {
                        Ok(self.pos - mag)
                    }
                }
            },
            SeekFrom::End(o) => {
                if o >= 0 {
                    let ou = o as u64;
                    if self.size <= u64::MAX - ou {
                        Ok(self.size + ou)
                    } else {
                        Err(RiffError::InvalidSeek)
                    }
                } else {
                    let mag = ((-(o + 1)) as u64) + 1;
                    if mag > self.size {
                        Err(RiffError::InvalidSeek)
                    } else {
                        Ok(self.size - mag)
                    }
                }
            },
        };
        match t {
            Ok(p) => {
                self.pos = p;
                Ok(p)
            },
            Err(e) => Err(e),
        }
    }

    /// The byte at window offset `off`.
    pub(crate) fn u8_at(&self, off: u64) -> (r: u8)
        requires
            self.wf(),
            off < self.size,
        ensures
            r == self.data@[self.start + off],
    {
        self.data[(self.start + off) as usize]
    }

    /// The little-endian 16-bit value at window offset `off`.
    pub(crate) fn u16_at(&self, off: u64) -> (r: u16)
        requires
            self.wf(),
            off + 2 <= self.size,
        ensures
            r == le16(self.data@, self.start + off),
    {
        let b0 = self.u8_at(off) as u16;
        let b1 = self.u8_at(off + 1) as u16;
        b0 + b1 * 0x100
    }

    /// The little-endian 32-bit value at window offset `off`.
    pub(crate) fn u32_at(&self, off: u64) -> (r: u32)
        requires
            self.wf(),
            off + 4 <= self.size,
        ensures
            r == le32(self.data@, self.start + off),
    {
        let b0 = self.u8_at(off) as u32;
        let b1 = self.u8_at(off + 1) as u32;
        let b2 = self.u8_at(off + 2) as u32;
        let b3 = self.u8_at(off + 3) as u32;
        b0 + b1 * 0x100 + b2 * 0x10000 + b3 * 0x1000000
    }

    /// The little-endian 64-bit value at window offset `off`.
    pub(crate) fn u64_at(&self, off: u64) -> (r: u64)
        requires
            self.wf(),
            off + 8 <= self.size,
        ensures
            r == le64(self.data@, self.start + off),
    {
        let lo = self.u32_at(off) as u64;
        let hi = self.u32_at(off + 4) as u64;
        lo + hi * 0x100000000
    }

    /// The four-character tag at window offset `off`.
    pub(crate) fn fourcc_at(&self, off: u64) -> (r: FourCC)
        requires
            self.wf(),
            off + 4 <= self.size,
        ensures
            r == fcc_at(self.data@, self.start + off),
    {
        FourCC(self.u8_at(off), self.u8_at(off + 1), self.u8_at(off + 2), self.u8_at(off + 3))
    }
}

/// One step of sibling iteration inside a window `[start, start+size)` of
/// `data`, with the cursor at window offset `p`.  `off` and `len` bound the
/// child's payload window (`off` absolute in `data`); `next` is the cursor's
/// window offset after skipping the declared bytes and any pad byte.
pub enum ListStep {
    /// Too few bytes remain for another header: the sequence ends here.
    End,
    /// A header was present but its declared size cannot fit: truncation.
    Fail,
    Item { is_list: bool, fcc: FourCC, off: int, len: int, next: int },
}

/// Child discovery inside a list window, mirroring the RIFF grammar: a
/// `LIST` tag introduces a container (size covers the inner tag plus
/// contents), any other tag a chunk (size covers the payload alone), and
/// sibling advance rounds the payload length up to an even byte count.
pub open spec fn list_step(data: Seq<u8>, start: int, size: int, p: int) -> ListStep {
    let left = if p <= size {
        size - p
    } else {
        0
    };
    if left < 4 {
        ListStep::End
    } else {
        let tag = fcc_at(data, start + p);
        if tag == list_tag() {
            if left < 12 {
                ListStep::End
            } else {
                let sz = le32(data, start + p + 4) as int;
                if sz < 4 {
                    ListStep::Fail
                } else if sz - 4 > size - (p + 12) {
                    ListStep::Fail
                } else {
                    let body = sz - 4;
                    let q = p + 12 + body;
                    ListStep::Item {
                        is_list: true,
                        fcc: fcc_at(data, start + p + 8),
                        off: start + p + 12,
                        len: body,
                        next: if body % 2 == 1 && q < size {
                            q + 1
                        } else {
                            q
                        },
                    }
                }
            }
        } else {
            if left < 8 {
                ListStep::End
            } else {
                let sz = le32(data, start + p + 4) as int;
                if sz > size - (p + 8) {
                    ListStep::Fail
                } else {
                    let q = p + 8 + sz;
                    ListStep::Item {
                        is_list: false,
                        fcc: tag,
                        off: start + p + 8,
                        len: sz,
                        next: if sz % 2 == 1 && q < size {
                            q + 1
                        } else {
                            q
                        },
                    }
                }
            }
        }
    }
}

/// Top-level discovery: only `RIFF`-tagged blocks are yielded; anything else
/// ends the iteration.  The declared size covers the inner tag plus payload,
/// exactly as for `LIST`.
pub open spec fn riff_step(data: Seq<u8>, size: int, p: int) -> ListStep {
    let left = if p <= size {
        size - p
    } else {
        0
    };
    if left < 12 {
        ListStep::End
    } else if fcc_at(data, p) != riff_tag() {
        ListStep::End
    } else {
        let sz = le32(data, p + 4) as int;
        if sz < 4 {
            ListStep::Fail
        } else if sz - 4 > size - (p + 12) {
            ListStep::Fail
        } else {
            let body = sz - 4;
            let q = p + 12 + body;
            ListStep::Item {
                is_list: true,
                fcc: fcc_at(data, p + 8),
                off: p + 12,
                len: body,
                next: if body % 2 == 1 && q < size {
                    q + 1
                } else {
                    q
                },
            }
        }
    }
}

/// The header facts of one discovered child, for stating iteration laws.
pub struct NodeV {
    pub is_list: bool,
    pub fcc: FourCC,
    pub start: int,
    pub size: int,
}

/// Every child of a list window, in file order, or the truncation failure
/// iteration runs into.
pub open spec fn list_children_from(data: Seq<u8>, start: int, size: int, p: int) -> Result<
    Seq<NodeV>,
    RiffError,
>
    decreases size - p,
{
    match list_step(data, start, size, p) {
        ListStep::End => Ok(Seq::empty()),
        ListStep::Fail => Err(RiffError::Truncated),
        ListStep::Item { is_list, fcc, off, len, next } => {
            if p < next && next <= size {
                match list_children_from(data, start, size, next) {
                    Ok(tail) => Ok(
                        seq![NodeV { is_list, fcc, start: off, size: len }] + tail,
                    ),
                    Err(e) => Err(e),
                }
            } else {
                Err(RiffError::Truncated)
            }
        },
    }
}

/// A container node: an inner tag plus the window spanning its children's
/// encoded bytes (the `LIST` header and inner tag already consumed).
#[derive(Clone, Copy, Debug)]
pub struct List<'a> {
    pub fcc: FourCC,
    pub iobuff: IOBuffer<'a>,
}

/// A leaf node: a tag plus the window spanning its raw payload bytes.
#[derive(Clone, Copy, Debug)]
pub struct Chunk<'a> {
    pub fcc: FourCC,
    pub iobuff: IOBuffer<'a>,
}

/// A child node is either a nested container or a leaf payload; which one is
/// decided structurally when its header is parsed.
#[derive(Clone, Copy, Debug)]
pub enum Node<'a> {
    List(List<'a>),
    Chunk(Chunk<'a>),
}

impl<'a> List<'a> {
    pub open spec fn wf(self) -> bool {
        self.iobuff.wf()
    }

    pub fn fourcc(&self) -> (r: FourCC)
        ensures
            r == self.fcc,
    {
        self.fcc
    }

    /// The declared size of this list's contents window.
    pub fn size(&self) -> (r: u64)
        ensures
            r == self.iobuff.size,
    {
        self.iobuff.size
    }

    /// A fresh pass over this list's children, starting at its first byte.
    /// Iteration is restartable: every call starts a new, independent pass.
    pub fn iter(&self) -> (it: ListIter<'a>)
        ensures
            it.fcc == self.fcc,
            it.iobuff.same_window(self.iobuff),
            it.iobuff.pos == 0,
    {
        ListIter {
            fcc: self.fcc,
            iobuff: IOBuffer {
                data: self.iobuff.data,
                start: self.iobuff.start,
                pos: 0,
                size: self.iobuff.size,
            },
        }
    }
}

impl<'a> Chunk<'a> {
    pub open spec fn wf(self) -> bool {
        self.iobuff.wf()
    }

    pub fn fourcc(&self) -> (r: FourCC)
        ensures
            r == self.fcc,
    {
        self.fcc
    }

    /// The declared payload size.  Immutable metadata: reading the chunk's
    /// bytes through any reader never changes it.
    pub fn size(&self) -> (r: u64)
        ensures
            r == self.iobuff.size,
    {
        self.iobuff.size
    }

    /// A sequential reader positioned at the payload's first byte.  The
    /// chunk itself is untouched: the reader owns its own cursor.
    pub fn read(&self) -> (r: ChunkReader<'a>)
        ensures
            r.iobuff.same_window(self.iobuff),
            r.iobuff.pos == 0,
    {
        ChunkReader {
            iobuff: IOBuffer {
                data: self.iobuff.data,
                start: self.iobuff.start,
                pos: 0,
                size: self.iobuff.size,
            },
        }
    }
}

impl<'a> Node<'a> {
    pub open spec fn spec_is_list(self) -> bool {
        self is List
    }

    pub open spec fn spec_fourcc(self) -> FourCC {
        match self {
            Node::List(l) => l.fcc,
            Node::Chunk(c) => c.fcc,
        }
    }

    pub open spec fn spec_window(self) -> IOBuffer<'a> {
        match self {
            Node::List(l) => l.iobuff,
            Node::Chunk(c) => c.iobuff,
        }
    }

    pub open spec fn wf(self) -> bool {
        self.spec_window().wf() && self.spec_window().pos == 0
    }

    pub fn fourcc(&self) -> (r: FourCC)
        ensures
            r == self.spec_fourcc(),
    {
        match self {
            Node::List(l) => l.fourcc(),
            Node::Chunk(c) => c.fourcc(),
        }
    }

    /// The chunk inside, or `error` if this node is a list.
    pub fn chunk_or<E>(self, error: E) -> (r: Result<Chunk<'a>, E>)
        ensures
            match self {
                Node::Chunk(c) => r == Ok::<Chunk<'a>, E>(c),
                Node::List(_) => r == Err::<Chunk<'a>, E>(error),
            },
    {
        match self {
            Node::Chunk(chunk) => Ok(chunk),
            Node::List(_) => Err(error),
        }
    }

    /// The chunk inside, or the error `f` makes from the list found
    /// instead.
    pub fn chunk_or_else<E, F: FnOnce(List<'a>) -> E>(self, f: F) -> (r: Result<Chunk<'a>, E>)
        requires
            self matches Node::List(l) ==> f.requires((l,)),
        ensures
            match self {
                Node::Chunk(c) => r == Ok::<Chunk<'a>, E>(c),
                Node::List(l) => (r matches Err(e) && f.ensures((l,), e)),
            },
    {
        match self {
            Node::Chunk(chunk) => Ok(chunk),
            Node::List(list) => Err(f(list)),
        }
    }

    /// The list inside, or `error` if this node is a chunk.
    pub fn list_or<E>(self, error: E) -> (r: Result<List<'a>, E>)
        ensures
            match self {
                Node::List(l) => r == Ok::<List<'a>, E>(l),
                Node::Chunk(_) => r == Err::<List<'a>, E>(error),
            },
    {
        match self {
            Node::List(list) => Ok(list),
            Node::Chunk(_) => Err(error),
        }
    }

    /// The list inside, or the error `f` makes from the chunk found
    /// instead.
    pub fn list_or_else<E, F: FnOnce(Chunk<'a>) -> E>(self, f: F) -> (r: Result<List<'a>, E>)
        requires
            self matches Node::Chunk(c) ==> f.requires((c,)),
        ensures
            match self {
                Node::List(l) => r == Ok::<List<'a>, E>(l),
                Node::Chunk(c) => (r matches Err(e) && f.ensures((c,), e)),
            },
    {
        match self {
            Node::List(list) => Ok(list),
            Node::Chunk(chunk) => Err(f(chunk)),
        }
    }
}

/// The whole byte source, owned; iterating yields the top-level `RIFF`
/// blocks.
#[derive(Debug)]
pub struct Riff {
    pub data: Vec<u8>,
}

impl Riff {
    /// Wraps an in-memory byte source.  Opening a file and reading it into
    /// memory is the caller's business, outside this library.
    pub fn new(data: Vec<u8>) -> (r: Riff)
        ensures
            r.data == data,
    {
        Riff { data }
    }

    /// A fresh pass over the top-level `RIFF` blocks.
    pub fn iter<'a>(&'a self) -> (it: RiffIter<'a>)
        ensures
            it.iobuff.data@ == self.data@,
            it.iobuff.start == 0,
            it.iobuff.pos == 0,
            it.iobuff.size == self.data@.len(),
            it.wf(),
    {
        RiffIter { iobuff: IOBuffer::new(&self.data, 0, self.data.len() as u64) }
    }

    /// Gives the underlying byte source back to the caller.
    pub fn release(self) -> (r: Vec<u8>)
        ensures
            r == self.data,
    {
        self.data
    }
}

/// Iterator over a file's top-level `RIFF` blocks.
pub struct RiffIter<'a> {
    pub iobuff: IOBuffer<'a>,
}

impl<'a> RiffIter<'a> {
    pub open spec fn wf(self) -> bool {
        self.iobuff.wf() && self.iobuff.start == 0 && self.iobuff.pos <= self.iobuff.size
            && self.iobuff.size == self.iobuff.data@.len()
    }

    /// A child window for the next `size` bytes at the cursor.
    pub fn take_stream_slice(&self, size: u64) -> (r: Result<IOBuffer<'a>, RiffError>)
        requires
            self.iobuff.wf(),
        ensures
            match r {
                Ok(c) => size <= self.iobuff.left() && c.data == self.iobuff.data && c.start
                    == self.iobuff.start + self.iobuff.cur() && c.pos == 0 && c.size == size
                    && c.wf(),
                Err(e) => e == RiffError::Truncated && size > self.iobuff.left(),
            },
    {
        self.iobuff.take_slice(size)
    }

    /// The next top-level `RIFF` block, `None` at the end of the file or at
    /// the first non-`RIFF` top-level tag, or the truncation failure.
    pub fn next(&mut self) -> (r: Option<Result<List<'a>, RiffError>>)
        requires
            old(self).wf(),
        ensures
            final(self).wf(),
            final(self).iobuff.same_window(old(self).iobuff),
            ({
                let step = riff_step(
                    old(self).iobuff.data@,
                    old(self).iobuff.size as int,
                    old(self).iobuff.pos as int,
                );
                match step {
                    ListStep::End => r is None && final(self).iobuff.pos == old(self).iobuff.pos,
                    ListStep::Fail => r == Some(Err::<List<'a>, RiffError>(RiffError::Truncated))
                        && final(self).iobuff.pos == old(self).iobuff.pos,
                    ListStep::Item { is_list, fcc, off, len, next } => final(self).iobuff.pos
                        == next && (match r {
                        Some(Ok(l)) => l.wf() && l.fcc == fcc && l.iobuff.data == old(
                            self,
                        ).iobuff.data && l.iobuff.start == off && l.iobuff.size == len
                            && l.iobuff.pos == 0,
                        _ => false,
                    }),
                }
            }),
    {
        let left = self.iobuff.amount_left();
        if left < 12 {
            return None;
        }
        let p = self.iobuff.pos;
        let tag = self.iobuff.fourcc_at(p);
        if !(tag == riff_tag()) {
            return None;
        }
        let sz = self.iobuff.u32_at(p + 4);
        if sz < 4 {
            return Some(Err(RiffError::Truncated));
        }
        let body = (sz - 4) as u64;
        if body > self.iobuff.size - (p + 12) {
            return Some(Err(RiffError::Truncated));
        }
        let inner = self.iobuff.fourcc_at(p + 8);
        self.iobuff.pos = p + 12;
        let child = match self.take_stream_slice(body) {
            Ok(c) => c,
            Err(_) => {
                return Some(Err(RiffError::Truncated));
            },
        };
        let q = p + 12 + body;
        self.iobuff.pos = if body % 2 == 1 && q < self.iobuff.size {
            q + 1
        } else {
            q
        };
        Some(Ok(List { fcc: inner, iobuff: child }))
    }
}

/// One pass over a list's children.  The iterator owns its cursor: the list
/// it came from is never mutated, so a new pass can always be started.
pub struct ListIter<'a> {
    pub fcc: FourCC,
    pub iobuff: IOBuffer<'a>,
}

impl<'a> ListIter<'a> {
    pub open spec fn wf(self) -> bool {
        self.iobuff.wf() && self.iobuff.pos <= self.iobuff.size
    }

    /// A child window for the next `size` bytes at the cursor.
    pub fn take_stream_slice(&self, size: u64) -> (r: Result<IOBuffer<'a>, RiffError>)
        requires
            self.iobuff.wf(),
        ensures
            match r {
                Ok(c) => size <= self.iobuff.left() && c.data == self.iobuff.data && c.start
                    == self.iobuff.start + self.iobuff.cur() && c.pos == 0 && c.size == size
                    && c.wf(),
                Err(e) => e == RiffError::Truncated && size > self.iobuff.left(),
            },
    {
        self.iobuff.take_slice(size)
    }

    /// The next child node, `None` at the end of the window, or the
    /// truncation failure when a declared size cannot fit.  The yielded
    /// node, and the cursor's advance, are exactly what [`list_step`] says
    /// for the bytes at the old cursor.
    pub fn next(&mut self) -> (r: Option<Result<Node<'a>, RiffError>>)
        requires
            old(self).wf(),
        ensures
            final(self).wf(),
            final(self).iobuff.same_window(old(self).iobuff),
            final(self).fcc == old(self).fcc,
            ({
                let step = list_step(
                    old(self).iobuff.data@,
                    old(self).iobuff.start as int,
                    old(self).iobuff.size as int,
                    old(self).iobuff.pos as int,
                );
                match step {
                    ListStep::End => r is None && final(self).iobuff.pos == old(self).iobuff.pos,
                    ListStep::Fail => r == Some(Err::<Node<'a>, RiffError>(RiffError::Truncated))
                        && final(self).iobuff.pos == old(self).iobuff.pos,
                    ListStep::Item { is_list, fcc, off, len, next } => final(self).iobuff.pos
                        == next && (match r {
                        Some(Ok(n)) => n.wf() && n.spec_is_list() == is_list && n.spec_fourcc()
                            == fcc && n.spec_window().data == old(self).iobuff.data
                            && n.spec_window().start == off && n.spec_window().size == len,
                        _ => false,
                    }),
                }
            }),
    {
        let left = self.iobuff.amount_left();
        if left < 4 {
            return None;
        }
        let p = self.iobuff.pos;
        let tag = self.iobuff.fourcc_at(p);
        if tag == list_tag() {
            if left < 12 {
                return None;
            }
            let sz = self.iobuff.u32_at(p + 4);
            if sz < 4 {
                return Some(Err(RiffError::Truncated));
            }
            let body = (sz - 4) as u64;
            if body > self.iobuff.size - (p + 12) {
                return Some(Err(RiffError::Truncated));
            }
            let inner = self.iobuff.fourcc_at(p + 8);
            self.iobuff.pos = p + 12;
            let child = match self.iobuff.take_slice(body) {
                Ok(c) => c,
                Err(_) => {
                    return Some(Err(RiffError::Truncated));
                },
            };
            let q = p + 12 + body;
            self.iobuff.pos = if body % 2 == 1 && q < self.iobuff.size {
                q + 1
            } else {
                q
            };
            Some(Ok(Node::List(List { fcc: inner, iobuff: child })))
        } else {
            if left < 8 {
                return None;
            }
            let sz = self.iobuff.u32_at(p + 4);
            if (sz as u64) > self.iobuff.size - (p + 8) {
                return Some(Err(RiffError::Truncated));
            }
            self.iobuff.pos = p + 8;
            let child = match self.take_stream_slice(sz as u64) {
                Ok(c) => c,
                Err(_) => {
                    return Some(Err(RiffError::Truncated));
                },
            };
            let q = p + 8 + sz as u64;
            self.iobuff.pos = if sz % 2 == 1 && q < self.iobuff.size {
                q + 1
            } else {
                q
            };
            Some(Ok(Node::Chunk(Chunk { fcc: tag, iobuff: child })))
        }
    }
}

/// Sequential reader over one chunk's payload.  It owns its own cursor; the
/// chunk it was derived from is never touched by reading.
#[derive(Debug)]
pub struct ChunkReader<'a> {
    pub iobuff: IOBuffer<'a>,
}

impl<'a> ChunkReader<'a> {
    pub open spec fn wf(self) -> bool {
        self.iobuff.wf() && self.iobuff.pos <= self.iobuff.size
    }

    /// Copies `min(n, remaining)` payload bytes and advances; an empty
    /// result signals the end of the payload.
    pub fn read(&mut self, n: usize) -> (r: Vec<u8>)
        requires
            old(self).iobuff.wf(),
        ensures
            final(self).iobuff.same_window(old(self).iobuff),
            ({
                let take = if n as int <= old(self).iobuff.left() {
                    n as int
                } else {
                    old(self).iobuff.left()
                };
                r@.len() == take && final(self).iobuff.pos == old(self).iobuff.pos + take && r@
                    == old(self).iobuff.data@.subrange(
                    old(self).iobuff.start + old(self).iobuff.cur(),
                    old(self).iobuff.start + old(self).iobuff.cur() + take,
                )
            }),
    {
        self.iobuff.read(n)
    }
}

/// Bounds of one discovered child: the cursor strictly advances and stays
/// inside the window, and the child's window lies inside its parent's.
pub proof fn lemma_list_step_bounds(data: Seq<u8>, start: int, size: int, p: int)
    requires
        0 <= p,
    ensures
        match list_step(data, start, size, p) {
            ListStep::Item { is_list, fcc, off, len, next } => p < next && next <= size && 0 <= len
                && start <= off && off + len <= start + size,
            _ => true,
        },
{
}

/// Iteration is restartable and idempotent: the children a pass yields are a
/// pure function of the underlying bytes and the list's window, so two
/// fresh passes over the same list — each starting at cursor 0, as
/// [`List::iter`] guarantees — discover exactly the same sequence of tags
/// and sizes.
pub proof fn lemma_list_iteration_restartable(i1: ListIter, i2: ListIter)
    requires
        i1.iobuff.data@ == i2.iobuff.data@,
        i1.iobuff.start == i2.iobuff.start,
        i1.iobuff.size == i2.iobuff.size,
        i1.iobuff.pos == 0,
        i2.iobuff.pos == 0,
    ensures
        list_children_from(i1.iobuff.data@, i1.iobuff.start as int, i1.iobuff.size as int, 0)
            == list_children_from(
            i2.iobuff.data@,
            i2.iobuff.start as int,
            i2.iobuff.size as int,
            0,
        ),
{
}

/// A chunk's declared size is immutable metadata: however far a reader
/// derived from the chunk has advanced, the chunk still reports the same
/// size.  ([`Chunk::read`] hands out a reader over the same window, and
/// [`ChunkReader::read`] only ever moves the reader's own cursor.)
pub proof fn lemma_chunk_size_stable(c: Chunk, r: ChunkReader)
    requires
        r.iobuff.same_window(c.iobuff),
    ensures
        c.iobuff.size == r.iobuff.size,
{
}

/// An odd declared payload size exposes a window of exactly that size, and
/// the following sibling is found one pad byte after the payload — not one
/// byte early.
pub proof fn lemma_odd_chunk_padding(data: Seq<u8>, start: int, size: int, p: int)
    requires
        0 <= p,
        p + 8 <= size,
        fcc_at(data, start + p) != list_tag(),
        le32(data, start + p + 4) % 2 == 1,
        p + 8 + le32(data, start + p + 4) < size,
    ensures
        list_step(data, start, size, p) == (ListStep::Item {
            is_list: false,
            fcc: fcc_at(data, start + p),
            off: start + p + 8,
            len: le32(data, start + p + 4) as int,
            next: p + 8 + le32(data, start + p + 4) + 1,
        }),
{
}

/// A chunk header whose declared size exceeds the enclosing window's
/// remaining bytes is rejected as truncation: iteration yields the failure
/// and does not partially succeed.
pub proof fn lemma_oversized_chunk_rejected(data: Seq<u8>, start: int, size: int, p: int)
    requires
        0 <= p,
        p + 8 <= size,
        fcc_at(data, start + p) != list_tag(),
        le32(data, start + p + 4) > size - (p + 8),
    ensures
        list_step(data, start, size, p) == ListStep::Fail,
        list_children_from(data, start, size, p) == Err::<Seq<NodeV>, RiffError>(
            RiffError::Truncated,
        ),
{
}

} // verus!
