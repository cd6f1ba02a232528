//! A verified reader for RIFF-family container files, together with an AVI
//! demuxer built on top of it.
//!
//! The `riff` module exposes the container grammar: a byte source is wrapped
//! in a [`riff::Riff`] value, whose top-level blocks are lists of nested
//! lists and chunks, discovered lazily by bounded windows over the shared
//! bytes.  The `data` module holds the fixed-layout AVI records and their
//! little-endian decoders, and `demuxer` walks a RIFF tree according to the
//! AVI grammar, producing stream headers, format descriptors and sample
//! indices, or a precise format error.

pub mod fourcc;
pub mod data;
pub mod demuxer;
pub mod riff;
