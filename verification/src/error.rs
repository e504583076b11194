//! Error taxonomy of the decoder: end of input, format violations and
//! resource-limit violations.

use vstd::prelude::*;

verus! {

/// A grammar or checksum violation found in the byte stream.
#[derive(Debug)]
pub enum FormatError {
    /// The fixed eight-byte signature at the start of the stream is wrong.
    InvalidSignature,
    /// A chunk declares a length above the permitted maximum, or a
    /// terminator chunk declares a non-empty payload.
    InvalidChunkLength,
    /// A chunk type tag holds a byte outside the ASCII letters.
    InvalidChunkType,
    /// The checksum stored after a chunk does not match the checksum of its
    /// type and payload bytes.
    CrcMismatch {
        /// The checksum stored in the stream.
        recorded: u32,
        /// The checksum computed over the chunk's type and payload.
        computed: u32,
    },
    /// A chunk other than the header chunk came first.
    ChunkBeforeIhdr,
    /// A chunk that must occur exactly once occurred again.
    DuplicateChunk,
    /// A chunk that must precede the image data came after it.
    MisplacedChunk,
    /// The header chunk payload is malformed (bad size, dimensions, depth,
    /// color type or method fields).
    InvalidIhdr,
    /// An animation-frame image-data chunk is too short to hold its
    /// four-byte sequence-number prefix.
    FdatShorterThanFourBytes,
    /// A fresh primary image-data sequence started after the first one was
    /// already completed.
    UnexpectedRestartOfDataChunkSequence,
    /// The terminator chunk was reached before any image-data chunk.
    MissingImageData,
    /// The drained image data does not hold the byte count the header
    /// promises (width, height, depth and samples with per-row bit
    /// packing).
    ImageDataSizeMismatch,
    /// The compressed image-data stream is corrupt; carries the underlying
    /// diagnostic of the decompressor.
    CorruptFlateStream {
        /// The decompressor's own error value.
        err: fdeflate::DecompressionError,
    },
}

/// Everything that can abort a decode session.
#[derive(Debug)]
pub enum DecodingError {
    /// The byte source failed.
    IoError,
    /// The byte source ended although more bytes were required.
    UnexpectedEof,
    /// The stream violates the container grammar or a checksum.
    Format(FormatError),
    /// A configured resource budget would have been exceeded.
    LimitsExceeded,
}

} // verus!
