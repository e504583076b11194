//! Streaming decoder core for the PNG container format.
//!
//! The crate turns an incrementally supplied byte stream into decompressed,
//! still-filtered scanline bytes plus header metadata.  It is organised as
//! a small pipeline:
//!
//! * [`limits`] — the running byte budget consulted before every
//!   growth-relevant event,
//! * [`crc`] — the running CRC-32 over chunk type and payload bytes,
//! * [`inflate`] — the incremental zlib decompressor with a cache-bounded
//!   output ring ([`inflate::ZlibStream`]),
//! * [`info`] — header metadata and the byte-count arithmetic derived from
//!   it,
//! * [`stream`] — the chunk-level parsing state machine
//!   ([`stream::StreamingDecoder`]),
//! * [`read_decoder`] — the buffered reader adapter exposing five coarse,
//!   sequencing-safe operations ([`read_decoder::ReadDecoder`]).
//!
//! Scanline unfiltering, interlace reconstruction and color semantics are
//! external collaborators consuming this core's output; they are not part
//! of the crate.

pub mod crc;
pub mod error;
pub mod info;
pub mod inflate;
pub mod limits;
pub mod read_decoder;
pub mod stream;
