//! The chunk-level parsing state machine.
//!
//! [`StreamingDecoder`] converts raw bytes into [`Decoded`] events while
//! enforcing the container grammar: a fixed signature, then chunks of
//! `{4-byte big-endian length, 4-byte type tag, payload, 4-byte CRC-32 over
//! type and payload}`, with exactly one header chunk first, exactly one
//! terminator chunk last, and image-data chunks logically contiguous.
//! Image-data payload bytes are routed to the inflate buffer manager;
//! everything else is surfaced as opaque begin/partial/complete events.

use vstd::prelude::*;

use crate::crc::{crc_finalize, crc_new, crc_update};
use crate::error::{DecodingError, FormatError};
use crate::inflate::ZlibStream;
use crate::info::{depth_allowed, AnimationControl, BitDepth, ColorType, Info};
use crate::limits::Limits;

verus! {

/// Tag of the header chunk, big-endian packed ASCII.
pub const IHDR: u32 = 0x49484452;

/// Tag of the primary image-data chunk.
pub const IDAT: u32 = 0x49444154;

/// Tag of the terminator chunk.
pub const IEND: u32 = 0x49454e44;

/// Tag of the animation-control chunk.
pub const ACTL: u32 = 0x6163544c;

/// Tag of the animation-frame image-data chunk; its payload starts with a
/// four-byte sequence number that is excluded from the compressed stream.
pub const FDAT: u32 = 0x66644154;

/// The eight-byte signature that every stream must start with.
pub open spec fn signature_spec(i: int) -> u8 {
    if i == 0 {
        137
    } else if i == 1 {
        80
    } else if i == 2 {
        78
    } else if i == 3 {
        71
    } else if i == 4 {
        13
    } else if i == 5 {
        10
    } else if i == 6 {
        26
    } else {
        10
    }
}

/// The signature byte at position `i`.
fn signature_byte(i: u8) -> (r: u8)
    requires
        i < 8,
    ensures
        r == signature_spec(i as int),
{
    match i {
        0 => 137,
        1 => 80,
        2 => 78,
        3 => 71,
        4 => 13,
        5 => 10,
        6 => 26,
        _ => 10,
    }
}

/// One decode event: the closed set of outcomes a decode step can report.
#[derive(Clone, Copy, Debug)]
pub enum Decoded {
    /// No event; more input is needed to make progress.
    Nothing,
    /// A chunk header was parsed: declared payload length and type tag.
    ChunkBegin(u32, u32),
    /// Part of a chunk's payload was consumed; the chunk is not complete.
    PartialChunk(u32),
    /// A chunk (type tag given) was fully consumed and its checksum
    /// accepted.
    ChunkComplete(u32),
    /// Image-data bytes were routed to the inflate buffer manager.
    ImageData,
    /// An image-data chunk sequence ended and its decompressed remainder
    /// was flushed.
    ImageDataFlushed,
    /// The terminator chunk was fully parsed.
    ImageEnd,
}

/// Configuration of a decode session, frozen once decoding starts.
#[derive(Clone, Copy, Debug)]
pub struct DecodeOptions {
    /// Skip the Adler-32 check of the compressed stream trailer.
    pub ignore_adler32: bool,
    /// Skip CRC failures on ancillary chunks; critical chunks (header,
    /// image data, palette, terminator) stay fatal on mismatch.
    pub ignore_crc: bool,
    /// Advise the facade above this core not to retain text chunk
    /// content; the core itself forwards such chunks as opaque events
    /// either way.
    pub ignore_text_chunk: bool,
    /// Advise the facade above this core not to retain ICC-profile chunk
    /// content; forwarded as opaque events either way.
    pub ignore_iccp_chunk: bool,
}

impl Default for DecodeOptions {
    /// Adler-32 is skipped by default; CRCs are checked.
    fn default() -> (r: Self)
        ensures
            r.ignore_adler32 && !r.ignore_crc && !r.ignore_text_chunk && !r.ignore_iccp_chunk,
    {
        DecodeOptions {
            ignore_adler32: true,
            ignore_crc: false,
            ignore_text_chunk: false,
            ignore_iccp_chunk: false,
        }
    }
}

/// Where in the chunk grammar the machine stands.  Single-byte states carry
/// the count of bytes already taken into the accumulator.
#[derive(Clone, Copy)]
enum ParseState {
    /// Matching the fixed signature; count of matched bytes.
    Signature(u8),
    /// Reading the 4-byte chunk length.
    Length(u8),
    /// Reading the 4-byte chunk type tag.
    ChunkType(u8),
    /// Header complete; ordering checks, budget charge and the begin event
    /// are still pending.
    ChunkStart,
    /// Reading the 4-byte sequence-number prefix of an animation-frame
    /// image-data chunk.
    FdatSequence(u8),
    /// Consuming an opaque or metadata chunk payload.
    Data,
    /// Streaming an image-data chunk payload into the inflate manager.
    ImageData,
    /// Reading the 4-byte chunk checksum.
    Crc(u8),
    /// The terminator chunk was parsed; nothing further is consumed.
    Finished,
}

/// Loop rank of a state: states that can step to another state without
/// consuming a byte rank higher, so each internal step either consumes
/// input or descends.
spec fn state_rank(s: ParseState) -> int {
    match s {
        ParseState::Data => 1,
        ParseState::ImageData => 1,
        _ => 0,
    }
}

/// Whether a packed chunk type tag names an ancillary chunk: bit 5 of its
/// first tag byte is set (a lower-case first letter).  Critical chunks
/// carry framing integrity, so their checksum failures stay fatal even
/// when checksum checking is configured off.
pub open spec fn chunk_is_ancillary(t: u32) -> bool {
    ((t / 0x100_0000) / 32) % 2 == 1
}

/// The four tag bytes of a packed chunk type, most significant first.
pub open spec fn tag_bytes_spec(t: u32) -> Seq<u8> {
    seq![
        (t / 0x100_0000) as u8,
        ((t / 0x1_0000) % 0x100) as u8,
        ((t / 0x100) % 0x100) as u8,
        (t % 0x100) as u8,
    ]
}

/// The chunk-level parsing state machine of one decode session.
pub struct StreamingDecoder {
    /// Grammar position.
    state: ParseState,
    /// Big-endian accumulator for the 4-byte fields.
    acc: u32,
    /// Declared payload length of the current chunk.
    chunk_len: u32,
    /// Type tag of the current chunk.
    chunk_type: u32,
    /// Payload bytes of the current chunk not yet consumed.
    remaining: u32,
    /// Buffered payload of the current metadata chunk.
    chunk_buf: Vec<u8>,
    /// Running checksum over the current chunk's type and payload bytes.
    crc: Option<crc32fast::Hasher>,
    /// The bytes the running checksum covers: the current chunk's type tag
    /// followed by its payload as consumed so far.
    chunk_bytes: Ghost<Seq<u8>>,
    /// The header chunk's payload bytes, once parsed: what the metadata
    /// was built from.
    header_payload: Ghost<Seq<u8>>,
    /// Header metadata, once the header chunk is fully parsed.
    info: Option<Info>,
    /// Resource budget charged with every declared chunk length.
    limits: Limits,
    /// The inflate buffer manager receiving image-data payload bytes.
    inflater: ZlibStream,
    /// Skip CRC failures on ancillary chunks; critical chunks stay fatal.
    ignore_crc: bool,
    /// Skip the Adler-32 check; reapplied when the inflater is reset
    /// between image-data runs.
    ignore_adler32: bool,
    /// Advisory flag for the facade above this core: text chunk content
    /// need not be retained.  The core forwards text chunks as opaque
    /// events either way.
    ignore_text_chunk: bool,
    /// Advisory flag for the facade above this core: ICC-profile chunk
    /// content need not be retained.
    ignore_iccp_chunk: bool,
    /// The header chunk was parsed.
    have_ihdr: bool,
    /// An animation-control chunk was parsed.
    have_actl: bool,
    /// A primary image-data chunk was seen.
    have_idat: bool,
    /// The primary image-data sequence was completed and flushed.
    main_data_done: bool,
    /// Currently inside a logically contiguous image-data chunk sequence.
    in_run: bool,
    /// Type tag of the running image-data sequence.
    run_type: u32,
    /// The compressed bytes fed to the most recently completed image-data
    /// sequence.
    last_run_fed: Ghost<Seq<u8>>,
    /// The decompressed bytes the most recently completed image-data
    /// sequence delivered in total.
    last_run_output: Ghost<Seq<u8>>,
}

impl StreamingDecoder {
    /// Header metadata, once available.
    pub closed spec fn info_spec(&self) -> Option<Info> {
        self.info
    }

    /// Whether the machine is inside an image-data chunk sequence.
    pub closed spec fn in_image_run(&self) -> bool {
        self.in_run
    }

    /// Whether the terminator chunk has been parsed.
    pub closed spec fn at_end(&self) -> bool {
        self.state is Finished
    }

    /// The remaining resource budget.
    pub closed spec fn limits_spec(&self) -> Limits {
        self.limits
    }

    /// The type-tag and payload bytes of the current chunk consumed so
    /// far: what its stored checksum must cover.
    pub closed spec fn current_chunk_bytes(&self) -> Seq<u8> {
        self.chunk_bytes@
    }

    /// Whether chunk checksum checks on ancillary chunks are disabled.
    pub closed spec fn crc_ignored(&self) -> bool {
        self.ignore_crc
    }

    /// The type tag of the chunk currently in flight.
    pub closed spec fn current_chunk_type(&self) -> u32 {
        self.chunk_type
    }

    /// The declared payload length of the chunk currently in flight.
    pub closed spec fn current_chunk_len(&self) -> u32 {
        self.chunk_len
    }

    /// The header chunk's payload bytes, once parsed.
    pub closed spec fn header_payload(&self) -> Seq<u8> {
        self.header_payload@
    }

    /// Whether the inflate manager skips the Adler-32 trailer check.
    pub closed spec fn adler_ignored(&self) -> bool {
        self.inflater.ignores_adler32()
    }

    /// Whether decompression has started, freezing the Adler-32 flag.
    pub closed spec fn flate_started(&self) -> bool {
        self.inflater.started()
    }

    /// Whether text chunk content is marked as not worth retaining.
    pub closed spec fn text_ignored(&self) -> bool {
        self.ignore_text_chunk
    }

    /// Whether ICC-profile chunk content is marked as not worth retaining.
    pub closed spec fn iccp_ignored(&self) -> bool {
        self.ignore_iccp_chunk
    }

    /// Whether a parsed chunk header still awaits its ordering checks and
    /// begin event: the one position that can emit an event without
    /// consuming a byte.
    pub closed spec fn pending_step(&self) -> bool {
        self.state is ChunkStart
    }

    /// Staged compressed bytes held by the inflate manager.
    pub closed spec fn staged(&self) -> nat {
        self.inflater.staged_len()
    }

    /// Decompressed bytes delivered so far for the current image-data
    /// sequence.
    pub closed spec fn flate_produced(&self) -> Seq<u8> {
        self.inflater.produced()
    }

    /// The compressed bytes fed to the most recently completed image-data
    /// sequence.
    pub closed spec fn last_run_fed(&self) -> Seq<u8> {
        self.last_run_fed@
    }

    /// The decompressed bytes the most recently completed image-data
    /// sequence delivered in total.
    pub closed spec fn last_run_output(&self) -> Seq<u8> {
        self.last_run_output@
    }

    /// Decompressed bytes the inflate manager still owes for what it
    /// consumed.
    pub closed spec fn flate_backlog(&self) -> int {
        self.inflater.backlog()
    }

    /// A decode step that consumed no byte still made progress: it either
    /// discharged a pending chunk header, ended an image-data sequence, or
    /// moved staged compressed bytes forward.  Together with the consumed
    /// count this bounds every driving loop.
    pub open spec fn decode_progress(pre: StreamingDecoder, post: StreamingDecoder) -> bool {
        ||| (pre.pending_step() && !post.pending_step())
        ||| (pre.pending_step() == post.pending_step() && pre.in_image_run()
            && !post.in_image_run())
        ||| (pre.pending_step() == post.pending_step() && pre.in_image_run()
            == post.in_image_run() && post.staged() < pre.staged())
        ||| (pre.pending_step() == post.pending_step() && pre.in_image_run()
            == post.in_image_run() && post.staged() == pre.staged() && post.flate_backlog()
            < pre.flate_backlog())
    }

    /// Bound on the big-endian accumulator after `n` of its 4 bytes.
    pub closed spec fn acc_bound(n: u8, acc: u32) -> bool {
        &&& n <= 3
        &&& (n == 0 ==> acc == 0)
        &&& (n == 1 ==> acc < 0x100)
        &&& (n == 2 ==> acc < 0x10000)
        &&& (n == 3 ==> acc < 0x1000000)
    }

    /// The running hasher exists and has been fed exactly the current
    /// chunk's type-tag and payload bytes.
    pub closed spec fn crc_tracks(&self) -> bool {
        self.crc matches Some(h) && crate::crc::hasher_fed(h) == self.chunk_bytes@
    }

    /// Machine well-formedness: the checksum follows the current chunk, the
    /// run flag is consistent with the grammar position, and the byte
    /// counters stay in range.
    pub closed spec fn wf(&self) -> bool {
        &&& self.inflater.wf()
        &&& self.inflater.backlog() >= 0
        &&& (match self.state {
            ParseState::Signature(n) => n < 8,
            ParseState::Length(n) => Self::acc_bound(n, self.acc),
            ParseState::ChunkType(n) => Self::acc_bound(n, self.acc),
            ParseState::FdatSequence(n) => Self::acc_bound(n, self.acc) && self.crc_tracks()
                && self.remaining as int >= 4 - n,
            ParseState::Data => self.crc_tracks(),
            ParseState::ImageData => self.crc_tracks(),
            ParseState::Crc(n) => Self::acc_bound(n, self.acc) && self.crc_tracks()
                && self.remaining == 0,
            _ => true,
        })
        &&& (self.state is Finished ==> !self.in_run)
        &&& (self.state is ImageData ==> self.in_run)
        &&& (self.state is FdatSequence ==> self.in_run)
        &&& (self.in_run ==> self.run_type == IDAT || self.run_type == FDAT)
        &&& (self.in_run && (self.state is Data || self.state is ImageData || self.state
            is FdatSequence || self.state is Crc) ==> self.chunk_type == IDAT || self.chunk_type
            == FDAT)
        &&& (self.state is Data ==> !(self.chunk_type == IDAT || self.chunk_type == FDAT))
        &&& ((self.state is Data || self.state is Crc) && (self.chunk_type == IHDR
            || self.chunk_type == ACTL) ==> self.chunk_buf@.len() + self.remaining
            == self.chunk_len && (self.chunk_type == IHDR ==> self.chunk_len == 13) && (
        self.chunk_type == ACTL ==> self.chunk_len == 8))
        &&& (match self.state {
            ParseState::FdatSequence(_) => self.have_ihdr || self.chunk_type == IHDR,
            ParseState::Data => self.have_ihdr || self.chunk_type == IHDR,
            ParseState::ImageData => self.have_ihdr || self.chunk_type == IHDR,
            ParseState::Crc(_) => self.have_ihdr || self.chunk_type == IHDR,
            ParseState::Finished => self.have_ihdr,
            _ => true,
        })
        &&& (self.in_run ==> self.have_ihdr)
        &&& (self.have_ihdr <==> self.info is Some)
        &&& (match self.info {
            Some(i) => 1 <= i.width <= 0x7fff_ffff && 1 <= i.height <= 0x7fff_ffff,
            None => true,
        })
        &&& (match self.info {
            Some(i) => ihdr_valid(self.header_payload@) && Info {
                animation_control: None,
                ..i
            } == ihdr_info(self.header_payload@) && (i.animation_control is Some
                <==> self.have_actl),
            None => !self.have_actl,
        })
        &&& ((self.state is Data || self.state is ImageData || self.state is FdatSequence
            || self.state is Crc) && self.chunk_type == IHDR ==> !self.have_ihdr)
        &&& ((self.state is Data || self.state is Crc) && self.chunk_type == ACTL
            ==> !self.have_actl)
    }

    /// A fresh machine with default options.
    pub fn new() -> (r: Self)
        ensures
            r.wf(),
            r.info_spec() is None,
            !r.in_image_run(),
            !r.at_end(),
    {
        Self::new_with_options(DecodeOptions::default())
    }

    /// A fresh machine with the given options.
    pub fn new_with_options(options: DecodeOptions) -> (r: Self)
        ensures
            r.wf(),
            r.info_spec() is None,
            !r.in_image_run(),
            !r.at_end(),
    {
        let mut inflater = ZlibStream::new();
        let _applied = inflater.set_ignore_adler32(options.ignore_adler32);
        StreamingDecoder {
            state: ParseState::Signature(0),
            acc: 0,
            chunk_len: 0,
            chunk_type: 0,
            remaining: 0,
            chunk_buf: Vec::new(),
            crc: None,
            chunk_bytes: Ghost(Seq::empty()),
            header_payload: Ghost(Seq::empty()),
            info: None,
            limits: Limits::default(),
            inflater,
            ignore_crc: options.ignore_crc,
            ignore_adler32: options.ignore_adler32,
            ignore_text_chunk: options.ignore_text_chunk,
            ignore_iccp_chunk: options.ignore_iccp_chunk,
            have_ihdr: false,
            have_actl: false,
            have_idat: false,
            main_data_done: false,
            in_run: false,
            run_type: 0,
            last_run_fed: Ghost(Seq::empty()),
            last_run_output: Ghost(Seq::empty()),
        }
    }

    /// Replace the session budget.
    pub fn set_limits(&mut self, limits: Limits)
        requires
            old(self).wf(),
        ensures
            final(self).wf(),
            final(self).limits_spec() == limits,
            final(self).limits_spec().remaining() == limits.remaining(),
            final(self).info_spec() == old(self).info_spec(),
            final(self).in_image_run() == old(self).in_image_run(),
            final(self).at_end() == old(self).at_end(),
    {
        self.limits = limits;
    }

    /// Charge `bytes` against the session budget.
    pub fn reserve_bytes(&mut self, bytes: usize) -> (r: Result<(), DecodingError>)
        requires
            old(self).wf(),
        ensures
            final(self).wf(),
            r is Ok <==> bytes <= old(self).limits_spec().remaining(),
            r is Ok ==> final(self).limits_spec().remaining()
                == old(self).limits_spec().remaining() - bytes,
            r matches Err(e) ==> e matches DecodingError::LimitsExceeded
                && final(self).limits_spec() == old(self).limits_spec(),
            final(self).info_spec() == old(self).info_spec(),
            final(self).in_image_run() == old(self).in_image_run(),
            final(self).at_end() == old(self).at_end(),
            final(self).pending_step() == old(self).pending_step(),
            final(self).staged() == old(self).staged(),
            final(self).flate_backlog() == old(self).flate_backlog(),
            final(self).flate_produced() == old(self).flate_produced(),
            final(self).last_run_fed() == old(self).last_run_fed(),
            final(self).last_run_output() == old(self).last_run_output(),
    {
        self.limits.reserve_bytes(bytes)
    }

    /// Record whether text chunk content should be retained by the facade
    /// above this core.
    pub fn set_ignore_text_chunk(&mut self, flag: bool)
        requires
            old(self).wf(),
        ensures
            final(self).wf(),
            final(self).text_ignored() == flag,
            final(self).iccp_ignored() == old(self).iccp_ignored(),
            final(self).crc_ignored() == old(self).crc_ignored(),
            final(self).adler_ignored() == old(self).adler_ignored(),
            final(self).info_spec() == old(self).info_spec(),
            final(self).in_image_run() == old(self).in_image_run(),
            final(self).at_end() == old(self).at_end(),
    {
        self.ignore_text_chunk = flag;
    }

    /// Record whether ICC-profile chunk content should be retained by the
    /// facade above this core.
    pub fn set_ignore_iccp_chunk(&mut self, flag: bool)
        requires
            old(self).wf(),
        ensures
            final(self).wf(),
            final(self).iccp_ignored() == flag,
            final(self).text_ignored() == old(self).text_ignored(),
            final(self).crc_ignored() == old(self).crc_ignored(),
            final(self).adler_ignored() == old(self).adler_ignored(),
            final(self).info_spec() == old(self).info_spec(),
            final(self).in_image_run() == old(self).in_image_run(),
            final(self).at_end() == old(self).at_end(),
    {
        self.ignore_iccp_chunk = flag;
    }

    /// Configure whether the Adler-32 trailer check is skipped; rejected
    /// (returning `false`) once decompression has started.
    pub fn set_ignore_adler32(&mut self, flag: bool) -> (r: bool)
        requires
            old(self).wf(),
        ensures
            final(self).wf(),
            r == !old(self).flate_started(),
            r ==> final(self).adler_ignored() == flag,
            !r ==> final(self).adler_ignored() == old(self).adler_ignored(),
            final(self).crc_ignored() == old(self).crc_ignored(),
            final(self).text_ignored() == old(self).text_ignored(),
            final(self).iccp_ignored() == old(self).iccp_ignored(),
            final(self).info_spec() == old(self).info_spec(),
            final(self).in_image_run() == old(self).in_image_run(),
            final(self).at_end() == old(self).at_end(),
    {
        let applied = self.inflater.set_ignore_adler32(flag);
        if applied {
            self.ignore_adler32 = flag;
        }
        applied
    }

    /// Configure whether CRC failures on ancillary chunks are skipped;
    /// critical chunks stay fatal either way.
    pub fn set_ignore_crc(&mut self, flag: bool)
        requires
            old(self).wf(),
        ensures
            final(self).wf(),
            final(self).crc_ignored() == flag,
            final(self).adler_ignored() == old(self).adler_ignored(),
            final(self).text_ignored() == old(self).text_ignored(),
            final(self).iccp_ignored() == old(self).iccp_ignored(),
            final(self).info_spec() == old(self).info_spec(),
            final(self).in_image_run() == old(self).in_image_run(),
            final(self).at_end() == old(self).at_end(),
    {
        self.ignore_crc = flag;
    }

    /// Header metadata, once available.  Dimensions of available metadata
    /// are nonzero and in range, as the header chunk validation enforces.
    pub fn info(&self) -> (r: Option<Info>)
        requires
            self.wf(),
        ensures
            r == self.info_spec(),
            r matches Some(i) ==> 1 <= i.width <= 0x7fff_ffff && 1 <= i.height <= 0x7fff_ffff,
            r matches Some(i) ==> ihdr_valid(self.header_payload()) && (Info {
                animation_control: None,
                ..i
            } == ihdr_info(self.header_payload())),
            self.in_image_run() ==> r is Some,
    {
        self.info
    }

    /// Flush-or-begin handling once a chunk header is fully parsed:
    /// enforce ordering, charge the budget, seed the checksum and route to
    /// the payload state; or, when the header ends a running image-data
    /// sequence, flush the decompressed remainder first.
    fn handle_chunk_start(&mut self, image_data: &mut Vec<u8>) -> (r: Result<
        Decoded,
        DecodingError,
    >)
        requires
            old(self).wf(),
            old(self).state is ChunkStart,
        ensures
            final(self).wf(),
            final(self).info_spec() == old(self).info_spec(),
            old(image_data)@.is_prefix_of(final(image_data)@),
            !old(self).in_image_run() ==> final(image_data)@ == old(image_data)@,
            final(self).limits_spec().remaining() <= old(self).limits_spec().remaining(),
            !final(self).at_end(),
            r is Err ==> final(self).in_image_run() == old(self).in_image_run(),
            r is Err ==> final(self).limits_spec() == old(self).limits_spec(),
            r matches Err(e) ==> ((e matches DecodingError::LimitsExceeded)
                ==> (final(self).limits_spec().remaining() as int)
                    < final(self).current_chunk_len() as int),
            r matches Err(e) ==> !(e matches DecodingError::Format(FormatError::CrcMismatch {
                ..
            })),
            r matches Err(e) ==> !(e matches DecodingError::IoError) && !(
            e matches DecodingError::UnexpectedEof) && !(e matches DecodingError::Format(
                FormatError::MissingImageData,
            )),
            r matches Ok(ev) ==> {
                &&& !(ev is ImageEnd)
                &&& !(ev is Nothing)
                &&& (!old(self).in_image_run() ==> (final(self).in_image_run() <==> (
                ev matches Decoded::ChunkBegin(_, t) && (t == IDAT || t == FDAT))))
                &&& (old(self).in_image_run() ==> (final(self).in_image_run() <==> !(
                ev is ImageDataFlushed)))
                &&& ((ev is ImageDataFlushed) <==> final(self).pending_step())
                &&& (ev is ImageDataFlushed ==> old(self).in_image_run())
                &&& (!(ev is ImageDataFlushed) ==> final(image_data)@ == old(image_data)@)
                &&& (ev is ImageDataFlushed ==> {
                    &&& final(self).last_run_output() == crate::inflate::inflate_of(
                        final(self).last_run_fed(),
                    )
                    &&& final(image_data)@ == old(image_data)@
                        + final(self).last_run_output().skip(
                        old(self).flate_produced().len() as int,
                    )
                })
                &&& (!(ev is ImageDataFlushed) ==> final(self).last_run_fed() == old(
                    self,
                ).last_run_fed() && final(self).last_run_output() == old(self).last_run_output())
            },
    {
        if self.in_run && self.chunk_type != self.run_type {
            // The image-data sequence ended with this chunk header: flush
            // the decompressed remainder before the new chunk is surfaced.
            match self.inflater.finish_compressed_chunks(image_data) {
                Ok(()) => {}
                Err(e) => {
                    return Err(e);
                }
            }
            self.last_run_fed = Ghost(self.inflater.fed());
            self.last_run_output = Ghost(self.inflater.produced());
            if self.run_type == IDAT {
                self.main_data_done = true;
            }
            self.in_run = false;
            self.inflater.reset();
            let _applied = self.inflater.set_ignore_adler32(self.ignore_adler32);
            return Ok(Decoded::ImageDataFlushed);
        }
        if !self.have_ihdr && self.chunk_type != IHDR {
            return Err(DecodingError::Format(FormatError::ChunkBeforeIhdr));
        }
        if self.have_ihdr && self.chunk_type == IHDR {
            return Err(DecodingError::Format(FormatError::DuplicateChunk));
        }
        if self.chunk_type == IHDR && self.chunk_len != 13 {
            return Err(DecodingError::Format(FormatError::InvalidIhdr));
        }
        if self.chunk_type == ACTL {
            if self.have_actl {
                return Err(DecodingError::Format(FormatError::DuplicateChunk));
            }
            if self.have_idat {
                return Err(DecodingError::Format(FormatError::MisplacedChunk));
            }
            if self.chunk_len != 8 {
                return Err(DecodingError::Format(FormatError::InvalidChunkLength));
            }
        }
        if self.chunk_type == IEND && self.chunk_len != 0 {
            return Err(DecodingError::Format(FormatError::InvalidChunkLength));
        }
        if self.chunk_type == IDAT && self.main_data_done {
            return Err(DecodingError::Format(FormatError::UnexpectedRestartOfDataChunkSequence));
        }
        if self.chunk_type == FDAT && self.chunk_len < 4 {
            return Err(DecodingError::Format(FormatError::FdatShorterThanFourBytes));
        }
        // Charge the declared length before anything is staged or buffered
        // on its behalf.
        match self.limits.reserve_bytes(self.chunk_len as usize) {
            Ok(()) => {}
            Err(e) => {
                return Err(e);
            }
        }
        if self.chunk_type == IDAT {
            self.have_idat = true;
            if !self.in_run {
                self.in_run = true;
                self.run_type = IDAT;
            }
        }
        if self.chunk_type == FDAT && !self.in_run {
            self.in_run = true;
            self.run_type = FDAT;
        }
        let mut h = crc_new();
        let mut type_bytes: Vec<u8> = Vec::new();
        let t = self.chunk_type;
        type_bytes.push((t / 0x100_0000) as u8);
        type_bytes.push((t / 0x1_0000 % 0x100) as u8);
        type_bytes.push((t / 0x100 % 0x100) as u8);
        type_bytes.push((t % 0x100) as u8);
        crc_update(&mut h, type_bytes.as_slice());
        self.crc = Some(h);
        self.chunk_bytes = Ghost(type_bytes@);
        proof {
            assert(type_bytes@ =~= tag_bytes_spec(t));
        }
        self.remaining = self.chunk_len;
        self.chunk_buf.clear();
        self.acc = 0;
        if self.chunk_type == FDAT {
            self.state = ParseState::FdatSequence(0);
        } else if self.chunk_type == IDAT {
            self.state = ParseState::ImageData;
        } else {
            self.state = ParseState::Data;
        }
        Ok(Decoded::ChunkBegin(self.chunk_len, self.chunk_type))
    }

    /// Completion of the current chunk once its stored checksum was read:
    /// verify the checksum, then act on the chunk type — build the header
    /// metadata, record the animation control, finish the stream, or
    /// surface an opaque completion.
    fn complete_chunk(&mut self, recorded: u32) -> (r: Result<Decoded, DecodingError>)
        requires
            old(self).wf(),
            old(self).state is Crc,
        ensures
            final(self).wf(),
            final(self).in_image_run() == old(self).in_image_run(),
            final(self).limits_spec() == old(self).limits_spec(),
            old(self).info_spec() is Some ==> final(self).info_spec() is Some,
            final(self).current_chunk_bytes() == old(self).current_chunk_bytes(),
            final(self).current_chunk_type() == old(self).current_chunk_type(),
            final(self).crc_ignored() == old(self).crc_ignored(),
            final(self).last_run_fed() == old(self).last_run_fed(),
            final(self).last_run_output() == old(self).last_run_output(),
            old(self).info_spec() is Some ==> final(self).header_payload() == old(
                self,
            ).header_payload(),
            old(self).info_spec() matches Some(i) ==> (final(self).info_spec() matches Some(j)
                && j.width == i.width && j.height == i.height && j.bit_depth == i.bit_depth
                && j.color_type == i.color_type && j.interlaced == i.interlaced && (
            i.animation_control is Some ==> j.animation_control == i.animation_control)),
            r matches Err(e) ==> (e matches DecodingError::Format(
                FormatError::CrcMismatch { recorded, computed },
            ) ==> computed == crate::crc::crc32_of(old(self).current_chunk_bytes()) && recorded
                != computed && !(old(self).crc_ignored() && chunk_is_ancillary(
                old(self).current_chunk_type(),
            ))),
            r matches Err(e) ==> !(e matches DecodingError::IoError) && !(
            e matches DecodingError::UnexpectedEof) && !(e matches DecodingError::LimitsExceeded)
                && !(e matches DecodingError::Format(FormatError::MissingImageData)),
            (!old(self).crc_ignored() || !chunk_is_ancillary(old(self).current_chunk_type())) && r
                is Ok ==> recorded == crate::crc::crc32_of(old(self).current_chunk_bytes()),
            r matches Ok(ev) ==> {
                &&& !(ev matches Decoded::ChunkBegin(_, _))
                &&& !(ev is ImageDataFlushed)
                &&& !(ev is Nothing)
                &&& !final(self).pending_step()
                &&& ((ev is ImageEnd) <==> final(self).at_end())
                &&& (ev is ImageEnd ==> final(self).info_spec() is Some && !old(
                self,
                ).in_image_run())
            },
            r is Err ==> !final(self).at_end(),
    {
        self.state = ParseState::Length(0);
        self.acc = 0;
        let taken = self.crc.take();
        let computed = match taken {
            Some(h) => crc_finalize(h),
            None => {
                proof {
                    assert(false);
                }
                0
            }
        };
        // A checksum failure is fatal unless checksum checking is off and
        // the chunk is ancillary; critical chunks carry framing integrity.
        let ancillary = ((self.chunk_type / 0x100_0000) / 32) % 2 == 1;
        if computed != recorded && !(self.ignore_crc && ancillary) {
            return Err(DecodingError::Format(FormatError::CrcMismatch { recorded, computed }));
        }
        if self.chunk_type == IHDR {
            assert(self.chunk_buf@.len() == 13);
            let parsed = match parse_ihdr(&self.chunk_buf) {
                Ok(i) => i,
                Err(e) => {
                    return Err(e);
                }
            };
            self.header_payload = Ghost(self.chunk_buf@);
            self.info = Some(parsed);
            self.have_ihdr = true;
            // Performance hints for the inflate manager, derived from the
            // declared dimensions.
            let total = parsed.expected_data_size();
            let cap = if total > (usize::MAX as u128) {
                usize::MAX
            } else {
                total as usize
            };
            self.inflater.set_max_total_output(cap);
            let bw = parsed.bit_depth.bits();
            let sm = parsed.color_type.samples();
            proof {
                assert((bw as int) * (sm as int) <= 64) by (nonlinear_arith)
                    requires
                        0 <= bw as int <= 16,
                        0 <= sm as int <= 4,
                ;
            }
            let bpp = (bw as u128) * (sm as u128);
            proof {
                assert((parsed.width as int) * (bpp as int) <= 0xffff_ffff * 64)
                    by (nonlinear_arith)
                    requires
                        0 <= parsed.width as int <= 0xffff_ffff,
                        0 <= bpp as int <= 64,
                ;
            }
            let row = ((parsed.width as u128) * bpp + 7) / 8;
            let row_cap = if row > (usize::MAX as u128) {
                usize::MAX
            } else {
                row as usize
            };
            self.inflater.set_expected_row_length(row_cap);
            Ok(Decoded::ChunkComplete(IHDR))
        } else if self.chunk_type == ACTL {
            assert(self.chunk_buf@.len() == 8);
            let frames = be32(&self.chunk_buf, 0);
            let plays = be32(&self.chunk_buf, 4);
            let base = match self.info {
                Some(i) => i,
                None => {
                    proof {
                        assert(false);
                    }
                    return Err(DecodingError::Format(FormatError::MisplacedChunk));
                }
            };
            self.info = Some(
                Info {
                    animation_control: Some(AnimationControl { num_frames: frames, num_plays: plays }),
                    ..base
                },
            );
            self.have_actl = true;
            Ok(Decoded::ChunkComplete(ACTL))
        } else if self.chunk_type == IEND {
            self.state = ParseState::Finished;
            Ok(Decoded::ImageEnd)
        } else {
            Ok(Decoded::ChunkComplete(self.chunk_type))
        }
    }

    /// Consume available metadata-chunk payload bytes from `data[pos..]`:
    /// checksum them, retain those of chunks the machine itself parses, and
    /// stop at the chunk's end or the end of `data`.
    fn take_data_payload(&mut self, data: &[u8], pos: usize) -> (np: usize)
        requires
            old(self).wf(),
            old(self).state is Data,
            old(self).remaining > 0,
            pos < data@.len(),
        ensures
            final(self).wf(),
            pos < np <= data@.len(),
            final(self).state is Data || final(self).state is Crc,
            (final(self).state is Data <==> final(self).remaining > 0),
            final(self).state is Data ==> np == data@.len(),
            final(self).in_image_run() == old(self).in_image_run(),
            final(self).info_spec() == old(self).info_spec(),
            final(self).header_payload() == old(self).header_payload(),
            !final(self).at_end(),
            final(self).limits_spec() == old(self).limits_spec(),
            final(self).pending_step() == old(self).pending_step(),
            final(self).staged() == old(self).staged(),
            final(self).flate_backlog() == old(self).flate_backlog(),
            final(self).flate_produced() == old(self).flate_produced(),
            final(self).last_run_fed() == old(self).last_run_fed(),
            final(self).last_run_output() == old(self).last_run_output(),
            final(self).current_chunk_type() == old(self).current_chunk_type(),
            final(self).current_chunk_len() == old(self).current_chunk_len(),
    {
        let left = data.len() - pos;
        let avail = if (self.remaining as usize) < left {
            self.remaining as usize
        } else {
            left
        };
        let piece = vstd::slice::slice_subrange(data, pos, pos + avail);
        match &mut self.crc {
            Some(h) => crc_update(h, piece),
            None => {
                proof {
                    assert(false);
                }
            }
        }
        self.chunk_bytes = Ghost(self.chunk_bytes@ + piece@);
        if self.chunk_type == IHDR || self.chunk_type == ACTL {
            push_slice(&mut self.chunk_buf, piece);
        }
        self.remaining = self.remaining - (avail as u32);
        if self.remaining == 0 {
            self.acc = 0;
            self.state = ParseState::Crc(0);
        }
        pos + avail
    }

    /// Route available image-data payload bytes from `data[pos..]` to the
    /// inflate manager, checksumming exactly what it accepted.  Zero
    /// acceptance still moves staged bytes or the backlog forward.
    fn take_image_payload(&mut self, data: &[u8], pos: usize, image_data: &mut Vec<u8>) -> (r:
        Result<usize, DecodingError>)
        requires
            old(self).wf(),
            old(self).state is ImageData,
            old(self).remaining > 0,
            pos < data@.len(),
        ensures
            final(self).wf(),
            final(self).state is ImageData,
            final(self).in_image_run() == old(self).in_image_run(),
            final(self).info_spec() == old(self).info_spec(),
            final(self).header_payload() == old(self).header_payload(),
            !final(self).at_end(),
            final(self).limits_spec() == old(self).limits_spec(),
            final(self).pending_step() == old(self).pending_step(),
            final(self).last_run_fed() == old(self).last_run_fed(),
            final(self).last_run_output() == old(self).last_run_output(),
            old(image_data)@.is_prefix_of(final(image_data)@),
            r matches Ok(np) ==> pos <= np <= data@.len() && (np == pos ==> {
                ||| final(self).staged() < old(self).staged()
                ||| (final(self).staged() == old(self).staged() && final(self).flate_backlog()
                    < old(self).flate_backlog())
            }),
            r matches Err(e) ==> {
                &&& e matches DecodingError::Format(FormatError::CorruptFlateStream { .. })
                &&& final(image_data)@ == old(image_data)@
            },
    {
        let left = data.len() - pos;
        let avail = if (self.remaining as usize) < left {
            self.remaining as usize
        } else {
            left
        };
        let piece = vstd::slice::slice_subrange(data, pos, pos + avail);
        let consumed = match self.inflater.decompress(piece, image_data) {
            Ok(c) => c,
            Err(e) => {
                return Err(e);
            }
        };
        if consumed > 0 {
            let done_piece = vstd::slice::slice_subrange(data, pos, pos + consumed);
            match &mut self.crc {
                Some(h) => crc_update(h, done_piece),
                None => {
                    proof {
                        assert(false);
                    }
                }
            }
            self.chunk_bytes = Ghost(self.chunk_bytes@ + done_piece@);
            self.remaining = self.remaining - (consumed as u32);
        }
        Ok(pos + consumed)
    }

    /// One decode step: consume a prefix of `data`, returning the consumed
    /// count and the event that concluded the step.  Never consumes more
    /// than supplied; advancing by exactly the reported count is the
    /// caller's contractual duty.
    #[verifier::rlimit(100)]
    #[verifier::spinoff_prover]
    pub fn update(&mut self, data: &[u8], image_data: &mut Vec<u8>) -> (r: Result<
        (usize, Decoded),
        DecodingError,
    >)
        requires
            old(self).wf(),
        ensures
            final(self).wf(),
            final(self).limits_spec().remaining() <= old(self).limits_spec().remaining(),
            old(self).info_spec() is Some ==> final(self).info_spec() is Some,
            old(self).info_spec() is Some ==> final(self).header_payload() == old(
                self,
            ).header_payload(),
            old(self).info_spec() matches Some(i) ==> (final(self).info_spec() matches Some(j)
                && j.width == i.width && j.height == i.height && j.bit_depth == i.bit_depth
                && j.color_type == i.color_type && j.interlaced == i.interlaced && (
            i.animation_control is Some ==> j.animation_control == i.animation_control)),
            final(self).flate_backlog() >= 0,
            final(self).in_image_run() ==> final(self).info_spec() is Some,
            old(image_data)@.is_prefix_of(final(image_data)@),
            !old(self).in_image_run() ==> final(image_data)@ == old(image_data)@,
            r is Err ==> final(self).in_image_run() == old(self).in_image_run(),
            r matches Err(e) ==> (e matches DecodingError::Format(
                FormatError::CrcMismatch { recorded, computed },
            ) ==> computed == crate::crc::crc32_of(final(self).current_chunk_bytes()) && recorded
                != computed && !(final(self).crc_ignored() && chunk_is_ancillary(
                final(self).current_chunk_type(),
            ))),
            r matches Err(e) ==> e matches DecodingError::Format(_) || e
                matches DecodingError::LimitsExceeded,
            r matches Err(e) ==> ((e matches DecodingError::LimitsExceeded)
                ==> (final(self).limits_spec().remaining() as int)
                    < final(self).current_chunk_len() as int),
            r matches Err(e) ==> !(e matches DecodingError::Format(
                FormatError::MissingImageData,
            )),
            r is Err ==> !final(self).at_end(),
            old(self).at_end() ==> r is Ok,
            r matches Ok((n, ev)) ==> {
                &&& n <= data@.len()
                &&& (!old(self).in_image_run() ==> (final(self).in_image_run() <==> (
                ev matches Decoded::ChunkBegin(_, t) && (t == IDAT || t == FDAT))))
                &&& (old(self).in_image_run() ==> (final(self).in_image_run() <==> !(
                ev is ImageDataFlushed)))
                &&& (old(self).in_image_run() ==> !(ev is ImageEnd))
                &&& ((ev is ImageEnd) <==> final(self).at_end())
                &&& (ev is ImageEnd ==> final(self).info_spec() is Some)
                &&& ((ev matches Decoded::ChunkBegin(_, _)) ==> final(self).info_spec() == old(
                    self,
                ).info_spec())
                &&& (!(ev is ImageData) && !(ev is ImageDataFlushed) ==> final(image_data)@
                    == old(image_data)@)
                &&& (ev is Nothing ==> {
                    &&& n == data@.len()
                    &&& final(image_data)@ == old(image_data)@
                    &&& final(self).info_spec() == old(self).info_spec()
                    &&& final(self).header_payload() == old(self).header_payload()
                    &&& final(self).pending_step() == old(self).pending_step()
                    &&& final(self).staged() == old(self).staged()
                    &&& final(self).flate_backlog() == old(self).flate_backlog()
                    &&& final(self).at_end() == old(self).at_end()
                    &&& final(self).flate_produced() == old(self).flate_produced()
                    &&& final(self).last_run_fed() == old(self).last_run_fed()
                    &&& final(self).last_run_output() == old(self).last_run_output()
                })
                &&& (ev is ImageDataFlushed ==> {
                    &&& final(self).last_run_output() == crate::inflate::inflate_of(
                        final(self).last_run_fed(),
                    )
                    &&& final(image_data)@ == old(image_data)@
                        + final(self).last_run_output().skip(
                        old(self).flate_produced().len() as int,
                    )
                })
                &&& (n == 0 && !(ev is ImageEnd) && !(ev is Nothing)
                    ==> StreamingDecoder::decode_progress(*old(self), *final(self)))
            },
    {
        let ghost old_in_run = self.in_run;
        let mut pos: usize = 0;
        loop
            invariant
                self.wf(),
                pos <= data@.len(),
                self.in_run == old_in_run,
                old_in_run == old(self).in_image_run(),
                image_data@ == old(image_data)@,
                self.info == old(self).info,
                self.header_payload@ == old(self).header_payload@,
                self.limits.remaining() <= old(self).limits_spec().remaining(),
                self.staged() == old(self).staged(),
                self.flate_backlog() == old(self).flate_backlog(),
                self.at_end() == old(self).at_end(),
                self.flate_produced() == old(self).flate_produced(),
                self.last_run_fed() == old(self).last_run_fed(),
                self.last_run_output() == old(self).last_run_output(),
                old(self).pending_step() ==> *self == *old(self) && pos == 0,
                !old(self).pending_step() && self.pending_step() ==> pos > 0,
            decreases
                data@.len() - pos,
                state_rank(self.state),
        {
            match self.state {
                ParseState::Signature(n) => {
                    if pos >= data.len() {
                        return Ok((pos, Decoded::Nothing));
                    }
                    let b = data[pos];
                    if b != signature_byte(n) {
                        return Err(DecodingError::Format(FormatError::InvalidSignature));
                    }
                    pos = pos + 1;
                    if n == 7 {
                        self.acc = 0;
                        self.state = ParseState::Length(0);
                    } else {
                        self.state = ParseState::Signature(n + 1);
                    }
                }
                ParseState::Length(n) => {
                    if pos >= data.len() {
                        return Ok((pos, Decoded::Nothing));
                    }
                    let b = data[pos];
                    pos = pos + 1;
                    let v = self.acc * 256 + (b as u32);
                    if n == 3 {
                        self.acc = 0;
                        if v > 0x7fff_ffff {
                            return Err(DecodingError::Format(FormatError::InvalidChunkLength));
                        }
                        self.chunk_len = v;
                        self.state = ParseState::ChunkType(0);
                    } else {
                        self.acc = v;
                        self.state = ParseState::Length(n + 1);
                    }
                }
                ParseState::ChunkType(n) => {
                    if pos >= data.len() {
                        return Ok((pos, Decoded::Nothing));
                    }
                    let b = data[pos];
                    if !((b >= 65 && b <= 90) || (b >= 97 && b <= 122)) {
                        return Err(DecodingError::Format(FormatError::InvalidChunkType));
                    }
                    pos = pos + 1;
                    let v = self.acc * 256 + (b as u32);
                    if n == 3 {
                        self.acc = 0;
                        self.chunk_type = v;
                        self.state = ParseState::ChunkStart;
                    } else {
                        self.acc = v;
                        self.state = ParseState::ChunkType(n + 1);
                    }
                }
                ParseState::ChunkStart => {
                    let ev = match self.handle_chunk_start(image_data) {
                        Ok(ev) => ev,
                        Err(e) => {
                            return Err(e);
                        }
                    };
                    return Ok((pos, ev));
                }
                ParseState::FdatSequence(n) => {
                    if pos >= data.len() {
                        return Ok((pos, Decoded::Nothing));
                    }
                    let b = data[pos];
                    let byte_slice = vstd::slice::slice_subrange(data, pos, pos + 1);
                    match &mut self.crc {
                        Some(h) => crc_update(h, byte_slice),
                        None => {
                            proof {
                                assert(false);
                            }
                        }
                    }
                    self.chunk_bytes = Ghost(self.chunk_bytes@ + byte_slice@);
                    pos = pos + 1;
                    self.remaining = self.remaining - 1;
                    let v = self.acc * 256 + (b as u32);
                    if n == 3 {
                        // The sequence number was read (and checksummed);
                        // frame ordering is the compositor's concern.
                        self.acc = 0;
                        self.state = ParseState::ImageData;
                    } else {
                        self.acc = v;
                        self.state = ParseState::FdatSequence(n + 1);
                    }
                }
                ParseState::Data => {
                    if self.remaining == 0 {
                        self.acc = 0;
                        self.state = ParseState::Crc(0);
                    } else {
                        if pos >= data.len() {
                            return Ok((pos, Decoded::Nothing));
                        }
                        pos = self.take_data_payload(data, pos);
                        if self.remaining > 0 {
                            return Ok((pos, Decoded::PartialChunk(self.chunk_type)));
                        }
                    }
                }
                ParseState::ImageData => {
                    if self.remaining == 0 {
                        self.acc = 0;
                        self.state = ParseState::Crc(0);
                    } else {
                        if pos >= data.len() {
                            return Ok((pos, Decoded::Nothing));
                        }
                        let np = match self.take_image_payload(data, pos, image_data) {
                            Ok(v) => v,
                            Err(e) => {
                                return Err(e);
                            }
                        };
                        pos = np;
                        return Ok((pos, Decoded::ImageData));
                    }
                }
                ParseState::Crc(n) => {
                    if pos >= data.len() {
                        return Ok((pos, Decoded::Nothing));
                    }
                    let b = data[pos];
                    pos = pos + 1;
                    let v = self.acc * 256 + (b as u32);
                    if n == 3 {
                        self.acc = 0;
                        let ev = match self.complete_chunk(v) {
                            Ok(ev) => ev,
                            Err(e) => {
                                return Err(e);
                            }
                        };
                        return Ok((pos, ev));
                    } else {
                        self.acc = v;
                        self.state = ParseState::Crc(n + 1);
                    }
                }
                ParseState::Finished => {
                    // Exactly one terminator chunk ends the stream; nothing
                    // after it is consumed.
                    return Ok((pos, Decoded::ImageEnd));
                }
            }
        }
    }
}

/// Append a byte slice to a vector.
fn push_slice(dst: &mut Vec<u8>, src: &[u8])
    ensures
        final(dst)@ == old(dst)@ + src@,
{
    let mut i: usize = 0;
    while i < src.len()
        invariant
            i <= src@.len(),
            dst@ == old(dst)@ + src@.take(i as int),
        decreases src@.len() - i,
    {
        let b = src[i];
        dst.push(b);
        assert(dst@ =~= old(dst)@ + src@.take(i + 1));
        i = i + 1;
    }
    assert(dst@ =~= old(dst)@ + src@);
}

/// The big-endian 32-bit value stored at `at`.
pub open spec fn be32_spec(s: Seq<u8>, at: int) -> u32 {
    (((s[at] as int) * 0x100_0000) + ((s[at + 1] as int) * 0x1_0000) + ((s[at + 2] as int) * 0x100)
        + (s[at + 3] as int)) as u32
}

/// Read the big-endian 32-bit value stored at `at`.
fn be32(buf: &Vec<u8>, at: usize) -> (r: u32)
    requires
        at + 4 <= buf@.len(),
    ensures
        r == be32_spec(buf@, at as int),
{
    let l = buf.len();
    assert(at + 4 <= l);
    let b0 = buf[at] as u32;
    let b1 = buf[at + 1] as u32;
    let b2 = buf[at + 2] as u32;
    let b3 = buf[at + 3] as u32;
    b0 * 0x100_0000 + b1 * 0x1_0000 + b2 * 0x100 + b3
}

/// The bit depth stored as `v`; meaningful only for the permitted codes.
pub open spec fn depth_from_spec(v: u8) -> BitDepth {
    if v == 1 {
        BitDepth::One
    } else if v == 2 {
        BitDepth::Two
    } else if v == 4 {
        BitDepth::Four
    } else if v == 8 {
        BitDepth::Eight
    } else {
        BitDepth::Sixteen
    }
}

/// The color type stored as `v`; meaningful only for the permitted codes.
pub open spec fn color_from_spec(v: u8) -> ColorType {
    if v == 0 {
        ColorType::Grayscale
    } else if v == 2 {
        ColorType::Rgb
    } else if v == 3 {
        ColorType::Indexed
    } else if v == 4 {
        ColorType::GrayscaleAlpha
    } else {
        ColorType::Rgba
    }
}

/// Whether a 13-byte header payload is well-formed: nonzero in-range
/// dimensions, permitted depth and color codes in a permitted combination,
/// zero compression and filter methods, and a known interlace flag.
pub open spec fn ihdr_valid(s: Seq<u8>) -> bool {
    &&& s.len() == 13
    &&& 1 <= be32_spec(s, 0) <= 0x7fff_ffff
    &&& 1 <= be32_spec(s, 4) <= 0x7fff_ffff
    &&& (s[8] == 1 || s[8] == 2 || s[8] == 4 || s[8] == 8 || s[8] == 16)
    &&& (s[9] == 0 || s[9] == 2 || s[9] == 3 || s[9] == 4 || s[9] == 6)
    &&& crate::info::depth_allowed_spec(depth_from_spec(s[8]), color_from_spec(s[9]))
    &&& s[10] == 0
    &&& s[11] == 0
    &&& (s[12] == 0 || s[12] == 1)
}

/// The metadata a well-formed 13-byte header payload declares.
pub open spec fn ihdr_info(s: Seq<u8>) -> Info {
    Info {
        width: be32_spec(s, 0),
        height: be32_spec(s, 4),
        bit_depth: depth_from_spec(s[8]),
        color_type: color_from_spec(s[9]),
        interlaced: s[12] == 1,
        animation_control: None,
    }
}

/// Parse the header chunk payload: succeeds exactly on well-formed
/// payloads, returning exactly the metadata they declare.
fn parse_ihdr(buf: &Vec<u8>) -> (r: Result<Info, DecodingError>)
    requires
        buf@.len() == 13,
    ensures
        r is Ok <==> ihdr_valid(buf@),
        r matches Ok(i) ==> i == ihdr_info(buf@),
        r matches Err(e) ==> e matches DecodingError::Format(FormatError::InvalidIhdr),
{
    let width = be32(buf, 0);
    let height = be32(buf, 4);
    if width == 0 || width > 0x7fff_ffff || height == 0 || height > 0x7fff_ffff {
        return Err(DecodingError::Format(FormatError::InvalidIhdr));
    }
    let depth = match BitDepth::from_u8(buf[8]) {
        Some(d) => d,
        None => {
            return Err(DecodingError::Format(FormatError::InvalidIhdr));
        }
    };
    let color = match ColorType::from_u8(buf[9]) {
        Some(c) => c,
        None => {
            return Err(DecodingError::Format(FormatError::InvalidIhdr));
        }
    };
    if !depth_allowed(depth, color) {
        return Err(DecodingError::Format(FormatError::InvalidIhdr));
    }
    if buf[10] != 0 || buf[11] != 0 {
        return Err(DecodingError::Format(FormatError::InvalidIhdr));
    }
    if buf[12] != 0 && buf[12] != 1 {
        return Err(DecodingError::Format(FormatError::InvalidIhdr));
    }
    let info = Info {
        width,
        height,
        bit_depth: depth,
        color_type: color,
        interlaced: buf[12] == 1,
        animation_control: None,
    };
    proof {
        assert(depth == depth_from_spec(buf@[8]));
        assert(color == color_from_spec(buf@[9]));
    }
    Ok(info)
}


} // verus!
