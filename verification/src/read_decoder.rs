//! The buffered reader adapter.
//!
//! [`ReadDecoder`] owns a growable read-ahead buffer and the chunk state
//! machine, and exposes five coarse, sequencing-safe operations; raw decode
//! events stay hidden.  Bytes come from a [`ByteSource`], the library's
//! port for byte producers: a verified in-memory implementation is
//! [`SliceSource`], and unverified file- or network-backed sources can
//! implement the same trait outside the library.

use vstd::prelude::*;

use crate::error::DecodingError;
use crate::error::FormatError;
use crate::inflate::{append_range, drop_prefix};
use crate::info::Info;
use crate::limits::Limits;
use crate::stream::{DecodeOptions, Decoded, StreamingDecoder, FDAT, IDAT};

verus! {

/// Initial size of the read-ahead buffer; it doubles (against the session
/// budget) only once fully compacted and still exhausted.
pub const CHUNK_BUFFER_SIZE: usize = 32768;

/// A byte producer feeding one decode session.  Implementations outside
/// the library (files, sockets) are not verified; the in-library
/// [`SliceSource`] is.
pub trait ByteSource {
    /// The bytes this source will still deliver, in order.
    spec fn bytes_left(&self) -> Seq<u8>;

    /// Hand over up to `max` of the front bytes.  An empty result while
    /// `max > 0` means the source is exhausted.
    fn read_some(&mut self, max: usize) -> (r: Result<Vec<u8>, DecodingError>)
        ensures
            r matches Ok(v) ==> {
                &&& v@.len() <= max
                &&& v@.len() <= old(self).bytes_left().len()
                &&& v@ == old(self).bytes_left().take(v@.len() as int)
                &&& final(self).bytes_left() == old(self).bytes_left().skip(v@.len() as int)
                &&& (v@.len() == 0 && max > 0 ==> old(self).bytes_left().len() == 0)
            },
            r is Err ==> final(self).bytes_left().len() <= old(self).bytes_left().len(),
            r matches Err(e) ==> e matches DecodingError::IoError,
    ;
}

/// An in-memory byte source: a vector delivered front to back.
pub struct SliceSource {
    /// The bytes of the stream.
    data: Vec<u8>,
    /// How many of them were already delivered.
    pos: usize,
}

impl SliceSource {
    /// A source that will deliver exactly `data`.
    pub fn new(data: Vec<u8>) -> (r: Self)
        ensures
            r.bytes_left() == data@,
    {
        let r = SliceSource { data, pos: 0 };
        proof {
            assert(r.bytes_left() =~= r.data@);
        }
        r
    }
}

impl ByteSource for SliceSource {
    closed spec fn bytes_left(&self) -> Seq<u8> {
        if self.pos as int <= self.data@.len() {
            self.data@.skip(self.pos as int)
        } else {
            Seq::empty()
        }
    }

    fn read_some(&mut self, max: usize) -> (r: Result<Vec<u8>, DecodingError>) {
        let p = if self.pos <= self.data.len() {
            self.pos
        } else {
            self.data.len()
        };
        let avail = self.data.len() - p;
        let take = if max < avail {
            max
        } else {
            avail
        };
        let mut out: Vec<u8> = Vec::new();
        append_range(&mut out, self.data.as_slice(), p, p + take);
        self.pos = p + take;
        proof {
            assert(out@ =~= old(self).bytes_left().take(out@.len() as int));
            assert(self.bytes_left() =~= old(self).bytes_left().skip(out@.len() as int));
        }
        Ok(out)
    }
}

/// The read-ahead buffer: unread bytes plus the source they came from.
pub struct BufReader2<S: ByteSource> {
    /// Read-ahead storage; `buf[read_pos..]` is unread.
    buf: Vec<u8>,
    /// First unread index of `buf`.
    read_pos: usize,
    /// Logical capacity: the buffer refills up to this size, and doubles it
    /// only when compaction cannot reclaim space.
    cap: usize,
    /// The byte source.
    reader: S,
}

impl<S: ByteSource> BufReader2<S> {
    /// The bytes read ahead but not yet consumed.
    pub closed spec fn buffered(&self) -> Seq<u8> {
        self.buf@.skip(self.read_pos as int)
    }

    /// The bytes the source will still deliver.
    pub closed spec fn source_left(&self) -> Seq<u8> {
        self.reader.bytes_left()
    }

    /// Unconsumed bytes ahead of the decoder, buffered or still at the
    /// source.
    pub closed spec fn total_ahead(&self) -> nat {
        self.buffered().len() + self.source_left().len()
    }

    /// The logical capacity the buffer refills up to before growing.
    pub closed spec fn capacity(&self) -> usize {
        self.cap
    }

    /// The cursor stays inside the buffer and the buffer inside its
    /// logical capacity.
    pub closed spec fn wf(&self) -> bool {
        &&& self.read_pos <= self.buf@.len()
        &&& self.buf@.len() <= self.cap
        &&& CHUNK_BUFFER_SIZE <= self.cap
    }

    /// A fresh buffer over `reader`.
    pub fn new(reader: S) -> (r: Self)
        ensures
            r.wf(),
            r.buffered() == Seq::<u8>::empty(),
            r.source_left() == reader.bytes_left(),
    {
        let r = BufReader2 { buf: Vec::new(), read_pos: 0, cap: CHUNK_BUFFER_SIZE, reader };
        proof {
            assert(r.buffered() =~= Seq::<u8>::empty());
        }
        r
    }

    /// Drop `bytes` consumed bytes from the front of the unread window.
    pub fn consume(&mut self, bytes: usize)
        requires
            old(self).wf(),
            bytes <= old(self).buffered().len(),
        ensures
            final(self).wf(),
            final(self).buffered() == old(self).buffered().skip(bytes as int),
            final(self).source_left() == old(self).source_left(),
            final(self).total_ahead() + bytes == old(self).total_ahead(),
    {
        self.read_pos = self.read_pos + bytes;
        proof {
            assert(self.buffered() =~= old(self).buffered().skip(bytes as int));
        }
    }

    /// The unread bytes.
    pub fn buf(&self) -> (r: &[u8])
        requires
            self.wf(),
        ensures
            r@ == self.buffered(),
    {
        vstd::slice::slice_subrange(self.buf.as_slice(), self.read_pos, self.buf.len())
    }

    /// Pull more bytes from the source, first reclaiming space by shifting
    /// unconsumed bytes to the front, and only growing the buffer (against
    /// the session budget held by `decoder`) once already fully compacted.
    /// An exhausted source is an end-of-input error.
    pub fn fill_more_or_eof(&mut self, decoder: &mut StreamingDecoder) -> (r: Result<
        (),
        DecodingError,
    >)
        requires
            old(self).wf(),
            old(decoder).wf(),
        ensures
            final(self).wf(),
            final(decoder).wf(),
            final(decoder).info_spec() == old(decoder).info_spec(),
            final(decoder).in_image_run() == old(decoder).in_image_run(),
            final(decoder).at_end() == old(decoder).at_end(),
            final(decoder).pending_step() == old(decoder).pending_step(),
            final(decoder).staged() == old(decoder).staged(),
            final(decoder).flate_backlog() == old(decoder).flate_backlog(),
            final(decoder).flate_produced() == old(decoder).flate_produced(),
            final(decoder).last_run_fed() == old(decoder).last_run_fed(),
            final(decoder).last_run_output() == old(decoder).last_run_output(),
            r matches Err(e) ==> e matches DecodingError::IoError || e
                matches DecodingError::UnexpectedEof || e matches DecodingError::LimitsExceeded,
            r matches Err(e) ==> ((e matches DecodingError::LimitsExceeded) <==> {
                &&& old(self).buffered().len() == old(self).capacity()
                &&& (old(self).capacity() == usize::MAX || old(decoder).limits_spec().remaining()
                    < old(self).capacity())
            }),
            r matches Err(DecodingError::UnexpectedEof) ==> final(self).source_left().len() == 0,
            r is Ok ==> {
                &&& final(self).total_ahead() == old(self).total_ahead()
                &&& final(self).buffered().len() > old(self).buffered().len()
                &&& (exists|k: int|
                    {
                        &&& 0 < k <= old(self).source_left().len()
                        &&& final(self).buffered() == old(self).buffered() + old(
                            self,
                        ).source_left().take(k)
                        &&& final(self).source_left() == old(self).source_left().skip(k)
                    })
            },
            r is Err ==> final(self).buffered() == old(self).buffered() && final(self).total_ahead() <= old(self).total_ahead(),
    {
        let ghost buffered0 = self.buffered();
        if self.buf.len() == self.cap {
            if self.read_pos > 0 {
                // Compact in place: shift the unread window to the front.
                drop_prefix(&mut self.buf, self.read_pos);
                self.read_pos = 0;
            } else {
                // Already compacted: grow, charging the budget first.  A
                // buffer saturated at the address-space bound cannot grow
                // at all; report that as budget exhaustion.
                if self.cap == usize::MAX {
                    return Err(DecodingError::LimitsExceeded);
                }
                match decoder.reserve_bytes(self.cap) {
                    Ok(()) => {}
                    Err(e) => {
                        proof {
                            assert(self.buffered() =~= buffered0);
                        }
                        return Err(e);
                    }
                }
                self.cap = if self.cap > usize::MAX / 2 {
                    usize::MAX
                } else {
                    self.cap * 2
                };
            }
        }
        proof {
            assert(self.buffered() =~= buffered0);
        }
        let want = self.cap - self.buf.len();
        let mut chunk = match self.reader.read_some(want) {
            Ok(v) => v,
            Err(e) => {
                return Err(e);
            }
        };
        if chunk.len() == 0 {
            return Err(DecodingError::UnexpectedEof);
        }
        let ghost k = chunk@.len() as int;
        self.buf.append(&mut chunk);
        proof {
            assert(self.buffered() =~= buffered0 + old(self).source_left().take(k));
            assert(self.buffered().len() == buffered0.len() + k);
            assert(self.source_left().len() + k == old(self).source_left().len());
        }
        Ok(())
    }
}

/// Whether an image-data sequence may still produce more bytes.
#[derive(Debug, PartialEq, Eq, Structural)]
pub enum ImageDataCompletionStatus {
    /// More data may follow: decoding may be called again.
    ExpectingMoreData,
    /// The current image-data sequence is fully drained; a further frame
    /// requires locating the next sequence first.
    Done,
}

/// The reader adapter: drives the chunk state machine from a byte source
/// and exposes five coarse operations whose preconditions are the caller's
/// responsibility.
pub struct ReadDecoder<S: ByteSource> {
    /// The read-ahead buffer and its source.
    reader: BufReader2<S>,
    /// The chunk state machine.
    decoder: StreamingDecoder,
}

impl<S: ByteSource> ReadDecoder<S> {
    /// Adapter and machine are both well-formed.
    pub closed spec fn wf(&self) -> bool {
        &&& self.reader.wf()
        &&& self.decoder.wf()
    }

    /// Header metadata, once available.
    pub closed spec fn info_spec(&self) -> Option<Info> {
        self.decoder.info_spec()
    }

    /// Whether the adapter is inside an image-data chunk sequence.
    pub closed spec fn in_image_run(&self) -> bool {
        self.decoder.in_image_run()
    }

    /// Whether the terminator chunk has been reached.
    pub closed spec fn at_end(&self) -> bool {
        self.decoder.at_end()
    }

    /// Unconsumed bytes ahead of the decoder.
    pub closed spec fn bytes_ahead(&self) -> nat {
        self.reader.total_ahead()
    }

    /// The machine made byte-free progress (see
    /// [`StreamingDecoder::decode_progress`]).
    pub closed spec fn progressed_from(&self, pre: &Self) -> bool {
        StreamingDecoder::decode_progress(pre.decoder, self.decoder)
    }

    /// Pending-header flag of the machine.
    pub closed spec fn pending_step(&self) -> bool {
        self.decoder.pending_step()
    }

    /// Staged compressed bytes of the inflate manager.
    pub closed spec fn staged(&self) -> nat {
        self.decoder.staged()
    }

    /// Backlog of the inflate manager.
    pub closed spec fn flate_backlog(&self) -> int {
        self.decoder.flate_backlog()
    }

    /// Decompressed bytes delivered so far for the current image-data
    /// sequence.
    pub closed spec fn flate_produced(&self) -> Seq<u8> {
        self.decoder.flate_produced()
    }

    /// The compressed bytes fed to the most recently completed image-data
    /// sequence.
    pub closed spec fn last_run_fed(&self) -> Seq<u8> {
        self.decoder.last_run_fed()
    }

    /// The decompressed bytes the most recently completed image-data
    /// sequence delivered in total.
    pub closed spec fn last_run_output(&self) -> Seq<u8> {
        self.decoder.last_run_output()
    }

    /// Whether CRC failures on ancillary chunks are skipped.
    pub closed spec fn crc_ignored(&self) -> bool {
        self.decoder.crc_ignored()
    }

    /// Whether the Adler-32 trailer check is skipped.
    pub closed spec fn adler_ignored(&self) -> bool {
        self.decoder.adler_ignored()
    }

    /// Whether decompression has started, freezing the Adler-32 flag.
    pub closed spec fn flate_started(&self) -> bool {
        self.decoder.flate_started()
    }

    /// Whether text chunk content is marked as not worth retaining.
    pub closed spec fn text_ignored(&self) -> bool {
        self.decoder.text_ignored()
    }

    /// Whether ICC-profile chunk content is marked as not worth retaining.
    pub closed spec fn iccp_ignored(&self) -> bool {
        self.decoder.iccp_ignored()
    }

    /// The remaining byte budget of this session.
    pub closed spec fn limits_remaining(&self) -> usize {
        self.decoder.limits_spec().remaining()
    }

    /// The header chunk's payload bytes, once parsed.
    pub closed spec fn header_payload(&self) -> Seq<u8> {
        self.decoder.header_payload()
    }

    /// A decoder over `r` with default options.  Construction performs no
    /// reads: every byte the source held is still ahead of the decoder.
    pub fn new(r: S) -> (d: Self)
        ensures
            d.wf(),
            d.info_spec() is None,
            !d.in_image_run(),
            !d.at_end(),
            d.bytes_ahead() == r.bytes_left().len(),
    {
        ReadDecoder { reader: BufReader2::new(r), decoder: StreamingDecoder::new() }
    }

    /// A decoder over `r` with the given options.  Construction performs no
    /// reads: every byte the source held is still ahead of the decoder.
    pub fn with_options(r: S, options: DecodeOptions) -> (d: Self)
        ensures
            d.wf(),
            d.info_spec() is None,
            !d.in_image_run(),
            !d.at_end(),
            d.bytes_ahead() == r.bytes_left().len(),
    {
        ReadDecoder { reader: BufReader2::new(r), decoder: StreamingDecoder::new_with_options(options) }
    }

    /// Replace the session budget.
    pub fn set_limits(&mut self, limits: Limits)
        requires
            old(self).wf(),
        ensures
            final(self).wf(),
            final(self).limits_remaining() == limits.remaining(),
            final(self).info_spec() == old(self).info_spec(),
            final(self).in_image_run() == old(self).in_image_run(),
            final(self).at_end() == old(self).at_end(),
    {
        self.decoder.set_limits(limits);
    }

    /// Charge `bytes` against the session budget: succeeds and debits
    /// exactly when the budget covers the request, else fails with the
    /// resource-limit error and an unchanged budget.
    pub fn reserve_bytes(&mut self, bytes: usize) -> (r: Result<(), DecodingError>)
        requires
            old(self).wf(),
        ensures
            final(self).wf(),
            r is Ok <==> bytes <= old(self).limits_remaining(),
            r is Ok ==> final(self).limits_remaining() == old(self).limits_remaining() - bytes,
            r matches Err(e) ==> e matches DecodingError::LimitsExceeded
                && final(self).limits_remaining() == old(self).limits_remaining(),
            final(self).info_spec() == old(self).info_spec(),
            final(self).in_image_run() == old(self).in_image_run(),
            final(self).at_end() == old(self).at_end(),
    {
        self.decoder.reserve_bytes(bytes)
    }

    /// Record whether text chunk content should be retained by the facade
    /// above this core.
    pub fn set_ignore_text_chunk(&mut self, flag: bool)
        requires
            old(self).wf(),
        ensures
            final(self).wf(),
            final(self).text_ignored() == flag,
            final(self).iccp_ignored() == old(self).iccp_ignored(),
            final(self).crc_ignored() == old(self).crc_ignored(),
            final(self).adler_ignored() == old(self).adler_ignored(),
            final(self).info_spec() == old(self).info_spec(),
            final(self).in_image_run() == old(self).in_image_run(),
            final(self).at_end() == old(self).at_end(),
    {
        self.decoder.set_ignore_text_chunk(flag);
    }

    /// Record whether ICC-profile chunk content should be retained by the
    /// facade above this core.
    pub fn set_ignore_iccp_chunk(&mut self, flag: bool)
        requires
            old(self).wf(),
        ensures
            final(self).wf(),
            final(self).iccp_ignored() == flag,
            final(self).text_ignored() == old(self).text_ignored(),
            final(self).crc_ignored() == old(self).crc_ignored(),
            final(self).adler_ignored() == old(self).adler_ignored(),
            final(self).info_spec() == old(self).info_spec(),
            final(self).in_image_run() == old(self).in_image_run(),
            final(self).at_end() == old(self).at_end(),
    {
        self.decoder.set_ignore_iccp_chunk(flag);
    }

    /// Skip both checksums: CRC failures on ancillary chunks (critical
    /// chunks stay fatal) and the Adler-32 of the compressed stream.  The
    /// Adler-32 half is frozen once decompression has started: a too-late
    /// change is rejected rather than silently applied, matching the
    /// session-frozen configuration surface.
    pub fn ignore_checksums(&mut self, flag: bool)
        requires
            old(self).wf(),
        ensures
            final(self).wf(),
            final(self).crc_ignored() == flag,
            !old(self).flate_started() ==> final(self).adler_ignored() == flag,
            old(self).flate_started() ==> final(self).adler_ignored()
                == old(self).adler_ignored(),
            final(self).text_ignored() == old(self).text_ignored(),
            final(self).iccp_ignored() == old(self).iccp_ignored(),
            final(self).info_spec() == old(self).info_spec(),
            final(self).in_image_run() == old(self).in_image_run(),
            final(self).at_end() == old(self).at_end(),
    {
        let _applied = self.decoder.set_ignore_adler32(flag);
        self.decoder.set_ignore_crc(flag);
    }

    /// Header metadata, once available.  Dimensions of available metadata
    /// are nonzero and in range, as the header chunk validation enforces.
    pub fn info(&self) -> (r: Option<Info>)
        requires
            self.wf(),
        ensures
            r == self.info_spec(),
            r matches Some(i) ==> 1 <= i.width <= 0x7fff_ffff && 1 <= i.height <= 0x7fff_ffff,
            r matches Some(i) ==> crate::stream::ihdr_valid(self.header_payload()) && (Info {
                animation_control: None,
                ..i
            } == crate::stream::ihdr_info(self.header_payload())),
            self.in_image_run() ==> r is Some,
    {
        self.decoder.info()
    }

    /// One decode step: feed buffered bytes to the machine, refilling from
    /// the source while the machine is starved, and consume exactly what
    /// the machine reports.  Image-data payload is appended to
    /// `image_data`.
    fn decode_next(&mut self, image_data: &mut Vec<u8>) -> (r: Result<Decoded, DecodingError>)
        requires
            old(self).wf(),
        ensures
            final(self).wf(),
            old(self).info_spec() is Some ==> final(self).info_spec() is Some,
            final(self).flate_backlog() >= 0,
            final(self).in_image_run() ==> final(self).info_spec() is Some,
            old(image_data)@.is_prefix_of(final(image_data)@),
            !old(self).in_image_run() ==> final(image_data)@ == old(image_data)@,
            final(self).bytes_ahead() <= old(self).bytes_ahead(),
            r is Err ==> final(self).in_image_run() == old(self).in_image_run(),
            r is Err ==> !final(self).at_end(),
            r matches Err(e) ==> !(e matches DecodingError::Format(
                FormatError::MissingImageData,
            )),
            r matches Ok(ev) ==> {
                &&& (!old(self).in_image_run() ==> (final(self).in_image_run() <==> (
                ev matches Decoded::ChunkBegin(_, t) && (t == IDAT || t == FDAT))))
                &&& (old(self).in_image_run() ==> (final(self).in_image_run() <==> !(
                ev is ImageDataFlushed)))
                &&& (old(self).in_image_run() ==> !(ev is ImageEnd))
                &&& ((ev is ImageEnd) <==> final(self).at_end())
                &&& (ev is ImageEnd ==> final(self).info_spec() is Some)
                &&& ((ev matches Decoded::ChunkBegin(_, _)) ==> final(self).info_spec() == old(
                    self,
                ).info_spec())
                &&& (!(ev is ImageData) && !(ev is ImageDataFlushed) ==> final(image_data)@
                    == old(image_data)@)
                &&& (ev is ImageDataFlushed ==> {
                    &&& final(self).last_run_output() == crate::inflate::inflate_of(
                        final(self).last_run_fed(),
                    )
                    &&& final(image_data)@ == old(image_data)@
                        + final(self).last_run_output().skip(
                        old(self).flate_produced().len() as int,
                    )
                })
                &&& {
                    ||| final(self).bytes_ahead() < old(self).bytes_ahead()
                    ||| (final(self).bytes_ahead() == old(self).bytes_ahead() && (ev is ImageEnd
                        || final(self).progressed_from(old(self))))
                }
            },
    {
        loop
            invariant
                self.wf(),
                image_data@ == old(image_data)@,
                self.bytes_ahead() == old(self).bytes_ahead(),
                self.info_spec() == old(self).info_spec(),
                self.in_image_run() == old(self).in_image_run(),
                self.pending_step() == old(self).pending_step(),
                self.staged() == old(self).staged(),
                self.flate_backlog() == old(self).flate_backlog(),
                self.flate_produced() == old(self).flate_produced(),
                self.last_run_fed() == old(self).last_run_fed(),
                self.last_run_output() == old(self).last_run_output(),
            decreases (if self.reader.buffered().len() == 0 {
                1int
            } else {
                0int
            }),
        {
            let data = self.reader.buf();
            match self.decoder.update(data, image_data) {
                Err(e) => {
                    return Err(e);
                }
                Ok((n, ev)) => {
                    if n == 0 && matches!(ev, Decoded::Nothing) {
                        match self.reader.fill_more_or_eof(&mut self.decoder) {
                            Ok(()) => {}
                            Err(e) => {
                                return Err(e);
                            }
                        }
                    } else {
                        self.reader.consume(n);
                        return Ok(ev);
                    }
                }
            }
        }
    }

    /// Decode one step while asserting that no image data can flow: the
    /// sink stays empty because the machine is outside any image-data
    /// sequence.
    fn decode_next_without_image_data(&mut self) -> (r: Result<Decoded, DecodingError>)
        requires
            old(self).wf(),
            !old(self).in_image_run(),
        ensures
            final(self).wf(),
            old(self).info_spec() is Some ==> final(self).info_spec() is Some,
            final(self).flate_backlog() >= 0,
            final(self).in_image_run() ==> final(self).info_spec() is Some,
            final(self).bytes_ahead() <= old(self).bytes_ahead(),
            r is Err ==> final(self).in_image_run() == old(self).in_image_run(),
            r is Err ==> !final(self).at_end(),
            r matches Err(e) ==> !(e matches DecodingError::Format(
                FormatError::MissingImageData,
            )),
            r matches Ok(ev) ==> {
                &&& (final(self).in_image_run() <==> (ev matches Decoded::ChunkBegin(_, t) && (t
                    == IDAT || t == FDAT)))
                &&& ((ev matches Decoded::ChunkBegin(_, _)) ==> final(self).info_spec() == old(
                    self,
                ).info_spec())
                &&& ((ev is ImageEnd) <==> final(self).at_end())
                &&& (ev is ImageEnd ==> final(self).info_spec() is Some)
                &&& {
                    ||| final(self).bytes_ahead() < old(self).bytes_ahead()
                    ||| (final(self).bytes_ahead() == old(self).bytes_ahead() && (ev is ImageEnd
                        || final(self).progressed_from(old(self))))
                }
            },
    {
        let mut sink: Vec<u8> = Vec::new();
        let r = self.decode_next(&mut sink);
        assert(sink@.len() == 0);
        r
    }

    /// Read until the end of the header chunk.  No prerequisite:
    /// idempotent once the header is available — a second call changes
    /// nothing and returns the identical metadata — and inside an
    /// image-data sequence the metadata already exists.
    pub fn read_header_info(&mut self) -> (r: Result<Info, DecodingError>)
        requires
            old(self).wf(),
        ensures
            final(self).wf(),
            final(self).in_image_run() == old(self).in_image_run(),
            r matches Ok(i) ==> final(self).info_spec() == Some(i) && 1 <= i.width <= 0x7fff_ffff
                && 1 <= i.height <= 0x7fff_ffff,
            r matches Ok(i) ==> crate::stream::ihdr_valid(final(self).header_payload()) && (Info {
                animation_control: None,
                ..i
            } == crate::stream::ihdr_info(final(self).header_payload())),
            old(self).info_spec() matches Some(i) ==> *final(self) == *old(self) && r == Ok::<
                Info,
                DecodingError,
            >(i),
    {
        if let Some(i) = self.info() {
            return Ok(i);
        }
        loop
            invariant
                self.wf(),
                old(self).info_spec() is None,
                !old(self).in_image_run(),
                self.info_spec() is None,
                !self.in_image_run(),
            decreases
                self.bytes_ahead(),
                (if self.pending_step() {
                    1int
                } else {
                    0int
                }),
                self.staged(),
                self.flate_backlog(),
        {
            match self.decode_next_without_image_data() {
                Err(e) => {
                    return Err(e);
                }
                Ok(ev) => {
                    if let Some(i) = self.info() {
                        return Ok(i);
                    }
                    proof {
                        // Reaching the terminator before the header would
                        // be a grammar violation the machine rejects, so
                        // while the metadata is missing the event cannot
                        // occur: the defect path is provably unreachable.
                        assert(!(ev is ImageEnd));
                        assert(!self.in_image_run());
                    }
                }
            }
        }
    }

    /// Read until the start of the next image-data chunk sequence,
    /// discarding every other event on the way; reaching the terminator
    /// first means the stream carries no image data where some is due.
    ///
    /// Prerequisite: not inside an image-data sequence.
    pub fn read_until_image_data(&mut self) -> (r: Result<(), DecodingError>)
        requires
            old(self).wf(),
            !old(self).in_image_run(),
        ensures
            final(self).wf(),
            r is Ok ==> final(self).in_image_run() && final(self).info_spec() is Some,
            r matches Err(e) ==> ((e matches DecodingError::Format(
                FormatError::MissingImageData,
            )) <==> final(self).at_end()),
    {
        loop
            invariant
                self.wf(),
                !self.in_image_run(),
            decreases
                self.bytes_ahead(),
                (if self.pending_step() {
                    1int
                } else {
                    0int
                }),
                self.staged(),
                self.flate_backlog(),
        {
            match self.decode_next_without_image_data() {
                Err(e) => {
                    return Err(e);
                }
                Ok(ev) => {
                    match ev {
                        Decoded::ChunkBegin(_, t) => {
                            if t == IDAT || t == FDAT {
                                return Ok(());
                            }
                        }
                        Decoded::ImageEnd => {
                            return Err(
                                DecodingError::Format(FormatError::MissingImageData),
                            );
                        }
                        _ => {}
                    }
                }
            }
        }
    }

    /// Perform exactly one image-data decode step, appending decompressed
    /// bytes to `image_data`, and report whether more may follow.  When the
    /// sequence completes, the decompressed bytes delivered for it in total
    /// are exactly what the compressed bytes fed to the inflate manager
    /// determine, and this call appended the part not delivered earlier.
    ///
    /// Prerequisite: inside an image-data chunk sequence.
    pub fn decode_image_data(&mut self, image_data: &mut Vec<u8>) -> (r: Result<
        ImageDataCompletionStatus,
        DecodingError,
    >)
        requires
            old(self).wf(),
            old(self).in_image_run(),
        ensures
            final(self).wf(),
            final(self).flate_backlog() >= 0,
            old(image_data)@.is_prefix_of(final(image_data)@),
            old(self).info_spec() is Some ==> final(self).info_spec() is Some,
            r matches Ok(status) ==> {
                &&& ((status is Done) <==> !final(self).in_image_run())
                &&& (status is Done ==> {
                    &&& final(self).last_run_output() == crate::inflate::inflate_of(
                        final(self).last_run_fed(),
                    )
                    &&& final(image_data)@ == old(image_data)@
                        + final(self).last_run_output().skip(
                        old(self).flate_produced().len() as int,
                    )
                })
                &&& (status is ExpectingMoreData ==> {
                    ||| final(self).bytes_ahead() < old(self).bytes_ahead()
                    ||| (final(self).bytes_ahead() == old(self).bytes_ahead()
                        && final(self).progressed_from(old(self)))
                })
            },
    {
        match self.decode_next(image_data) {
            Err(e) => Err(e),
            Ok(ev) => match ev {
                Decoded::ImageData => Ok(ImageDataCompletionStatus::ExpectingMoreData),
                Decoded::ImageDataFlushed => Ok(ImageDataCompletionStatus::Done),
                // Other events may happen inside an image-data chunk
                // sequence and leave it open.
                Decoded::Nothing | Decoded::ChunkComplete(_) | Decoded::ChunkBegin(_, _)
                    | Decoded::PartialChunk(_) => Ok(ImageDataCompletionStatus::ExpectingMoreData),
                // The terminator cannot occur inside an image-data
                // sequence: the machine flushes the sequence first.
                Decoded::ImageEnd => {
                    proof {
                        assert(false);
                    }
                    Ok(ImageDataCompletionStatus::ExpectingMoreData)
                }
            },
        }
    }

    /// Consume and discard the rest of the current image-data sequence.
    ///
    /// Prerequisite: inside an image-data chunk sequence.
    pub fn finish_decoding_image_data(&mut self) -> (r: Result<(), DecodingError>)
        requires
            old(self).wf(),
            old(self).in_image_run(),
        ensures
            final(self).wf(),
            old(self).info_spec() is Some ==> final(self).info_spec() is Some,
            r is Ok ==> !final(self).in_image_run(),
    {
        loop
            invariant
                self.wf(),
                self.in_image_run(),
                old(self).info_spec() is Some ==> self.info_spec() is Some,
            decreases
                self.bytes_ahead(),
                (if self.pending_step() {
                    1int
                } else {
                    0int
                }),
                self.staged(),
                self.flate_backlog(),
        {
            let mut to_be_discarded: Vec<u8> = Vec::new();
            match self.decode_image_data(&mut to_be_discarded) {
                Err(e) => {
                    return Err(e);
                }
                Ok(ImageDataCompletionStatus::Done) => {
                    return Ok(());
                }
                Ok(ImageDataCompletionStatus::ExpectingMoreData) => {}
            }
        }
    }

    /// Discard all events, including image data, until the terminator
    /// chunk.
    pub fn read_until_end_of_input(&mut self) -> (r: Result<(), DecodingError>)
        requires
            old(self).wf(),
        ensures
            final(self).wf(),
            old(self).info_spec() is Some ==> final(self).info_spec() is Some,
            r is Ok ==> final(self).at_end(),
    {
        loop
            invariant
                self.wf(),
                old(self).info_spec() is Some ==> self.info_spec() is Some,
            decreases
                self.bytes_ahead(),
                (if self.pending_step() {
                    1int
                } else {
                    0int
                }),
                (if self.in_image_run() {
                    1int
                } else {
                    0int
                }),
                self.staged(),
                self.flate_backlog(),
        {
            let mut to_be_discarded: Vec<u8> = Vec::new();
            match self.decode_next(&mut to_be_discarded) {
                Err(e) => {
                    return Err(e);
                }
                Ok(Decoded::ImageEnd) => {
                    return Ok(());
                }
                Ok(_) => {}
            }
        }
    }
}

/// Decode a whole in-memory stream: locate the header, drain the primary
/// image-data sequence, and read to the terminator.  Returns the header
/// metadata and the decompressed, still-filtered scanline bytes, whose
/// count is checked against what the header promises: one filter byte per
/// scanline plus the packed samples, over the interlace passes if any.
///
/// A convenience entry point over the five reader operations; what each
/// step guarantees about the bytes lives in the contracts of
/// [`ReadDecoder`] and [`crate::inflate::ZlibStream`].
pub fn decode_image(bytes: Vec<u8>) -> (r: Result<(Info, Vec<u8>), DecodingError>)
    ensures
        r matches Ok((i, d)) ==> i.width >= 1 && i.height >= 1 && d@.len()
            == i.expected_data_size_spec(),
{
    let source = SliceSource::new(bytes);
    let mut decoder = ReadDecoder::new(source);
    match decoder.read_header_info() {
        Ok(_) => {}
        Err(e) => {
            return Err(e);
        }
    }
    match decoder.read_until_image_data() {
        Ok(()) => {}
        Err(e) => {
            return Err(e);
        }
    }
    let mut image_data: Vec<u8> = Vec::new();
    loop
        invariant_except_break
            decoder.in_image_run(),
        invariant
            decoder.wf(),
            decoder.info_spec() is Some,
        ensures
            decoder.wf(),
            decoder.info_spec() is Some,
        decreases
            decoder.bytes_ahead(),
            (if decoder.pending_step() {
                1int
            } else {
                0int
            }),
            decoder.staged(),
            decoder.flate_backlog(),
    {
        match decoder.decode_image_data(&mut image_data) {
            Err(e) => {
                return Err(e);
            }
            Ok(ImageDataCompletionStatus::Done) => {
                break;
            }
            Ok(ImageDataCompletionStatus::ExpectingMoreData) => {}
        }
    }
    match decoder.read_until_end_of_input() {
        Ok(()) => {}
        Err(e) => {
            return Err(e);
        }
    }
    // The metadata may have grown since the header was located (the
    // animation-control record arrives in its own chunk), so report its
    // final state.
    match decoder.info() {
        Some(i) => {
            if (image_data.len() as u128) != i.expected_data_size() {
                return Err(DecodingError::Format(FormatError::ImageDataSizeMismatch));
            }
            Ok((i, image_data))
        }
        None => {
            proof {
                assert(false);
            }
            Err(DecodingError::UnexpectedEof)
        }
    }
}

} // verus!
