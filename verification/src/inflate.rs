//! Incremental zlib decompression with a cache-bounded output ring.
//!
//! [`ZlibStream`] turns the logical concatenation of all image-data chunk
//! payloads — supplied in arbitrarily small slices — into decompressed bytes,
//! delivered immediately into a caller-supplied sink.  The deflate algorithm
//! itself is done by `fdeflate::Decompressor`, reached only through the
//! trusted items at the top of this file; everything around the call —
//! staging of input, growth and compaction of the output ring, delivery —
//! is verified.
//!
//! The model: `inflate_of(c)` names the decompressed bytes that a compressed
//! prefix `c` determines — a function of the bytes alone.  Acceptance of a
//! stream's end additionally depends on whether the Adler-32 trailer is
//! checked, so `inflate_ended` and `inflate_valid` carry a strictness
//! argument, and the manager's claims use its session strictness (the
//! complement of the Adler-skip flag).  The contract pins the bytes the
//! manager delivers to `inflate_of` of the bytes it was fed, which makes
//! the delivered output independent of how the driver slices the input
//! (see [`inflate_in_slices`]).

use vstd::prelude::*;

use crate::error::{DecodingError, FormatError};

verus! {

/// Backward references in a deflate stream reach at most this many bytes
/// back, so the output ring keeps at least this much recently produced data
/// while more input may arrive.
pub const LOOKBACK_SIZE: usize = 32768;

/// Compaction runs only once the output ring holds several lookback windows,
/// so that across N produced bytes the total copy work stays linear in N.
/// One byte is copied during compaction for every three produced bytes.
pub const COMPACT_THRESHOLD: usize = 131072;

/// Fallback growth increment for the output ring before the expected row
/// length is known; tuned so one decompression working set stays within an
/// L1 cache alongside the data structures around it.
pub const MAX_INCREMENTAL_DECOMPRESSION_SIZE: usize = 16384;

/// Capacity of the staged-input buffer: bytes accepted from the caller that
/// the decompressor has not consumed yet.
pub const STAGED_INPUT_CAPACITY: usize = 32768;

/// Upper clamp on the predicted read size, so that ring growth arithmetic
/// stays far from overflow on any platform.
pub const PREDICTED_READ_CAP: usize = 1073741824;

#[verifier::external_type_specification]
#[verifier::external_body]
pub struct ExDecompressor(fdeflate::Decompressor);

#[verifier::external_type_specification]
#[verifier::external_body]
pub struct ExDecompressionError(fdeflate::DecompressionError);

/// The compressed bytes a decompressor has consumed so far.
pub uninterp spec fn dec_consumed(d: fdeflate::Decompressor) -> Seq<u8>;

/// The decompressed bytes a decompressor has written out so far.
pub uninterp spec fn dec_emitted(d: fdeflate::Decompressor) -> Seq<u8>;

/// Whether a decompressor has reached the end of its compressed stream.
pub uninterp spec fn dec_done(d: fdeflate::Decompressor) -> bool;

/// The decompressed bytes that the compressed prefix `c` determines: deflate
/// decoding is deterministic, so any decoder that has consumed exactly `c`
/// has produced a prefix of `inflate_of(c)`, and all of it once no symbol is
/// left incomplete.
pub uninterp spec fn inflate_of(c: Seq<u8>) -> Seq<u8>;

/// Whether the compressed prefix `c` already contains a stream that a
/// decoder of the given strictness accepts as complete: final block
/// decoded and the four trailer bytes consumed, with the Adler-32 checksum
/// also correct when `strict`.  Once that holds, further bytes neither
/// change `inflate_of` nor reopen the stream.
pub uninterp spec fn inflate_ended(c: Seq<u8>, strict: bool) -> bool;

/// Whether `c` is a prefix of some stream that a decoder of the given
/// strictness accepts as complete: the inputs on which an incremental
/// decode step cannot fail.
pub uninterp spec fn inflate_valid(c: Seq<u8>, strict: bool) -> bool;

/// Whether a decompressor still checks the Adler-32 trailer: true from
/// creation until the skip flag is set.  The produced bytes never depend
/// on it; only acceptance at the end of the stream does.
pub uninterp spec fn dec_strict(d: fdeflate::Decompressor) -> bool;

/// Prefix structure of deflate streams, plainly true of the two readings
/// above: a prefix of a valid prefix is valid, and a prefix of bytes that
/// contain a complete stream either is still inside the stream or already
/// contains it.
pub open spec fn inflate_prefix_facts() -> bool {
    &&& (forall|p: Seq<u8>, c: Seq<u8>, strict: bool|
        #![trigger p.is_prefix_of(c), inflate_valid(c, strict)]
        #![trigger p.is_prefix_of(c), inflate_valid(p, strict)]
        p.is_prefix_of(c) && inflate_valid(c, strict) ==> inflate_valid(p, strict))
    &&& (forall|p: Seq<u8>, c: Seq<u8>, strict: bool|
        #![trigger p.is_prefix_of(c), inflate_ended(c, strict)]
        p.is_prefix_of(c) && inflate_ended(c, strict) ==> inflate_valid(p, strict)
            || inflate_ended(p, strict))
}

/// A freshly created decompressor: nothing consumed or produced, the
/// stream not ended, nothing determined yet; carries the prefix facts,
/// which every reading of the names satisfies.
pub open spec fn fresh_decompressor(d: fdeflate::Decompressor) -> bool {
    &&& dec_consumed(d) == Seq::<u8>::empty()
    &&& dec_emitted(d) == Seq::<u8>::empty()
    &&& !dec_done(d)
    &&& dec_strict(d)
    &&& inflate_of(dec_consumed(d)) == Seq::<u8>::empty()
    &&& !inflate_ended(dec_consumed(d), true)
    &&& !inflate_ended(dec_consumed(d), false)
    &&& inflate_prefix_facts()
}

/// Relies on `fdeflate::Decompressor::new`: a fresh decompressor has
/// consumed and produced nothing and is not done; with nothing consumed,
/// nothing is determined.
#[verifier::external_body]
pub(crate) fn decompressor_new() -> (r: fdeflate::Decompressor)
    ensures
        fresh_decompressor(r),
{
    fdeflate::Decompressor::new()
}

/// Relies on `fdeflate::Decompressor::ignore_adler32`: it only clears the
/// strictness flag and leaves the decoding state alone.
#[verifier::external_body]
pub(crate) fn decompressor_ignore_adler32(d: &mut fdeflate::Decompressor)
    ensures
        dec_consumed(*final(d)) == dec_consumed(*old(d)),
        dec_emitted(*final(d)) == dec_emitted(*old(d)),
        dec_done(*final(d)) == dec_done(*old(d)),
        !dec_strict(*final(d)),
{
    d.ignore_adler32();
}

/// Relies on `fdeflate::Decompressor::is_done`.
#[verifier::external_body]
pub(crate) fn decompressor_is_done(d: &fdeflate::Decompressor) -> (r: bool)
    ensures
        r == dec_done(*d),
{
    d.is_done()
}

/// The length-preservation frame of a decode step's output buffer.  It
/// deliberately also carries [`inflate_prefix_facts`] — trusted structural
/// facts about the names, true of every reading of them — so that every
/// read call puts them in scope; the frame's own content is only the
/// length equality.
pub open spec fn read_output_frame(pre: Seq<u8>, post: Seq<u8>) -> bool {
    post.len() == pre.len() && inflate_prefix_facts()
}

/// Relies on `fdeflate::Decompressor::read`, the incremental decode step.
///
/// Its documentation and source give: the returned pair counts input bytes
/// consumed and output bytes written at `out_pos`; on success the input is
/// fully consumed, or the output buffer is full, or the stream is complete;
/// once done it consumes nothing further; it writes only at `out_pos` and
/// beyond (possibly scribbling past the returned count, which the contract
/// leaves unconstrained); and back-references read the bytes directly before
/// `out_pos`, which is why the caller must keep the most recent lookback
/// window of produced bytes there: unless the stream is already done, at
/// least `min(LOOKBACK_SIZE, produced)` bytes must sit below `out_pos`, or
/// a queued back-reference could be resumed out of bounds.  A step over a
/// prefix the decoder's strictness accepts (or over bytes containing a
/// complete acceptable stream, whose trailing garbage it never touches)
/// succeeds; a failure refutes completeness, and — except for the
/// insufficient-input diagnostic, which a merely truncated stream also
/// earns at end of input — refutes validity too.  Strictness is fixed by
/// the skip flag and never changed by reading.  Determinism of deflate
/// decoding justifies the `inflate_of` clauses: what a consumed prefix
/// determines only grows with the prefix, and is final once the stream has
/// ended.
#[verifier::external_body]
pub(crate) fn decompressor_read(
    d: &mut fdeflate::Decompressor,
    input: &[u8],
    output: &mut Vec<u8>,
    out_pos: usize,
    end_of_input: bool,
) -> (r: Result<(usize, usize), fdeflate::DecompressionError>)
    requires
        out_pos <= old(output)@.len(),
        out_pos <= dec_emitted(*old(d)).len(),
        old(output)@.subrange(0, out_pos as int) == dec_emitted(*old(d)).skip(
            dec_emitted(*old(d)).len() - out_pos as int,
        ),
        dec_done(*old(d)) || out_pos >= LOOKBACK_SIZE || out_pos as int >= dec_emitted(
            *old(d),
        ).len(),
    ensures
        read_output_frame(old(output)@, final(output)@),
        final(output)@.subrange(0, out_pos as int) == old(output)@.subrange(0, out_pos as int),
        dec_done(*old(d)) ==> r is Ok,
        dec_strict(*final(d)) == dec_strict(*old(d)),
        inflate_ended(dec_consumed(*old(d)) + input@, dec_strict(*old(d))) || (!end_of_input
            && inflate_valid(dec_consumed(*old(d)) + input@, dec_strict(*old(d)))) ==> r is Ok,
        r is Err ==> !inflate_ended(dec_consumed(*old(d)) + input@, dec_strict(*old(d))),
        !end_of_input && r is Err ==> !inflate_valid(
            dec_consumed(*old(d)) + input@,
            dec_strict(*old(d)),
        ),
        r matches Ok((ic, oc)) ==> {
            &&& ic <= input@.len()
            &&& out_pos + oc <= old(output)@.len()
            &&& dec_consumed(*final(d)) == dec_consumed(*old(d)) + input@.take(ic as int)
            &&& dec_emitted(*final(d)) == dec_emitted(*old(d)) + final(output)@.subrange(
                out_pos as int,
                out_pos + oc,
            )
            &&& (ic == input@.len() || out_pos + oc == old(output)@.len() || dec_done(*final(d)))
            &&& (end_of_input ==> dec_done(*final(d)) || out_pos + oc == old(output)@.len())
            &&& (dec_done(*old(d)) ==> ic == 0 && oc == 0 && *final(d) == *old(d)
                && final(output)@ == old(output)@)
            &&& dec_emitted(*final(d)).is_prefix_of(inflate_of(dec_consumed(*final(d))))
            &&& (forall|ext: Seq<u8>|
                dec_consumed(*final(d)).is_prefix_of(ext) ==> inflate_of(
                    dec_consumed(*final(d)),
                ).is_prefix_of(#[trigger] inflate_of(ext)))
            &&& (dec_done(*final(d)) ==> {
                &&& dec_emitted(*final(d)) == inflate_of(dec_consumed(*final(d)))
                &&& inflate_ended(dec_consumed(*final(d)), dec_strict(*old(d)))
                &&& (forall|ext: Seq<u8>|
                    dec_consumed(*final(d)).is_prefix_of(ext) ==> #[trigger] inflate_of(ext)
                        == inflate_of(dec_consumed(*final(d))) && inflate_ended(
                        ext,
                        dec_strict(*old(d)),
                    ))
            })
        },
{
    d.read(input, output.as_mut_slice(), out_pos, end_of_input)
}

/// Copy `count` bytes starting at `start` to the front of `v`, leaving the
/// rest of `v` unchanged.
pub(crate) fn shift_left(v: &mut Vec<u8>, start: usize, count: usize)
    requires
        start + count <= old(v)@.len(),
    ensures
        final(v)@.len() == old(v)@.len(),
        final(v)@.subrange(0, count as int) == old(v)@.subrange(start as int, start + count),
        forall|i: int| count <= i < final(v)@.len() ==> final(v)@[i] == old(v)@[i],
{
    let l: usize = v.len();
    let mut i: usize = 0;
    while i < count
        invariant
            i <= count,
            start + count <= l,
            l == v@.len(),
            start + count <= v@.len(),
            v@.len() == old(v)@.len(),
            forall|j: int| 0 <= j < i ==> v@[j] == old(v)@[start + j],
            forall|j: int| i <= j < v@.len() ==> v@[j] == old(v)@[j],
        decreases count - i,
    {
        let b = v[start + i];
        v[i] = b;
        i = i + 1;
    }
    assert(v@.subrange(0, count as int) =~= old(v)@.subrange(start as int, start + count));
}

/// Append `src[from..to]` to `dst`.
pub(crate) fn append_range(dst: &mut Vec<u8>, src: &[u8], from: usize, to: usize)
    requires
        from <= to <= src@.len(),
    ensures
        final(dst)@ == old(dst)@ + src@.subrange(from as int, to as int),
{
    let mut i: usize = from;
    while i < to
        invariant
            from <= i <= to <= src@.len(),
            dst@ == old(dst)@ + src@.subrange(from as int, i as int),
        decreases to - i,
    {
        let b = src[i];
        dst.push(b);
        assert(dst@ =~= old(dst)@ + src@.subrange(from as int, i + 1));
        i = i + 1;
    }
}

/// Remove the first `n` bytes of `v` in place.
pub(crate) fn drop_prefix(v: &mut Vec<u8>, n: usize)
    requires
        n <= old(v)@.len(),
    ensures
        final(v)@ == old(v)@.skip(n as int),
{
    let count = v.len() - n;
    shift_left(v, n, count);
    v.truncate(count);
    assert(v@ =~= old(v)@.skip(n as int));
}

/// Package the three completed-stream facts into [`ZlibStream::stream_complete`].
proof fn lemma_stream_complete_intro(fed: Seq<u8>, out: Seq<u8>, strict: bool)
    requires
        out == inflate_of(fed),
        inflate_ended(fed, strict),
        forall|ext: Seq<u8>|
            fed.is_prefix_of(ext) ==> #[trigger] inflate_of(ext) == inflate_of(fed)
                && inflate_ended(ext, strict),
    ensures
        ZlibStream::stream_complete(fed, out, strict),
{
}

/// `a` is a prefix of `c` whenever it is a prefix of some prefix `b` of `c`.
proof fn lemma_prefix_transitive(a: Seq<u8>, b: Seq<u8>, c: Seq<u8>)
    requires
        a.is_prefix_of(b),
        b.is_prefix_of(c),
    ensures
        a.is_prefix_of(c),
{
    assert(a =~= c.subrange(0, a.len() as int));
}

/// Incremental decompressor for the concatenated image-data payloads.
///
/// States: not-started, started, finished.  `decompress` may be called any
/// number of times before `finish_compressed_chunks`, which must be called
/// once after the last compressed byte.  Produced bytes are transferred into
/// the caller's sink on every call (immediate-transfer delivery).
pub struct ZlibStream {
    /// Decoding state of the underlying inflate algorithm.
    state: fdeflate::Decompressor,
    /// Whether a decompression step has run since the last reset.
    started: bool,
    /// Staged input: bytes accepted from the caller but not yet consumed by
    /// the decompressor.  Filled only when a decompression call left fresh
    /// input unconsumed, keeping the common path copy-free.
    pending: Vec<u8>,
    /// Output ring: the bytes at `..out_pos` are the most recently produced
    /// bytes, kept for back-references.
    out_buffer: Vec<u8>,
    /// First index of `out_buffer` where new data can be written.
    out_pos: usize,
    /// First index of `out_buffer` not yet handed to the caller's sink.
    read_pos: usize,
    /// Cap on the total output, derived from the header metadata; used to
    /// avoid allocating more ring space than the image can fill.  A
    /// miscalculated cap (malformed header) is dropped rather than enforced.
    max_total_output: usize,
    /// Predicted size of the next read, derived from the expected scanline
    /// length; `0` until the header metadata is known.
    predicted_read_size: usize,
    /// Skip the Adler-32 check of the stream trailer.  Must be chosen before
    /// decompression starts.
    ignore_adler: bool,
    /// All bytes ever reported to the caller as consumed.
    fed_bytes: Ghost<Seq<u8>>,
}

impl ZlibStream {
    /// The bytes this manager has accepted (reported as consumed) so far.
    pub closed spec fn fed(&self) -> Seq<u8> {
        self.fed_bytes@
    }

    /// The decompressed bytes produced and delivered so far.
    pub closed spec fn produced(&self) -> Seq<u8> {
        dec_emitted(self.state)
    }

    /// Whether the compressed stream has been fully decoded.
    pub closed spec fn done(&self) -> bool {
        dec_done(self.state)
    }

    /// Whether a decompression step has run since the last reset.
    pub closed spec fn started(&self) -> bool {
        self.started
    }

    /// The configured Adler-32 skip flag.
    pub closed spec fn ignores_adler32(&self) -> bool {
        self.ignore_adler
    }

    /// Number of staged input bytes not yet consumed by the decompressor.
    pub closed spec fn staged_len(&self) -> nat {
        self.pending@.len()
    }

    /// Bytes the compressed prefix consumed so far still owes: determined
    /// but not yet produced.  A termination measure for flush loops.
    pub closed spec fn backlog(&self) -> int {
        inflate_of(dec_consumed(self.state)).len() - dec_emitted(self.state).len()
    }

    /// Well-formedness: the output ring ends with the most recently produced
    /// bytes and — while more input may arrive — holds at least the full
    /// lookback window of them (`min(LOOKBACK_SIZE, produced)`), so queued
    /// back-references always resolve inside genuine history; everything
    /// produced has been delivered; the staged input accounts exactly for
    /// the gap between accepted and consumed bytes; and once the stream has
    /// ended, the delivered output is exactly what the fed bytes determine.
    pub closed spec fn wf(&self) -> bool {
        &&& self.read_pos == self.out_pos
        &&& self.out_pos <= self.out_buffer@.len()
        &&& self.out_pos <= dec_emitted(self.state).len()
        &&& self.out_buffer@.subrange(0, self.out_pos as int) == dec_emitted(self.state).skip(
            dec_emitted(self.state).len() - self.out_pos as int,
        )
        &&& self.out_pos <= COMPACT_THRESHOLD
        &&& (!dec_done(self.state) ==> self.out_pos >= LOOKBACK_SIZE || self.out_pos as int
            >= dec_emitted(self.state).len())
        &&& self.predicted_read_size <= PREDICTED_READ_CAP
        &&& self.pending@.len() <= STAGED_INPUT_CAPACITY
        &&& (!dec_done(self.state) ==> self.fed_bytes@ == dec_consumed(self.state)
            + self.pending@)
        &&& (dec_done(self.state) ==> self.pending@.len() == 0 && dec_consumed(
            self.state,
        ).is_prefix_of(self.fed_bytes@))
        &&& (!self.started ==> dec_consumed(self.state) == Seq::<u8>::empty() && dec_emitted(
            self.state,
        ) == Seq::<u8>::empty() && !dec_done(self.state) && self.pending@.len() == 0
            && self.fed_bytes@ == Seq::<u8>::empty() && inflate_of(self.fed_bytes@) == Seq::<
            u8,
        >::empty())
        &&& (!self.started ==> dec_strict(self.state))
        &&& (self.started ==> dec_strict(self.state) == !self.ignore_adler)
        &&& (dec_done(self.state) ==> dec_emitted(self.state) == inflate_of(self.fed_bytes@)
            && inflate_ended(self.fed_bytes@, !self.ignore_adler))
    }

    /// A fresh manager: nothing fed, nothing produced, Adler-32 checking
    /// off by default.
    pub fn new() -> (r: Self)
        ensures
            r.wf(),
            !r.started(),
            !r.done(),
            r.fed() == Seq::<u8>::empty(),
            r.produced() == Seq::<u8>::empty(),
            r.ignores_adler32(),
            r.backlog() == 0,
            inflate_prefix_facts(),
    {
        ZlibStream {
            state: decompressor_new(),
            started: false,
            pending: Vec::new(),
            out_buffer: Vec::new(),
            out_pos: 0,
            read_pos: 0,
            max_total_output: usize::MAX,
            predicted_read_size: 0,
            ignore_adler: true,
            fed_bytes: Ghost(Seq::empty()),
        }
    }

    /// Return to the fresh state, reinitialising the decompression state
    /// while keeping the backing storage of the buffers and the configured
    /// Adler-32 flag.
    pub fn reset(&mut self)
        ensures
            final(self).wf(),
            !final(self).started(),
            !final(self).done(),
            final(self).fed() == Seq::<u8>::empty(),
            final(self).produced() == Seq::<u8>::empty(),
            final(self).ignores_adler32() == old(self).ignores_adler32(),
            final(self).backlog() == 0,
            final(self).staged_len() == 0,
    {
        self.state = decompressor_new();
        self.started = false;
        self.pending.clear();
        self.out_buffer.clear();
        self.out_pos = 0;
        self.read_pos = 0;
        self.max_total_output = usize::MAX;
        self.predicted_read_size = 0;
        self.fed_bytes = Ghost(Seq::empty());
    }

    /// Cap the total number of bytes that will be decompressed; a
    /// performance hint that avoids over-allocating the output ring.
    pub fn set_max_total_output(&mut self, n: usize)
        ensures
            old(self).wf() ==> final(self).wf(),
            final(self).fed() == old(self).fed(),
            final(self).produced() == old(self).produced(),
            final(self).done() == old(self).done(),
            final(self).started() == old(self).started(),
            final(self).ignores_adler32() == old(self).ignores_adler32(),
            final(self).backlog() == old(self).backlog(),
            final(self).staged_len() == old(self).staged_len(),
    {
        self.max_total_output = n;
    }

    /// Record the expected scanline length so that ring growth matches the
    /// row-oriented consumption pattern: the next read is predicted to need
    /// `max(1024, row_length + 8)` bytes.
    pub fn set_expected_row_length(&mut self, row_length: usize)
        ensures
            old(self).wf() ==> final(self).wf(),
            final(self).fed() == old(self).fed(),
            final(self).produced() == old(self).produced(),
            final(self).done() == old(self).done(),
            final(self).started() == old(self).started(),
            final(self).ignores_adler32() == old(self).ignores_adler32(),
            final(self).backlog() == old(self).backlog(),
            final(self).staged_len() == old(self).staged_len(),
    {
        let predicted = if row_length > PREDICTED_READ_CAP - 8 {
            PREDICTED_READ_CAP
        } else if row_length + 8 < 1024 {
            1024
        } else {
            row_length + 8
        };
        self.predicted_read_size = predicted;
    }

    /// Set the Adler-32 skip flag and report whether it was applied: the
    /// flag is frozen once decompression has started, and a late change is
    /// rejected with `false` rather than silently applied.
    pub fn set_ignore_adler32(&mut self, flag: bool) -> (r: bool)
        ensures
            old(self).wf() ==> final(self).wf(),
            r == !old(self).started(),
            r ==> final(self).ignores_adler32() == flag,
            !r ==> final(self).ignores_adler32() == old(self).ignores_adler32(),
            final(self).fed() == old(self).fed(),
            final(self).produced() == old(self).produced(),
            final(self).done() == old(self).done(),
            final(self).started() == old(self).started(),
            final(self).backlog() == old(self).backlog(),
            final(self).staged_len() == old(self).staged_len(),
    {
        if !self.started {
            self.ignore_adler = flag;
            true
        } else {
            false
        }
    }

    /// The configured Adler-32 skip flag.
    pub fn ignore_adler32(&self) -> (r: bool)
        ensures
            r == self.ignores_adler32(),
    {
        self.ignore_adler
    }

    /// Grow the output ring so a decompression step has room: by the
    /// predicted read size once known, else by the fixed increment, but
    /// never past the expected total output.
    fn prepare_vec_for_appending(&mut self)
        requires
            old(self).read_pos == old(self).out_pos,
            old(self).out_pos <= old(self).out_buffer@.len(),
            old(self).out_pos <= dec_emitted(old(self).state).len(),
            old(self).out_buffer@.subrange(0, old(self).out_pos as int) == dec_emitted(
                old(self).state,
            ).skip(dec_emitted(old(self).state).len() - old(self).out_pos as int),
            old(self).out_pos <= COMPACT_THRESHOLD,
            old(self).predicted_read_size <= PREDICTED_READ_CAP,
        ensures
            final(self).read_pos == final(self).out_pos == old(self).out_pos,
            final(self).out_pos < final(self).out_buffer@.len(),
            final(self).out_pos <= dec_emitted(final(self).state).len(),
            final(self).out_buffer@.subrange(0, final(self).out_pos as int) == dec_emitted(final(self).state).skip(
                dec_emitted(final(self).state).len() - final(self).out_pos as int,
            ),
            final(self).state == old(self).state,
            final(self).pending == old(self).pending,
            final(self).fed_bytes == old(self).fed_bytes,
            final(self).started == old(self).started,
            final(self).ignore_adler == old(self).ignore_adler,
            final(self).predicted_read_size == old(self).predicted_read_size,
    {
        if self.out_pos >= self.max_total_output {
            // The cap was miscalculated (e.g. the header chunk did not match
            // the image data); stop enforcing it rather than stall.
            self.max_total_output = usize::MAX;
        }
        let increment = if self.predicted_read_size > 0 {
            self.predicted_read_size
        } else {
            MAX_INCREMENTAL_DECOMPRESSION_SIZE
        };
        let desired = self.out_pos + increment;
        let desired = if desired > self.max_total_output {
            self.max_total_output
        } else {
            desired
        };
        if self.out_buffer.len() < desired {
            let ghost pre = self.out_buffer@;
            self.out_buffer.resize(desired, 0u8);
            assert(self.out_buffer@.subrange(0, self.out_pos as int) =~= pre.subrange(
                0,
                self.out_pos as int,
            ));
        }
    }

    /// Hand every produced-but-undelivered byte of the ring to the sink.
    fn transfer_finished_data(&mut self, image_data: &mut Vec<u8>)
        requires
            old(self).read_pos <= old(self).out_pos,
            old(self).out_pos <= old(self).out_buffer@.len(),
        ensures
            final(image_data)@ == old(image_data)@ + old(self).out_buffer@.subrange(
                old(self).read_pos as int,
                old(self).out_pos as int,
            ),
            final(self).read_pos == final(self).out_pos,
            final(self).out_pos == old(self).out_pos,
            final(self).out_buffer == old(self).out_buffer,
            final(self).state == old(self).state,
            final(self).pending == old(self).pending,
            final(self).fed_bytes == old(self).fed_bytes,
            final(self).started == old(self).started,
            final(self).ignore_adler == old(self).ignore_adler,
            final(self).max_total_output == old(self).max_total_output,
            final(self).predicted_read_size == old(self).predicted_read_size,
    {
        append_range(image_data, self.out_buffer.as_slice(), self.read_pos, self.out_pos);
        self.read_pos = self.out_pos;
    }

    /// Discard ring bytes that are both delivered and older than the
    /// lookback window, once enough bytes accumulated to keep the amortized
    /// copy cost linear.
    fn compact_out_buffer_if_needed(&mut self)
        requires
            old(self).read_pos == old(self).out_pos,
            old(self).out_pos <= old(self).out_buffer@.len(),
            old(self).out_pos <= dec_emitted(old(self).state).len(),
            old(self).out_buffer@.subrange(0, old(self).out_pos as int) == dec_emitted(
                old(self).state,
            ).skip(dec_emitted(old(self).state).len() - old(self).out_pos as int),
        ensures
            final(self).read_pos == final(self).out_pos,
            final(self).out_pos <= final(self).out_buffer@.len(),
            final(self).out_pos <= dec_emitted(final(self).state).len(),
            final(self).out_buffer@.subrange(0, final(self).out_pos as int) == dec_emitted(final(self).state).skip(
                dec_emitted(final(self).state).len() - final(self).out_pos as int,
            ),
            final(self).out_pos <= COMPACT_THRESHOLD,
            old(self).out_pos <= COMPACT_THRESHOLD ==> *final(self) == *old(self),
            old(self).out_pos > COMPACT_THRESHOLD ==> final(self).out_pos == LOOKBACK_SIZE
                && final(self).out_buffer@ == old(self).out_buffer@.subrange(
                old(self).out_pos - LOOKBACK_SIZE,
                old(self).out_pos as int,
            ),
            final(self).out_pos >= LOOKBACK_SIZE || final(self).out_pos == old(self).out_pos,
            final(self).state == old(self).state,
            final(self).pending == old(self).pending,
            final(self).fed_bytes == old(self).fed_bytes,
            final(self).started == old(self).started,
            final(self).ignore_adler == old(self).ignore_adler,
            final(self).predicted_read_size == old(self).predicted_read_size,
    {
        if self.out_pos > COMPACT_THRESHOLD {
            let ghost emitted = dec_emitted(self.state);
            let ghost buf0 = self.out_buffer@;
            let ghost op0 = self.out_pos as int;
            let keep = self.out_pos - LOOKBACK_SIZE;
            shift_left(&mut self.out_buffer, keep, LOOKBACK_SIZE);
            self.out_buffer.truncate(LOOKBACK_SIZE);
            self.out_pos = LOOKBACK_SIZE;
            self.read_pos = LOOKBACK_SIZE;
            proof {
                assert forall|i: int| 0 <= i < LOOKBACK_SIZE as int implies self.out_buffer@[i]
                    == emitted[emitted.len() - LOOKBACK_SIZE as int + i] by {
                    assert(self.out_buffer@[i] == buf0.subrange(
                        keep as int,
                        keep + LOOKBACK_SIZE as int,
                    )[i]);
                    assert(buf0[keep + i] == buf0.subrange(0, op0)[keep + i]);
                    assert(buf0.subrange(0, op0)[keep + i] == emitted.skip(
                        emitted.len() - op0,
                    )[keep + i]);
                }
                assert(self.out_buffer@.subrange(0, LOOKBACK_SIZE as int) =~= emitted.skip(
                    emitted.len() - LOOKBACK_SIZE as int,
                ));
                assert(self.out_buffer@ =~= buf0.subrange(op0 - LOOKBACK_SIZE as int, op0));
            }
        }
    }

    /// A completed stream's final facts: the delivered output is exactly
    /// what the fed bytes determine, a complete stream (under the given
    /// strictness) stands in them, and neither changes however the fed
    /// bytes are extended.
    pub open spec fn stream_complete(fed: Seq<u8>, out: Seq<u8>, strict: bool) -> bool {
        &&& out == inflate_of(fed)
        &&& inflate_ended(fed, strict)
        &&& (forall|ext: Seq<u8>|
            fed.is_prefix_of(ext) ==> #[trigger] inflate_of(ext) == inflate_of(fed)
                && inflate_ended(ext, strict))
    }

    /// What a successful decompression step promises, over the pre and
    /// post states, the supplied bytes and the sink contents: accepted
    /// bytes extend what was fed, every newly produced byte lands in the
    /// sink, the output is pinned to `inflate_of` of the fed bytes, zero
    /// acceptance only happens with empty input or full staging, and even
    /// then the step moved staged bytes or the backlog forward.
    pub open spec fn decompress_ok(
        pre: ZlibStream,
        post: ZlibStream,
        data: Seq<u8>,
        img_pre: Seq<u8>,
        img_post: Seq<u8>,
        n: usize,
    ) -> bool {
        &&& n <= data.len()
        &&& post.fed() == pre.fed() + data.take(n as int)
        &&& pre.produced().is_prefix_of(post.produced())
        &&& img_post == img_pre + post.produced().skip(pre.produced().len() as int)
        &&& post.ignores_adler32() == pre.ignores_adler32()
        &&& (n == 0 ==> data.len() == 0 || pre.staged_len() == STAGED_INPUT_CAPACITY)
        &&& (!post.done() ==> post.started() && post.produced().is_prefix_of(
            inflate_of(post.fed()),
        ))
        &&& (!pre.done() && post.done() ==> Self::stream_complete(
            post.fed(),
            post.produced(),
            !post.ignores_adler32(),
        ))
        &&& (pre.done() ==> post.done() && n == data.len() && post.produced() == pre.produced()
            && img_post == img_pre)
        &&& (n == 0 && data.len() > 0 ==> {
            ||| post.staged_len() < pre.staged_len()
            ||| (post.staged_len() == pre.staged_len() && post.backlog() < pre.backlog())
        })
    }

    /// What a failed decompression step leaves behind: the sink untouched,
    /// a format error carrying the decompressor's diagnostic, and the
    /// manager reset to a fresh state (the session is aborted; bytes
    /// already delivered are not retracted), keeping the configured
    /// Adler-32 flag.
    pub open spec fn decompress_err(
        pre: ZlibStream,
        post: ZlibStream,
        img_pre: Seq<u8>,
        img_post: Seq<u8>,
        e: DecodingError,
    ) -> bool {
        &&& img_post == img_pre
        &&& e matches DecodingError::Format(FormatError::CorruptFlateStream { .. })
        &&& !post.started()
        &&& !post.done()
        &&& post.fed() == Seq::<u8>::empty()
        &&& post.produced() == Seq::<u8>::empty()
        &&& post.staged_len() == 0
        &&& post.backlog() == 0
        &&& post.ignores_adler32() == pre.ignores_adler32()
    }

    /// Decompress as much of `data` as can currently be accepted, delivering
    /// every produced byte into `image_data` and returning the number of
    /// accepted input bytes.
    ///
    /// Acceptance means the caller must not resend those bytes: they were
    /// consumed by the decompressor, staged for the next step, or — once the
    /// stream has ended — discarded as trailing garbage.  The return value
    /// is `0` only when `data` is empty or the staged input is at capacity,
    /// so a caller that supplies bytes is never stalled silently.  The
    /// full promise is [`ZlibStream::decompress_ok`] on success and
    /// [`ZlibStream::decompress_err`] on failure; a step over bytes that
    /// are a valid stream prefix (or contain a complete stream) is owed
    /// success.
    pub fn decompress(&mut self, data: &[u8], image_data: &mut Vec<u8>) -> (r: Result<
        usize,
        DecodingError,
    >)
        requires
            old(self).wf(),
        ensures
            final(self).wf(),
            old(self).backlog() >= 0 ==> final(self).backlog() >= 0,
            old(self).done() || inflate_ended(
                old(self).fed() + data@,
                !old(self).ignores_adler32(),
            ) || inflate_valid(old(self).fed() + data@, !old(self).ignores_adler32()) ==> r
                is Ok,
            r matches Ok(n) ==> Self::decompress_ok(
                *old(self),
                *final(self),
                data@,
                old(image_data)@,
                final(image_data)@,
                n,
            ),
            r matches Err(e) ==> Self::decompress_err(
                *old(self),
                *final(self),
                old(image_data)@,
                final(image_data)@,
                e,
            ),
    {
        if decompressor_is_done(&self.state) {
            // Trailing bytes after the end of the compressed stream carry no
            // image data; accept and ignore them.  The read call returns at
            // once on a completed decompressor and restates its final-state
            // facts.
            let refresh = decompressor_read(
                &mut self.state,
                data,
                &mut self.out_buffer,
                self.out_pos,
                false,
            );
            proof {
                assert(refresh is Ok);
                assert(self.fed_bytes@ + data@.take(data@.len() as int) =~= self.fed_bytes@
                    + data@);
            }
            self.fed_bytes = Ghost(self.fed_bytes@ + data@);
            proof {
                assert(old(self).fed_bytes@.is_prefix_of(self.fed_bytes@)) by {
                    assert(old(self).fed_bytes@ =~= self.fed_bytes@.subrange(
                        0,
                        old(self).fed_bytes@.len() as int,
                    ));
                }
                lemma_prefix_transitive(
                    dec_consumed(self.state),
                    old(self).fed_bytes@,
                    self.fed_bytes@,
                );
                assert(inflate_of(self.fed_bytes@) == inflate_of(dec_consumed(self.state)));
                assert(image_data@ =~= old(image_data)@ + self.produced().skip(
                    old(self).produced().len() as int,
                ));
                assert(old(self).produced().is_prefix_of(self.produced()));
            }
            return Ok(data.len());
        }
        if self.pending.len() == 0 {
            self.decompress_fresh(data, image_data)
        } else {
            self.decompress_buffered(data, image_data)
        }
    }

    /// The decompression step when no input is staged: feed the fresh slice
    /// directly, and stage it only if the decompressor made zero input
    /// progress, keeping the common path copy-free.
    #[verifier::rlimit(100)]
    #[verifier::spinoff_prover]
    fn decompress_fresh(&mut self, data: &[u8], image_data: &mut Vec<u8>) -> (r: Result<
        usize,
        DecodingError,
    >)
        requires
            old(self).wf(),
            old(self).pending@.len() == 0,
            !dec_done(old(self).state),
        ensures
            final(self).wf(),
            old(self).backlog() >= 0 ==> final(self).backlog() >= 0,
            old(self).done() || inflate_ended(
                old(self).fed() + data@,
                !old(self).ignores_adler32(),
            ) || inflate_valid(old(self).fed() + data@, !old(self).ignores_adler32()) ==> r
                is Ok,
            r matches Ok(n) ==> Self::decompress_ok(
                *old(self),
                *final(self),
                data@,
                old(image_data)@,
                final(image_data)@,
                n,
            ),
            r matches Err(e) ==> Self::decompress_err(
                *old(self),
                *final(self),
                old(image_data)@,
                final(image_data)@,
                e,
            ),
    {
        self.prepare_vec_for_appending();
        if !self.started && self.ignore_adler {
            decompressor_ignore_adler32(&mut self.state);
        }
        self.started = true;
        proof {
            assert(dec_strict(self.state) == !self.ignore_adler);
        }
        let n: usize;
        let ghost fed0 = self.fed_bytes@;
        let ghost consumed0 = dec_consumed(self.state);
        let rr = decompressor_read(&mut self.state, data, &mut self.out_buffer, self.out_pos, false);
        match rr {
            Ok((ic, oc)) => {
                let cap = self.out_buffer.len();
                assert(self.out_pos + oc <= cap);
                self.out_pos = self.out_pos + oc;
                if ic == 0 && data.len() > 0 {
                    let stage = if data.len() > STAGED_INPUT_CAPACITY {
                        STAGED_INPUT_CAPACITY
                    } else {
                        data.len()
                    };
                    append_range(&mut self.pending, data, 0, stage);
                    n = stage;
                } else {
                    n = ic;
                }
                self.fed_bytes = Ghost(fed0 + data@.take(n as int));
                proof {
                    assert(dec_consumed(self.state) + self.pending@ =~= fed0 + data@.take(
                        n as int,
                    ));
                    assert(self.out_buffer@.subrange(0, self.out_pos as int) =~= dec_emitted(
                        self.state,
                    ).skip(dec_emitted(self.state).len() - self.out_pos as int));
                }
            }
            Err(e) => {
                proof {
                    assert(consumed0 + data@ =~= old(self).fed() + data@);
                }
                self.reset();
                return Err(DecodingError::Format(FormatError::CorruptFlateStream { err: e }));
            }
        }
        self.deliver_and_compact(image_data);
        proof {
            assert(dec_strict(self.state) == !self.ignore_adler);
            assert(old(self).produced().is_prefix_of(self.produced())) by {
                assert(old(self).produced() =~= self.produced().subrange(
                    0,
                    old(self).produced().len() as int,
                ));
            }
            assert(dec_consumed(self.state).is_prefix_of(self.fed_bytes@)) by {
                assert(dec_consumed(self.state) =~= self.fed_bytes@.subrange(
                    0,
                    dec_consumed(self.state).len() as int,
                ));
            }
            if dec_done(self.state) {
                assert(dec_emitted(self.state) == inflate_of(dec_consumed(self.state)));
                assert(inflate_ended(dec_consumed(self.state), !self.ignore_adler));
                assert forall|ext: Seq<u8>|
                    dec_consumed(self.state).is_prefix_of(ext) implies #[trigger] inflate_of(ext)
                    == inflate_of(dec_consumed(self.state)) && inflate_ended(
                    ext,
                    !self.ignore_adler,
                ) by {
                    assert(inflate_of(ext) == inflate_of(dec_consumed(self.state)));
                }
            }
            self.lemma_step_post(*old(self), n);
            assert(image_data@ =~= old(image_data)@ + self.produced().skip(
                old(self).produced().len() as int,
            ));
        }
        Ok(n)
    }

    /// The decompression step while staged input waits: top the staging
    /// buffer up from the fresh slice and feed the staged bytes.
    #[verifier::rlimit(100)]
    #[verifier::spinoff_prover]
    fn decompress_buffered(&mut self, data: &[u8], image_data: &mut Vec<u8>) -> (r: Result<
        usize,
        DecodingError,
    >)
        requires
            old(self).wf(),
            old(self).pending@.len() > 0,
            !dec_done(old(self).state),
        ensures
            final(self).wf(),
            old(self).backlog() >= 0 ==> final(self).backlog() >= 0,
            old(self).done() || inflate_ended(
                old(self).fed() + data@,
                !old(self).ignores_adler32(),
            ) || inflate_valid(old(self).fed() + data@, !old(self).ignores_adler32()) ==> r
                is Ok,
            r matches Ok(n) ==> Self::decompress_ok(
                *old(self),
                *final(self),
                data@,
                old(image_data)@,
                final(image_data)@,
                n,
            ),
            r matches Err(e) ==> Self::decompress_err(
                *old(self),
                *final(self),
                old(image_data)@,
                final(image_data)@,
                e,
            ),
    {
        self.prepare_vec_for_appending();
        if !self.started && self.ignore_adler {
            decompressor_ignore_adler32(&mut self.state);
        }
        self.started = true;
        proof {
            assert(dec_strict(self.state) == !self.ignore_adler);
        }
        let ghost fed0 = self.fed_bytes@;
        let room = STAGED_INPUT_CAPACITY - self.pending.len();
        let take = if data.len() > room {
            room
        } else {
            data.len()
        };
        append_range(&mut self.pending, data, 0, take);
        let n: usize = take;
        self.fed_bytes = Ghost(fed0 + data@.take(n as int));
        let ghost pending1 = self.pending@;
        let ghost consumed1 = dec_consumed(self.state);
        let ghost emitted1 = dec_emitted(self.state);
        let ghost out_pos1 = self.out_pos;
        let ghost out_len1 = self.out_buffer@.len();
        let rr = decompressor_read(
            &mut self.state,
            self.pending.as_slice(),
            &mut self.out_buffer,
            self.out_pos,
            false,
        );
        match rr {
            Ok((ic, oc)) => {
                let cap = self.out_buffer.len();
                assert(self.out_pos + oc <= cap);
                self.out_pos = self.out_pos + oc;
                drop_prefix(&mut self.pending, ic);
                proof {
                    assert(pending1.take(ic as int) + pending1.skip(ic as int) =~= pending1);
                    assert(dec_consumed(self.state) + self.pending@ =~= fed0 + data@.take(
                        n as int,
                    ));
                    assert(self.out_buffer@.subrange(0, self.out_pos as int) =~= dec_emitted(
                        self.state,
                    ).skip(dec_emitted(self.state).len() - self.out_pos as int));
                    if n == 0 && data@.len() > 0 {
                        // The staging buffer was full; either the step
                        // consumed staged bytes or it filled the output
                        // ring, shrinking the backlog.
                        assert(pending1.len() == STAGED_INPUT_CAPACITY);
                        if ic == 0 && !dec_done(self.state) {
                            assert(out_pos1 + oc == out_len1);
                            assert(oc > 0);
                            assert(dec_consumed(self.state) =~= consumed1);
                            assert(inflate_of(dec_consumed(self.state)) == inflate_of(consumed1));
                            assert(dec_emitted(self.state).len() == emitted1.len() + oc);
                        }
                    }
                }
            }
            Err(e) => {
                proof {
                    assert((consumed1 + pending1).is_prefix_of(old(self).fed() + data@)) by {
                        assert(consumed1 + pending1 =~= (old(self).fed() + data@).subrange(
                            0,
                            consumed1.len() + pending1.len() as int,
                        ));
                    }
                }
                self.reset();
                return Err(DecodingError::Format(FormatError::CorruptFlateStream { err: e }));
            }
        }
        self.deliver_and_compact(image_data);
        proof {
            assert(dec_strict(self.state) == !self.ignore_adler);
            assert(old(self).produced().is_prefix_of(self.produced())) by {
                assert(old(self).produced() =~= self.produced().subrange(
                    0,
                    old(self).produced().len() as int,
                ));
            }
            assert(dec_consumed(self.state).is_prefix_of(self.fed_bytes@)) by {
                assert(dec_consumed(self.state) =~= self.fed_bytes@.subrange(
                    0,
                    dec_consumed(self.state).len() as int,
                ));
            }
            if dec_done(self.state) {
                assert(dec_emitted(self.state) == inflate_of(dec_consumed(self.state)));
                assert(inflate_ended(dec_consumed(self.state), !self.ignore_adler));
                assert forall|ext: Seq<u8>|
                    dec_consumed(self.state).is_prefix_of(ext) implies #[trigger] inflate_of(ext)
                    == inflate_of(dec_consumed(self.state)) && inflate_ended(
                    ext,
                    !self.ignore_adler,
                ) by {
                    assert(inflate_of(ext) == inflate_of(dec_consumed(self.state)));
                }
            }
            self.lemma_step_post(*old(self), n);
            assert(image_data@ =~= old(image_data)@ + self.produced().skip(
                old(self).produced().len() as int,
            ));
        }
        Ok(n)
    }

    /// Common tail of a decompression step: hand the produced bytes to the
    /// sink, drop trailing staged garbage once the stream has ended, and
    /// compact the ring.
    fn deliver_and_compact(&mut self, image_data: &mut Vec<u8>)
        requires
            old(self).read_pos <= old(self).out_pos,
            old(self).out_pos <= old(self).out_buffer@.len(),
            old(self).out_pos <= dec_emitted(old(self).state).len(),
            old(self).out_buffer@.subrange(0, old(self).out_pos as int) == dec_emitted(
                old(self).state,
            ).skip(dec_emitted(old(self).state).len() - old(self).out_pos as int),
            !dec_done(old(self).state) ==> old(self).out_pos >= LOOKBACK_SIZE
                || old(self).out_pos as int >= dec_emitted(old(self).state).len(),
        ensures
            final(self).read_pos == final(self).out_pos,
            final(self).out_pos <= final(self).out_buffer@.len(),
            final(self).out_pos <= dec_emitted(final(self).state).len(),
            final(self).out_pos <= COMPACT_THRESHOLD,
            !dec_done(final(self).state) ==> final(self).out_pos >= LOOKBACK_SIZE
                || final(self).out_pos as int >= dec_emitted(final(self).state).len(),
            final(self).out_buffer@.subrange(0, final(self).out_pos as int) == dec_emitted(
                final(self).state,
            ).skip(dec_emitted(final(self).state).len() - final(self).out_pos as int),
            final(self).state == old(self).state,
            final(self).fed_bytes == old(self).fed_bytes,
            final(self).started == old(self).started,
            final(self).ignore_adler == old(self).ignore_adler,
            final(self).predicted_read_size == old(self).predicted_read_size,
            dec_done(final(self).state) ==> final(self).pending@.len() == 0,
            !dec_done(final(self).state) ==> final(self).pending == old(self).pending,
            final(image_data)@ == old(image_data)@ + old(self).out_buffer@.subrange(
                old(self).read_pos as int,
                old(self).out_pos as int,
            ),
    {
        self.transfer_finished_data(image_data);
        if decompressor_is_done(&self.state) {
            self.pending.clear();
        }
        self.compact_out_buffer_if_needed();
    }

    /// Re-establish the step promise from the state right after delivery.
    proof fn lemma_step_post(&self, pre: ZlibStream, n: usize)
        requires
            self.read_pos == self.out_pos,
            self.out_pos <= self.out_buffer@.len(),
            self.out_pos <= COMPACT_THRESHOLD,
            self.out_pos <= dec_emitted(self.state).len(),
            !dec_done(self.state) ==> self.out_pos >= LOOKBACK_SIZE || self.out_pos as int
                >= dec_emitted(self.state).len(),
            self.out_buffer@.subrange(0, self.out_pos as int) == dec_emitted(self.state).skip(
                dec_emitted(self.state).len() - self.out_pos as int,
            ),
            self.predicted_read_size <= PREDICTED_READ_CAP,
            self.pending@.len() <= STAGED_INPUT_CAPACITY,
            !dec_done(self.state) ==> self.fed_bytes@ == dec_consumed(self.state) + self.pending@,
            dec_done(self.state) ==> self.pending@.len() == 0,
            dec_emitted(self.state).is_prefix_of(inflate_of(dec_consumed(self.state))),
            forall|ext: Seq<u8>|
                dec_consumed(self.state).is_prefix_of(ext) ==> inflate_of(
                    dec_consumed(self.state),
                ).is_prefix_of(#[trigger] inflate_of(ext)),
            dec_done(self.state) ==> {
                &&& dec_emitted(self.state) == inflate_of(dec_consumed(self.state))
                &&& inflate_ended(dec_consumed(self.state), !self.ignore_adler)
                &&& (forall|ext: Seq<u8>|
                    dec_consumed(self.state).is_prefix_of(ext) ==> #[trigger] inflate_of(ext)
                        == inflate_of(dec_consumed(self.state)) && inflate_ended(
                        ext,
                        !self.ignore_adler,
                    ))
            },
            self.started,
            dec_strict(self.state) == !self.ignore_adler,
            pre.produced().is_prefix_of(self.produced()),
            dec_consumed(self.state).is_prefix_of(self.fed_bytes@),
        ensures
            self.wf(),
            !self.done() ==> self.produced().is_prefix_of(inflate_of(self.fed())),
            !pre.done() && self.done() ==> Self::stream_complete(
                self.fed(),
                self.produced(),
                !self.ignore_adler,
            ),
    {
        if !self.done() {
            lemma_prefix_transitive(
                self.produced(),
                inflate_of(dec_consumed(self.state)),
                inflate_of(self.fed()),
            );
        } else {
            assert(inflate_of(self.fed()) == inflate_of(dec_consumed(self.state)));
            assert(inflate_ended(self.fed(), !self.ignore_adler));
            assert forall|ext: Seq<u8>| self.fed().is_prefix_of(ext) implies #[trigger]
                inflate_of(ext) == inflate_of(self.fed()) && inflate_ended(
                ext,
                !self.ignore_adler,
            ) by {
                lemma_prefix_transitive(dec_consumed(self.state), self.fed(), ext);
                assert(dec_consumed(self.state).is_prefix_of(ext));
                assert(inflate_of(ext) == inflate_of(dec_consumed(self.state)));
                assert(inflate_ended(ext, !self.ignore_adler));
            }
        }
    }

    /// Finish the compressed stream: flush everything the decompressor still
    /// withholds and check that the stream really ended.  Must be called
    /// exactly once, after the last compressed byte was accepted.  Success
    /// is owed whenever nothing was fed, the stream already ended, or the
    /// fed bytes contain a complete stream.
    ///
    /// Each finishing pass either consumes staged input or produces new
    /// output — the loop's verified termination measure — and otherwise the
    /// call fails with the decompressor's distinct insufficient-input
    /// diagnostic and resets the manager.
    #[verifier::rlimit(100)]
    #[verifier::spinoff_prover]
    pub fn finish_compressed_chunks(&mut self, image_data: &mut Vec<u8>) -> (r: Result<
        (),
        DecodingError,
    >)
        requires
            old(self).wf(),
        ensures
            final(self).wf(),
            old(self).backlog() >= 0 ==> final(self).backlog() >= 0,
            final(self).ignores_adler32() == old(self).ignores_adler32(),
            old(image_data)@.is_prefix_of(final(image_data)@),
            !old(self).started() || old(self).done() || inflate_ended(
                old(self).fed(),
                !old(self).ignores_adler32(),
            ) ==> r is Ok,
            r is Ok && final(self).fed().len() > 0 ==> inflate_ended(
                final(self).fed(),
                !final(self).ignores_adler32(),
            ),
            r matches Err(e) ==> {
                &&& e matches DecodingError::Format(FormatError::CorruptFlateStream { .. })
                &&& !final(self).started()
                &&& !final(self).done()
                &&& final(self).fed() == Seq::<u8>::empty()
                &&& final(self).produced() == Seq::<u8>::empty()
                &&& final(self).staged_len() == 0
                &&& final(self).backlog() == 0
                &&& final(self).ignores_adler32() == old(self).ignores_adler32()
            },
            r matches Ok(_) ==> {
                &&& final(self).produced() == inflate_of(final(self).fed())
                &&& final(image_data)@ == old(image_data)@ + final(self).produced().skip(
                    old(self).produced().len() as int,
                )
                &&& (!old(self).started() ==> *final(self) == *old(self) && final(image_data)@ == old(
                    image_data,
                )@)
                &&& (old(self).started() && !old(self).done() ==> {
                    &&& final(self).done()
                    &&& final(self).fed() == old(self).fed()
                    &&& final(self).produced() == inflate_of(final(self).fed())
                    &&& Self::stream_complete(
                        final(self).fed(),
                        final(self).produced(),
                        !final(self).ignores_adler32(),
                    )
                    &&& final(image_data)@ == old(image_data)@ + final(self).produced().skip(
                        old(self).produced().len() as int,
                    )
                })
                &&& (old(self).done() ==> final(self).done() && final(self).fed() == old(self).fed()
                    && final(self).produced() == old(self).produced() && final(image_data)@ == old(
                    image_data,
                )@)
            },
            r matches Err(e) ==> e matches DecodingError::Format(
                FormatError::CorruptFlateStream { .. },
            ),
    {
        if !self.started {
            proof {
                assert(image_data@ =~= old(image_data)@ + self.produced().skip(
                    old(self).produced().len() as int,
                ));
            }
            return Ok(());
        }
        let ghost was_done = self.done();
        let ghost produced0 = self.produced();
        proof {
            assert(old(image_data)@.is_prefix_of(image_data@)) by {
                assert(old(image_data)@ =~= image_data@.subrange(0, old(image_data)@.len() as int));
            }
            assert(image_data@ =~= old(image_data)@ + self.produced().skip(produced0.len() as int));
            assert(produced0.is_prefix_of(self.produced())) by {
                assert(produced0 =~= self.produced().subrange(0, produced0.len() as int));
            }
        }
        loop
            invariant
                self.wf(),
                self.started,
                old(self).started(),
                was_done == old(self).done(),
                self.ignores_adler32() == old(self).ignores_adler32(),
                self.fed() == old(self).fed(),
                old(image_data)@.is_prefix_of(image_data@),
                !was_done ==> image_data@ == old(image_data)@ + self.produced().skip(
                    produced0.len() as int,
                ),
                !was_done ==> produced0.is_prefix_of(self.produced()),
                was_done ==> self.done() && self.produced() == produced0 && image_data@ == old(
                    image_data,
                )@,
            ensures
                self.wf(),
                self.started,
                self.done(),
                self.fed() == old(self).fed(),
                old(image_data)@.is_prefix_of(image_data@),
                !was_done ==> image_data@ == old(image_data)@ + self.produced().skip(
                    produced0.len() as int,
                ),
                was_done ==> self.produced() == produced0 && image_data@ == old(image_data)@,
            decreases
                self.pending@.len(),
                inflate_of(dec_consumed(self.state)).len() - dec_emitted(self.state).len(),
        {
            if decompressor_is_done(&self.state) {
                break;
            }
            // Each pass consumes staged input or fills the output ring
            // (shrinking the backlog); otherwise the decompressor fails
            // with its insufficient-input error, so the loop terminates.
            self.prepare_vec_for_appending();
            let ghost pending1 = self.pending@;
            let ghost consumed1 = dec_consumed(self.state);
            let ghost emitted1 = dec_emitted(self.state);
            let ghost out_pos1 = self.out_pos;
            let ghost out_len1 = self.out_buffer@.len();
            let rr = decompressor_read(
                &mut self.state,
                self.pending.as_slice(),
                &mut self.out_buffer,
                self.out_pos,
                true,
            );
            match rr {
                Ok((ic, oc)) => {
                    let cap = self.out_buffer.len();
                    assert(self.out_pos + oc <= cap);
                    self.out_pos = self.out_pos + oc;
                    drop_prefix(&mut self.pending, ic);
                    proof {
                        assert(pending1.take(ic as int) + pending1.skip(ic as int) =~= pending1);
                        assert(dec_consumed(self.state) + self.pending@ =~= old(self).fed());
                        assert(self.out_buffer@.subrange(0, self.out_pos as int) =~= dec_emitted(
                            self.state,
                        ).skip(dec_emitted(self.state).len() - self.out_pos as int));
                    }
                    self.transfer_finished_data(image_data);
                    proof {
                        assert(image_data@ =~= old(image_data)@ + self.produced().skip(
                            produced0.len() as int,
                        ));
                        assert(produced0.is_prefix_of(self.produced())) by {
                            assert(produced0 =~= self.produced().subrange(
                                0,
                                produced0.len() as int,
                            ));
                        }
                    }
                    if decompressor_is_done(&self.state) {
                        self.pending.clear();
                        proof {
                            assert(dec_consumed(self.state).is_prefix_of(self.fed_bytes@)) by {
                                assert(dec_consumed(self.state) =~= self.fed_bytes@.subrange(
                                    0,
                                    dec_consumed(self.state).len() as int,
                                ));
                            }
                            assert(inflate_of(self.fed()) == inflate_of(dec_consumed(self.state)));
                        }
                        self.compact_out_buffer_if_needed();
                        break;
                    }
                    self.compact_out_buffer_if_needed();
                    proof {
                        if ic == 0 {
                            assert(out_pos1 + oc == out_len1);
                            assert(oc > 0);
                            assert(dec_consumed(self.state) =~= consumed1);
                            assert(inflate_of(dec_consumed(self.state)) == inflate_of(consumed1));
                            assert(dec_emitted(self.state).len() == emitted1.len() + oc);
                        }
                    }
                }
                Err(e) => {
                    proof {
                        assert(consumed1 + pending1 =~= old(self).fed());
                    }
                    self.reset();
                    return Err(DecodingError::Format(FormatError::CorruptFlateStream { err: e }));
                }
            }
        }
        // The ring's history is no longer needed once the stream has ended.
        self.out_buffer.clear();
        self.out_pos = 0;
        self.read_pos = 0;
        proof {
            assert(self.out_buffer@.subrange(0, 0int) =~= dec_emitted(self.state).skip(
                dec_emitted(self.state).len() as int,
            ));
        }
        // One more read on the completed decompressor: it returns at once
        // and restates the final-state facts of the stream it decoded.
        let rr2 = decompressor_read(
            &mut self.state,
            self.pending.as_slice(),
            &mut self.out_buffer,
            0,
            true,
        );
        proof {
            assert(rr2 is Ok);
            assert(dec_strict(self.state) == !self.ignore_adler);
            if was_done {
                assert(self.produced() == inflate_of(self.fed()));
                assert(image_data@ =~= old(image_data)@ + self.produced().skip(
                    old(self).produced().len() as int,
                ));
            }
            if !was_done {
                assert(dec_done(self.state));
                assert(dec_strict(self.state) == !self.ignore_adler);
                assert(inflate_ended(dec_consumed(self.state), dec_strict(self.state)));
                assert(dec_consumed(self.state).is_prefix_of(self.fed())) by {
                    assert(dec_consumed(self.state) =~= self.fed().subrange(
                        0,
                        dec_consumed(self.state).len() as int,
                    ));
                }
                assert(inflate_of(self.fed()) == inflate_of(dec_consumed(self.state)));
                assert(self.produced() == inflate_of(self.fed()));
                assert(inflate_ended(self.fed(), !self.ignore_adler));
                assert forall|ext: Seq<u8>|
                    self.fed().is_prefix_of(ext) implies #[trigger] inflate_of(ext) == inflate_of(
                        self.fed(),
                    ) && inflate_ended(ext, !self.ignore_adler) by {
                    lemma_prefix_transitive(dec_consumed(self.state), self.fed(), ext);
                    assert(dec_consumed(self.state).is_prefix_of(ext));
                    assert(inflate_of(ext) == inflate_of(dec_consumed(self.state)));
                    assert(inflate_ended(ext, !self.ignore_adler));
                }
                lemma_stream_complete_intro(self.fed(), self.produced(), !self.ignore_adler);
            }
        }
        Ok(())
    }
}

/// Law: the delivered output of the inflate manager depends only on the
/// concatenation of the bytes fed to it, never on how the driver slices
/// them and never on the internal compaction thresholds.  Feeding `data`
/// cut into the consecutive piece lengths listed in `cuts` (with whatever
/// remains fed last) and then finishing yields exactly the bytes that the
/// compressed stream determines, and succeeds exactly on empty input or
/// input containing a complete stream — under the session's default
/// leniency, which does not check the Adler-32 trailer.
pub fn inflate_in_slices(data: &Vec<u8>, cuts: &Vec<usize>) -> (r: Result<Vec<u8>, DecodingError>)
    ensures
        r matches Ok(out) ==> out@ == inflate_of(data@),
        inflate_ended(data@, false) ==> r is Ok,
        r is Ok ==> data@.len() == 0 || inflate_ended(data@, false),
{
    let mut z = ZlibStream::new();
    let mut out: Vec<u8> = Vec::new();
    let mut pos: usize = 0;
    let mut ci: usize = 0;
    proof {
        assert(data@.take(0int) =~= Seq::<u8>::empty());
    }
    while pos < data.len()
        invariant
            z.wf(),
            inflate_prefix_facts(),
            pos <= data@.len(),
            ci <= cuts@.len(),
            z.backlog() >= 0,
            z.fed() == data@.take(pos as int),
            out@ == z.produced(),
            !z.done() ==> z.produced().is_prefix_of(inflate_of(z.fed())),
            z.ignores_adler32(),
            z.done() ==> ZlibStream::stream_complete(z.fed(), z.produced(), false),
        decreases
            data@.len() - pos,
            cuts@.len() - ci,
            z.staged_len(),
            z.backlog(),
    {
        // Liveness, not proved here: each pass accepts at least one byte
        // unless the staged input is full, and staged input always drains.
        let want = if ci < cuts.len() {
            let c = cuts[ci];
            ci = ci + 1;
            if c > data.len() - pos {
                data.len() - pos
            } else {
                c
            }
        } else {
            data.len() - pos
        };
        let piece = vstd::slice::slice_subrange(data.as_slice(), pos, pos + want);
        let ghost fed_before = z.fed();
        let ghost done_before = z.done();
        match z.decompress(piece, &mut out) {
            Ok(n) => {
                proof {
                    assert(fed_before + piece@.take(n as int) =~= data@.take(pos + n));
                }
                proof {
                    if done_before {
                        assert(z.fed().is_prefix_of(z.fed()) && fed_before.is_prefix_of(z.fed()));
                        assert(inflate_of(z.fed()) == inflate_of(fed_before));
                        assert forall|ext: Seq<u8>|
                            z.fed().is_prefix_of(ext) implies #[trigger] inflate_of(ext)
                            == inflate_of(z.fed()) && inflate_ended(ext, false) by {
                            lemma_prefix_transitive(fed_before, z.fed(), ext);
                        }
                        assert(ZlibStream::stream_complete(z.fed(), z.produced(), false));
                    }
                }
                pos = pos + n;
            }
            Err(e) => {
                proof {
                    // A failure refutes validity of the fed prefix, so the
                    // whole input cannot contain a complete stream.
                    assert(fed_before + piece@ =~= data@.take(pos + want));
                    assert((data@.take(pos + want)).is_prefix_of(data@)) by {
                        assert(data@.take(pos + want) =~= data@.subrange(0, pos + want));
                    }
                    assert(!inflate_ended(data@, false));
                }
                return Err(e);
            }
        }
    }
    proof {
        assert(z.fed() =~= data@);
    }
    let ghost done_before = z.done();
    let ghost started_before = z.started();
    match z.finish_compressed_chunks(&mut out) {
        Ok(()) => {
            proof {
                if !started_before {
                    assert(z.fed() == Seq::<u8>::empty());
                    assert(data@ =~= Seq::<u8>::empty());
                }
            }
            Ok(out)
        }
        Err(e) => {
            proof {
                // Finishing fails only when no complete stream stands in
                // the fed bytes, which here are the whole input.
                assert(!inflate_ended(data@, false));
            }
            Err(e)
        }
    }
}

} // verus!
