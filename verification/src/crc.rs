//! Running CRC-32 over chunk type and payload bytes.
//!
//! The checksum algorithm itself is done by `crc32fast`; its result over a
//! byte sequence is named `crc32_of`, and a running hasher is modelled by
//! the sequence of bytes it has been fed.

use vstd::prelude::*;

verus! {

#[verifier::external_type_specification]
#[verifier::external_body]
pub struct ExHasher(crc32fast::Hasher);

/// The CRC-32 (IEEE) checksum of a byte sequence: a pure function of the
/// bytes alone, computed by `crc32fast`.
pub uninterp spec fn crc32_of(data: Seq<u8>) -> u32;

/// The bytes a running hasher has been fed since it was created or reset.
pub uninterp spec fn hasher_fed(h: crc32fast::Hasher) -> Seq<u8>;

/// Relies on `crc32fast::Hasher::new`: a fresh hasher has been fed nothing.
#[verifier::external_body]
pub(crate) fn crc_new() -> (r: crc32fast::Hasher)
    ensures
        hasher_fed(r) == Seq::<u8>::empty(),
{
    crc32fast::Hasher::new()
}

/// Relies on `crc32fast::Hasher::update`: it appends the bytes to the data
/// being summed.
#[verifier::external_body]
pub(crate) fn crc_update(h: &mut crc32fast::Hasher, data: &[u8])
    ensures
        hasher_fed(*final(h)) == hasher_fed(*old(h)) + data@,
{
    h.update(data);
}

/// Relies on `crc32fast::Hasher::finalize`: it returns the CRC-32 checksum
/// of exactly the bytes fed so far.  The hasher is consumed, matching the
/// outside signature; the machine holds its hasher in an `Option` and
/// takes it out to finalize.
#[verifier::external_body]
pub(crate) fn crc_finalize(h: crc32fast::Hasher) -> (r: u32)
    ensures
        r == crc32_of(hasher_fed(h)),
{
    h.finalize()
}

} // verus!
