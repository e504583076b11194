//! Advisory resource budget.
//!
//! A [`Limits`] value is a per-session counter of bytes that the decoder is
//! still allowed to stage or allocate on behalf of untrusted size fields.
//! Every growth-relevant event charges it before any allocation happens, so
//! attacker-controlled declared sizes turn into a typed failure instead of
//! unbounded memory growth.

use vstd::prelude::*;

use crate::error::DecodingError;

verus! {

/// Remaining byte budget of one decode session.  Sessions never share a
/// budget.
pub struct Limits {
    /// Bytes that may still be reserved.
    bytes: usize,
}

impl Limits {
    /// The remaining budget.
    pub closed spec fn remaining(&self) -> usize {
        self.bytes
    }

    /// A budget of exactly `bytes` bytes.
    pub fn new(bytes: usize) -> (r: Self)
        ensures
            r.remaining() == bytes,
    {
        Limits { bytes }
    }

    /// Charge `bytes` against the budget.  Succeeds and debits exactly when
    /// the budget covers the request; otherwise fails and leaves the budget
    /// unchanged.
    pub fn reserve_bytes(&mut self, bytes: usize) -> (r: Result<(), DecodingError>)
        ensures
            r is Ok <==> bytes <= old(self).remaining(),
            r is Ok ==> final(self).remaining() == old(self).remaining() - bytes,
            r is Err ==> *final(self) == *old(self) && r matches Err(DecodingError::LimitsExceeded),
    {
        if bytes <= self.bytes {
            self.bytes = self.bytes - bytes;
            Ok(())
        } else {
            Err(DecodingError::LimitsExceeded)
        }
    }
}

impl Default for Limits {
    /// The default budget is unbounded: callers opt in to a cap through
    /// [`Limits::new`].
    fn default() -> (r: Self)
        ensures
            r.remaining() == usize::MAX,
    {
        Limits { bytes: usize::MAX }
    }
}

} // verus!
