//! Canonical ordering key for stable timeline item ordering.

use vstd::prelude::*;

verus! {

/// Stable ordering key for canonical timeline items.
///
/// A 64-bit sequence number assigned once per canonical item at first
/// insertion. It totally orders items and never changes after
/// assignment, regardless of later content mutation (decryption, edits,
/// redaction).
#[derive(Clone, Copy, Debug, PartialEq, Eq, PartialOrd, Ord, Hash)]
pub struct CanonicalOrderingKey(u64);

impl View for CanonicalOrderingKey {
    type V = u64;

    closed spec fn view(&self) -> u64 {
        self.0
    }
}

impl CanonicalOrderingKey {
    /// Create a canonical ordering key from a sequence number.
    pub fn from_sequence(seq: u64) -> (r: Self)
        ensures
            r@ == seq,
    {
        CanonicalOrderingKey(seq)
    }

    /// Create a key from a millisecond timestamp.
    ///
    /// Timestamp-derived keys are not guaranteed monotonic against
    /// counter-derived keys and must not be mixed with them within one
    /// store instance.
    pub fn from_timestamp(ts_millis: u64) -> (r: Self)
        ensures
            r@ == ts_millis,
    {
        CanonicalOrderingKey(ts_millis)
    }

    /// Get the underlying sequence number.
    pub fn as_u64(&self) -> (r: u64)
        ensures
            r == self@,
    {
        self.0
    }
}

impl From<u64> for CanonicalOrderingKey {
    fn from(seq: u64) -> (r: Self) {
        CanonicalOrderingKey(seq)
    }
}

impl vstd::std_specs::convert::FromSpecImpl<u64> for CanonicalOrderingKey {
    open spec fn obeys_from_spec() -> bool {
        true
    }

    closed spec fn from_spec(seq: u64) -> Self {
        CanonicalOrderingKey(seq)
    }
}

/// A key converted from a raw sequence number carries that number.
pub broadcast proof fn lemma_key_from_sequence(seq: u64)
    ensures
        (#[trigger] <CanonicalOrderingKey as vstd::std_specs::convert::FromSpec<u64>>::from_spec(
            seq,
        ))@ == seq,
{
}

} // verus!
