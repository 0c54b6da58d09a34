//! Revision hashes and the streaming hasher that produces them.

use vstd::prelude::*;
use vstd::bytes::spec_u64_to_le_bytes;
use crate::sea::{sea_digest, sea_stream, sea_new, sea_write, sea_write_u8, sea_write_u64, sea_write_i32, sea_finish};
use crate::revisable::Revisable;

verus! {

/// RevisionHash is an integer summary of the contents of a data structure,
/// based on hashing, intended to be used in distinguishing whether data
/// structures have changed or not.
#[derive(Copy, Clone, PartialEq, Eq, Structural, Hash, Debug)]
pub struct RevisionHash(pub u64);

impl RevisionHash {
    /// The integer value of the hash, for use in specifications.
    pub open spec fn spec_value(&self) -> u64 {
        self.0
    }

    /// Create a new RevisionHash with the given integer value.
    pub fn new(value: u64) -> (r: RevisionHash)
        ensures
            r.spec_value() == value,
    {
        RevisionHash(value)
    }

    /// Get the integer value of the RevisionHash.
    pub fn value(&self) -> (v: u64)
        ensures
            v == self.spec_value(),
    {
        self.0
    }
}

/// RevisionHasher is an efficient hasher used to compute revision hashes.
/// It folds a stream of bytes and nested revision hashes into one final
/// [`RevisionHash`]; the order of writes affects the result.
pub struct RevisionHasher {
    hasher: seahash::SeaHasher,
}

impl RevisionHasher {
    /// The bytes this hasher has absorbed so far; every write appends to it,
    /// and the resulting revision hash is a fixed function of it.
    pub closed spec fn stream(&self) -> Seq<u8> {
        sea_stream(self.hasher)
    }

    /// Construct a new RevisionHasher.
    pub fn new() -> (r: RevisionHasher)
        ensures
            r.stream() == Seq::<u8>::empty(),
    {
        RevisionHasher { hasher: sea_new() }
    }

    /// Hash a sequence of raw bytes.
    pub fn write(&mut self, bytes: &[u8])
        ensures
            final(self).stream() == old(self).stream() + bytes@,
    {
        sea_write(&mut self.hasher, bytes);
    }

    /// Hash a single raw byte.
    pub fn write_u8(&mut self, n: u8)
        ensures
            final(self).stream() == old(self).stream() + seq![n],
    {
        sea_write_u8(&mut self.hasher, n);
    }

    /// Hash a raw 64-bit integer, as its little-endian bytes.
    pub fn write_u64(&mut self, n: u64)
        ensures
            final(self).stream() == old(self).stream() + spec_u64_to_le_bytes(n),
    {
        sea_write_u64(&mut self.hasher, n);
    }

    /// Hash a raw 32-bit signed integer, as the little-endian bytes of its
    /// two's-complement encoding.
    pub fn write_i32(&mut self, n: i32)
        ensures
            final(self).stream() == old(self).stream() + vstd::bytes::spec_u32_to_le_bytes(n as u32),
    {
        sea_write_i32(&mut self.hasher, n);
    }

    /// Hash a length or other machine-sized integer. The value is written as
    /// a 64-bit integer so that the stream does not depend on the platform.
    pub fn write_usize(&mut self, n: usize)
        ensures
            final(self).stream() == old(self).stream() + spec_u64_to_le_bytes(n as u64),
    {
        self.write_u64(n as u64);
    }

    /// Hash the RevisionHash of another object.
    pub fn write_revision(&mut self, r: RevisionHash)
        ensures
            final(self).stream() == old(self).stream() + spec_u64_to_le_bytes(r.spec_value()),
    {
        self.write_u64(r.value());
    }

    /// Recursively hash another object and write its resulting RevisionHash.
    pub fn write_revisable<T: Revisable>(&mut self, t: &T)
        requires
            t.wf(),
        ensures
            final(self).stream() == old(self).stream() + spec_u64_to_le_bytes(t.rev_spec()),
    {
        let r = t.get_revision();
        self.write_revision(r);
    }

    /// Read the revision hash of the contents seen so far, without consuming
    /// the hasher.
    pub fn finish(&self) -> (r: u64)
        ensures
            r == sea_digest(self.stream()),
    {
        sea_finish(&self.hasher)
    }

    /// Consume the RevisionHasher and return its final RevisionHash,
    /// which summarizes the contents it has seen.
    pub fn into_revision(self) -> (r: RevisionHash)
        ensures
            r.spec_value() == sea_digest(self.stream()),
    {
        RevisionHash::new(self.finish())
    }
}

} // verus!
