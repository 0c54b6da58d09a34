//! Trusted boundary around the `seahash` streaming hasher.
//!
//! A `seahash::SeaHasher` is modeled by the sequence of bytes fed to it so
//! far (`sea_stream`). The digest it reports is a fixed function of that byte
//! sequence alone (`sea_digest`): `SeaHasher::new` starts from fixed default
//! seeds, and the hasher's result does not depend on how the byte stream is
//! split across `write` calls.

use vstd::prelude::*;
use std::hash::Hasher;

verus! {

#[verifier::external_type_specification]
#[verifier::external_body]
pub struct ExSeaHasher(seahash::SeaHasher);

/// The bytes written to a hasher so far.
pub uninterp spec fn sea_stream(h: seahash::SeaHasher) -> Seq<u8>;

/// The 64-bit digest seahash computes for a byte stream.
pub uninterp spec fn sea_digest(bytes: Seq<u8>) -> u64;

/// Relies on `seahash::SeaHasher::new`: a fresh hasher with fixed default
/// seeds and no bytes written yet.
#[verifier::external_body]
pub(crate) fn sea_new() -> (h: seahash::SeaHasher)
    ensures
        sea_stream(h) == Seq::<u8>::empty(),
{
    seahash::SeaHasher::new()
}

/// Relies on `Hasher::write` for `SeaHasher`: appends the bytes to the
/// stream of bytes hashed so far.
#[verifier::external_body]
pub(crate) fn sea_write(h: &mut seahash::SeaHasher, bytes: &[u8])
    ensures
        sea_stream(*final(h)) == sea_stream(*old(h)) + bytes@,
{
    h.write(bytes);
}

/// Relies on `Hasher::write_u8` for `SeaHasher`, which writes the one byte
/// of `n.to_le_bytes()`.
#[verifier::external_body]
pub(crate) fn sea_write_u8(h: &mut seahash::SeaHasher, n: u8)
    ensures
        sea_stream(*final(h)) == sea_stream(*old(h)) + seq![n],
{
    h.write_u8(n);
}

/// Relies on `Hasher::write_u64` for `SeaHasher`, which writes the eight
/// bytes of `n.to_le_bytes()`.
#[verifier::external_body]
pub(crate) fn sea_write_u64(h: &mut seahash::SeaHasher, n: u64)
    ensures
        sea_stream(*final(h)) == sea_stream(*old(h)) + vstd::bytes::spec_u64_to_le_bytes(n),
{
    h.write_u64(n);
}

/// Relies on `Hasher::write_i32` for `SeaHasher`, which writes the four
/// bytes of `n.to_le_bytes()`, the little-endian two's-complement encoding.
#[verifier::external_body]
pub(crate) fn sea_write_i32(h: &mut seahash::SeaHasher, n: i32)
    ensures
        sea_stream(*final(h)) == sea_stream(*old(h)) + vstd::bytes::spec_u32_to_le_bytes(n as u32),
{
    h.write_i32(n);
}

/// Relies on `Hasher::finish` for `SeaHasher`: reports the digest of the
/// bytes written so far without changing the hasher's state.
#[verifier::external_body]
pub(crate) fn sea_finish(h: &seahash::SeaHasher) -> (r: u64)
    ensures
        r == sea_digest(sea_stream(*h)),
{
    h.finish()
}

} // verus!
