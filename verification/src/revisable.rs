//! The Revisable capability and the revision rules for built-in shapes:
//! references, fixed tuples, ordered sequences and unordered maps.

use vstd::prelude::*;
use vstd::bytes::spec_u64_to_le_bytes;
use crate::sea::sea_digest;
use crate::hash::{RevisionHash, RevisionHasher};

verus! {

/// Revisable is a trait for types for which a RevisionHash can be computed.
/// Something that implements Revisable can have changes to its contents
/// tracked by watching its RevisionHash alone.
pub trait Revisable {
    /// Well-formedness of the value. For most types this is simply `true`;
    /// a type that carries a private memo, such as a lazily-cached wrapper,
    /// states here that the memo is consistent with its contents.
    spec fn wf(&self) -> bool;

    /// The mathematical revision of this value: a fixed function of the
    /// semantic content alone, so that two values of identical meaning have
    /// equal revisions.
    spec fn rev_spec(&self) -> u64;

    /// Compute the RevisionHash of the object's contents. This hashes
    /// together everything that is relevant to the meaning of the object's
    /// contents; the result is pinned to `rev_spec`, so it is the exact same
    /// if the object is unchanged or has been changed to something which is
    /// semantically identical.
    fn get_revision(&self) -> (r: RevisionHash)
        requires
            self.wf(),
        ensures
            r.spec_value() == self.rev_spec();
}

/// The revision of a bare 64-bit integer: the digest of its little-endian
/// bytes.
pub open spec fn u64_rev(n: u64) -> u64 {
    sea_digest(spec_u64_to_le_bytes(n))
}

/// Blanket implementation for 64-bit integers, used in particular as map
/// keys.
impl Revisable for u64 {
    open spec fn wf(&self) -> bool {
        true
    }

    open spec fn rev_spec(&self) -> u64 {
        u64_rev(*self)
    }

    fn get_revision(&self) -> (r: RevisionHash) {
        let mut hasher = RevisionHasher::new();
        hasher.write_u64(*self);
        proof {
            assert(hasher.stream() =~= spec_u64_to_le_bytes(*self));
        }
        hasher.into_revision()
    }
}

/// Blanket implementation for references.
impl<T: Revisable> Revisable for &T {
    open spec fn wf(&self) -> bool {
        (**self).wf()
    }

    open spec fn rev_spec(&self) -> u64 {
        (**self).rev_spec()
    }

    fn get_revision(&self) -> (r: RevisionHash) {
        T::get_revision(*self)
    }
}

/// The revision of a pair of revisions written in positional order.
pub open spec fn pair_rev(a: u64, b: u64) -> u64 {
    sea_digest(spec_u64_to_le_bytes(a) + spec_u64_to_le_bytes(b))
}

/// The revision of three revisions written in positional order.
pub open spec fn triple_rev(a: u64, b: u64, c: u64) -> u64 {
    sea_digest(spec_u64_to_le_bytes(a) + spec_u64_to_le_bytes(b) + spec_u64_to_le_bytes(c))
}

/// Blanket implementation for 1-tuples.
impl<T: Revisable> Revisable for (T,) {
    open spec fn wf(&self) -> bool {
        self.0.wf()
    }

    open spec fn rev_spec(&self) -> u64 {
        self.0.rev_spec()
    }

    fn get_revision(&self) -> (r: RevisionHash) {
        self.0.get_revision()
    }
}

/// Blanket implementation for 2-tuples. Position matters: swapping the two
/// components changes the byte stream that is hashed.
impl<T0: Revisable, T1: Revisable> Revisable for (T0, T1) {
    open spec fn wf(&self) -> bool {
        self.0.wf() && self.1.wf()
    }

    open spec fn rev_spec(&self) -> u64 {
        pair_rev(self.0.rev_spec(), self.1.rev_spec())
    }

    fn get_revision(&self) -> (r: RevisionHash) {
        let mut hasher = RevisionHasher::new();
        hasher.write_revision(self.0.get_revision());
        hasher.write_revision(self.1.get_revision());
        proof {
            assert(hasher.stream() =~= spec_u64_to_le_bytes(self.0.rev_spec())
                + spec_u64_to_le_bytes(self.1.rev_spec()));
        }
        RevisionHash::new(hasher.finish())
    }
}

/// Blanket implementation for 3-tuples.
impl<T0: Revisable, T1: Revisable, T2: Revisable> Revisable for (T0, T1, T2) {
    open spec fn wf(&self) -> bool {
        self.0.wf() && self.1.wf() && self.2.wf()
    }

    open spec fn rev_spec(&self) -> u64 {
        triple_rev(self.0.rev_spec(), self.1.rev_spec(), self.2.rev_spec())
    }

    fn get_revision(&self) -> (r: RevisionHash) {
        let mut hasher = RevisionHasher::new();
        hasher.write_revision(self.0.get_revision());
        hasher.write_revision(self.1.get_revision());
        hasher.write_revision(self.2.get_revision());
        proof {
            assert(hasher.stream() =~= spec_u64_to_le_bytes(self.0.rev_spec())
                + spec_u64_to_le_bytes(self.1.rev_spec())
                + spec_u64_to_le_bytes(self.2.rev_spec()));
        }
        RevisionHash::new(hasher.finish())
    }
}

/// The byte stream that an ordered sequence of element revisions is hashed
/// as: each revision's little-endian bytes, in order.
pub open spec fn seq_rev_stream(revs: Seq<u64>) -> Seq<u8>
    decreases revs.len(),
{
    if revs.len() == 0 {
        Seq::<u8>::empty()
    } else {
        seq_rev_stream(revs.drop_last()) + spec_u64_to_le_bytes(revs.last())
    }
}

/// The revision of an ordered sequence of element revisions: the element
/// count first, then each element's revision in iteration order. This
/// distinguishes length changes, element changes, and reordering.
pub open spec fn seq_rev(revs: Seq<u64>) -> u64 {
    sea_digest(spec_u64_to_le_bytes(revs.len() as u64) + seq_rev_stream(revs))
}

/// The revisions of the elements of a sequence, in order.
pub open spec fn elem_revs<T: Revisable>(s: Seq<T>) -> Seq<u64> {
    s.map(|i: int, t: T| t.rev_spec())
}

/// [T] where T is Revisable is also Revisable.
impl<T: Revisable> Revisable for [T] {
    open spec fn wf(&self) -> bool {
        forall|i: int| 0 <= i < self@.len() ==> (#[trigger] self@[i]).wf()
    }

    open spec fn rev_spec(&self) -> u64 {
        seq_rev(elem_revs(self@))
    }

    fn get_revision(&self) -> (r: RevisionHash) {
        let mut hasher = RevisionHasher::new();
        let len = self.len();

        // Hash the length first
        hasher.write_usize(len);
        proof {
            let revs = elem_revs(self@);
            assert(revs.take(0) =~= Seq::<u64>::empty());
            assert(hasher.stream() =~= spec_u64_to_le_bytes(len as u64) + seq_rev_stream(
                revs.take(0),
            ));
        }

        // Hash the individual items
        let mut i: usize = 0;
        while i < len
            invariant
                len == self@.len(),
                i <= len,
                self.wf(),
                hasher.stream() == spec_u64_to_le_bytes(len as u64) + seq_rev_stream(
                    elem_revs(self@).take(i as int),
                ),
            decreases len - i,
        {
            let item = vstd::slice::slice_index_get(self, i);
            hasher.write_revision(item.get_revision());
            proof {
                let revs = elem_revs(self@);
                assert(revs.take(i + 1).drop_last() =~= revs.take(i as int));
                assert(revs.take(i + 1).last() == revs[i as int]);
                assert(hasher.stream() =~= spec_u64_to_le_bytes(len as u64) + seq_rev_stream(
                    revs.take(i + 1),
                ));
            }
            i = i + 1;
        }
        proof {
            assert(elem_revs(self@).take(len as int) =~= elem_revs(self@));
        }
        RevisionHash::new(hasher.finish())
    }
}

/// Vec<T> where T is Revisable is also Revisable, with the same rule as a
/// slice of T.
impl<T: Revisable> Revisable for Vec<T> {
    open spec fn wf(&self) -> bool {
        forall|i: int| 0 <= i < self@.len() ==> (#[trigger] self@[i]).wf()
    }

    open spec fn rev_spec(&self) -> u64 {
        seq_rev(elem_revs(self@))
    }

    fn get_revision(&self) -> (r: RevisionHash) {
        self.as_slice().get_revision()
    }
}

/// Law: a revision hash is a function of semantic content alone. Any two
/// revision hashes computed for values of equal content — equal `rev_spec` —
/// are themselves equal, whatever the values' identities.
pub proof fn lemma_revision_functional<T: Revisable>(
    x: &T,
    y: &T,
    rx: RevisionHash,
    ry: RevisionHash,
)
    requires
        x.rev_spec() == y.rev_spec(),
        rx.spec_value() == x.rev_spec(),
        ry.spec_value() == y.rev_spec(),
    ensures
        rx == ry,
{
}

} // verus!
