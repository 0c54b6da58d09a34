//! The lazily-cached wrapper around a revisable value.

use vstd::prelude::*;
use crate::hash::RevisionHash;
use crate::revisable::Revisable;

verus! {

/// Revised is a wrapper struct for efficiently tracking the RevisionHash of
/// a desired type T. The RevisionHash is computed lazily and is only
/// recomputed when the object has been accessed mutably: any exclusive
/// access clears the memo, whether or not a mutation actually happens.
#[derive(Clone)]
pub struct Revised<T> {
    /// The stored object
    value: T,

    /// The revision hash of the stored object, if it's up to date
    revision: Option<RevisionHash>,
}

impl<T: Revisable> Revised<T> {
    /// The wrapped value.
    pub closed spec fn inner(&self) -> T {
        self.value
    }

    /// The memoized revision hash, if one is stored.
    pub closed spec fn cached(&self) -> Option<RevisionHash> {
        self.revision
    }

    /// The cache is never silently stale: when a revision hash is memoized,
    /// it is exactly the revision of the current value.
    pub open spec fn inv(&self) -> bool {
        self.cached() is Some ==> self.cached()->0.spec_value() == self.inner().rev_spec()
    }

    /// Construct a new Revised object containing the given object.
    pub fn new(value: T) -> (r: Revised<T>)
        ensures
            r.inner() == value,
            r.cached() is None,
    {
        Revised { value, revision: None }
    }

    /// Get the contained object's RevisionHash. If the object is
    /// not mutated, this will compute the RevisionHash only once
    /// and cache it for reuse: when a memo is present it is returned
    /// directly and the wrapper is left untouched.
    pub fn get_revision(&mut self) -> (r: RevisionHash)
        requires
            old(self).wf(),
        ensures
            final(self).inner() == old(self).inner(),
            r.spec_value() == old(self).inner().rev_spec(),
            final(self).cached() == Some(r),
            final(self).wf(),
            old(self).cached() is Some ==> *final(self) == *old(self),
    {
        match self.revision {
            Some(v) => v,
            None => {
                let v = self.value.get_revision();
                self.revision = Some(v);
                v
            },
        }
    }

    /// Read-only access to the wrapped value; the memo is unaffected.
    pub fn value(&self) -> (r: &T)
        ensures
            *r == self.inner(),
    {
        &self.value
    }

    /// Exclusive access to the wrapped value. The memo is cleared before
    /// the access is granted — pessimistic invalidation — so the next
    /// revision read recomputes, even if nothing is written through the
    /// returned reference.
    pub fn value_mut(&mut self) -> (r: &mut T)
        ensures
            *r == old(self).inner(),
            final(self).inner() == *final(r),
            final(self).cached() is None,
    {
        self.revision = None;
        &mut self.value
    }
}

/// RevisedVec<T> is shorthand for Vec<Revised<T>>.
pub type RevisedVec<T> = Vec<Revised<T>>;

/// Law: consecutive revision reads of an unmutated wrapper agree. Whatever
/// two reads of a wrapper of unchanged contents return — and the first read
/// leaves a memo behind, so the second does not recompute — the two
/// revision hashes are equal.
pub proof fn lemma_revised_reads_agree<T: Revisable>(
    w: Revised<T>,
    r1: RevisionHash,
    r2: RevisionHash,
)
    requires
        r1.spec_value() == w.inner().rev_spec(),
        r2.spec_value() == w.inner().rev_spec(),
    ensures
        r1 == r2,
{
}

/// Revised<T> is Revisable: it reports the revision of the value it wraps,
/// serving it from the memo when one is present.
impl<T: Revisable> Revisable for Revised<T> {
    /// The wrapped value must itself be well-formed, and the memo, when
    /// present, must match the value.
    open spec fn wf(&self) -> bool {
        self.inv() && self.inner().wf()
    }

    open spec fn rev_spec(&self) -> u64 {
        self.inner().rev_spec()
    }

    fn get_revision(&self) -> (r: RevisionHash) {
        match &self.revision {
            Some(v) => *v,
            None => self.value.get_revision(),
        }
    }
}

} // verus!
