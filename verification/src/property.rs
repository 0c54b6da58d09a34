//! The memoized property cell: the cached result of a function call that is
//! re-evaluated only when the revision of its arguments changes.

use vstd::prelude::*;
use crate::hash::RevisionHash;
use crate::revisable::{Revisable, pair_rev, triple_rev};

verus! {

/// RevisedProperty is the cached result of a function call that is only
/// evaluated lazily whenever the inputs have changed, according to their
/// RevisionHash.
pub struct RevisedProperty<T> {
    /// The revision of the arguments for the cached value, if present
    revision: Option<RevisionHash>,

    /// The cached value
    value: Option<T>,
}

impl<T> RevisedProperty<T> {
    /// The revision of the arguments the cached result was computed from.
    pub closed spec fn cached_revision(&self) -> Option<RevisionHash> {
        self.revision
    }

    /// The cached result itself.
    pub closed spec fn cached_value(&self) -> Option<T> {
        self.value
    }

    /// The cached result and the revision of the arguments it came from are
    /// present or absent together.
    pub open spec fn inv(&self) -> bool {
        self.cached_revision() is Some <==> self.cached_value() is Some
    }

    /// Whether the stored argument revision is exactly `rev`: on the next
    /// refresh with arguments of that combined revision, the cell is hit and
    /// the stored result is simply kept.
    pub open spec fn holds_revision(&self, rev: u64) -> bool {
        self.cached_revision() is Some && self.cached_revision()->0.spec_value() == rev
    }

    /// Create a new RevisedProperty with an empty cache.
    pub fn new() -> (r: RevisedProperty<T>)
        ensures
            r.cached_revision() is None,
            r.cached_value() is None,
    {
        RevisedProperty { revision: None, value: None }
    }

    /// Get the cached value, which might not be filled yet.
    /// This stores the result of the refresh* method that
    /// was most recently called, if any.
    pub fn get_cached(&self) -> (r: Option<&T>)
        ensures
            r is Some <==> self.cached_value() is Some,
            r is Some ==> *r->0 == self.cached_value()->0,
    {
        self.value.as_ref()
    }

    /// Update the cache to store the result of calling f(arg0).
    /// If the function's output from the same arguments is already
    /// cached, the function is not called and the cache is kept.
    /// Otherwise, f is called and the cache is written to.
    /// f is assumed to be a pure function.
    pub fn refresh1<F: Fn(A0) -> T, A0: Revisable>(&mut self, f: F, arg0: A0)
        requires
            old(self).inv(),
            arg0.wf(),
            call_requires(f, (arg0,)),
        ensures
            final(self).inv(),
            final(self).holds_revision(arg0.rev_spec()),
            final(self).cached_value() is Some,
            old(self).holds_revision(arg0.rev_spec()) ==> *final(self) == *old(self),
            !old(self).holds_revision(arg0.rev_spec()) ==> call_ensures(
                f,
                (arg0,),
                final(self).cached_value()->0,
            ),
    {
        let current_revision = arg0.get_revision();
        if !self.is_hit(current_revision) {
            self.value = Some(f(arg0));
            self.revision = Some(current_revision);
        }
    }

    /// Update the cache to store the result of calling f(arg0, arg1).
    /// If the function's output from the same arguments is already
    /// cached, the function is not called and the cache is kept.
    /// Otherwise, f is called and the cache is written to.
    /// f is assumed to be a pure function.
    pub fn refresh2<F: Fn(A0, A1) -> T, A0: Revisable, A1: Revisable>(
        &mut self,
        f: F,
        arg0: A0,
        arg1: A1,
    )
        requires
            old(self).inv(),
            arg0.wf(),
            arg1.wf(),
            call_requires(f, (arg0, arg1)),
        ensures
            final(self).inv(),
            final(self).holds_revision(pair_rev(arg0.rev_spec(), arg1.rev_spec())),
            final(self).cached_value() is Some,
            old(self).holds_revision(pair_rev(arg0.rev_spec(), arg1.rev_spec()))
                ==> *final(self) == *old(self),
            !old(self).holds_revision(pair_rev(arg0.rev_spec(), arg1.rev_spec()))
                ==> call_ensures(f, (arg0, arg1), final(self).cached_value()->0),
    {
        let current_revision = (&arg0, &arg1).get_revision();
        if !self.is_hit(current_revision) {
            self.value = Some(f(arg0, arg1));
            self.revision = Some(current_revision);
        }
    }

    /// Update the cache to store the result of calling f(arg0, arg1, arg2).
    /// If the function's output from the same arguments is already
    /// cached, the function is not called and the cache is kept.
    /// Otherwise, f is called and the cache is written to.
    /// f is assumed to be a pure function.
    pub fn refresh3<F: Fn(A0, A1, A2) -> T, A0: Revisable, A1: Revisable, A2: Revisable>(
        &mut self,
        f: F,
        arg0: A0,
        arg1: A1,
        arg2: A2,
    )
        requires
            old(self).inv(),
            arg0.wf(),
            arg1.wf(),
            arg2.wf(),
            call_requires(f, (arg0, arg1, arg2)),
        ensures
            final(self).inv(),
            final(self).holds_revision(
                triple_rev(arg0.rev_spec(), arg1.rev_spec(), arg2.rev_spec()),
            ),
            final(self).cached_value() is Some,
            old(self).holds_revision(triple_rev(arg0.rev_spec(), arg1.rev_spec(), arg2.rev_spec()))
                ==> *final(self) == *old(self),
            !old(self).holds_revision(
                triple_rev(arg0.rev_spec(), arg1.rev_spec(), arg2.rev_spec()),
            ) ==> call_ensures(f, (arg0, arg1, arg2), final(self).cached_value()->0),
    {
        let current_revision = (&arg0, &arg1, &arg2).get_revision();
        if !self.is_hit(current_revision) {
            self.value = Some(f(arg0, arg1, arg2));
            self.revision = Some(current_revision);
        }
    }

    /// Whether the stored argument revision equals the given one.
    fn is_hit(&self, current: RevisionHash) -> (b: bool)
        ensures
            b == self.holds_revision(current.spec_value()),
    {
        match &self.revision {
            Some(r) => *r == current,
            None => false,
        }
    }
}

} // verus!
