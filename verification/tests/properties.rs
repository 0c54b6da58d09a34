use std::cell::Cell;
use std::collections::HashMap;
use std::hash::Hasher;
use std::rc::Rc;

use revisable::{Revisable, RevisionHash, RevisionHasher, Revised, RevisedProperty, RevisedVec};

/// A revisable value that counts how often its revision is computed.
struct Counted {
    value: u64,
    calls: Rc<Cell<u32>>,
}

impl Revisable for Counted {
    // The verifier's ghost members of the trait: compiled but never called.
    fn wf(&self) -> bool {
        true
    }

    fn rev_spec(&self) -> u64 {
        self.value.get_revision().value()
    }

    fn get_revision(&self) -> RevisionHash {
        self.calls.set(self.calls.get() + 1);
        self.value.get_revision()
    }
}

#[test]
fn equal_content_equal_revision() {
    let a = (1u64, 2u64);
    let b = (1u64, 2u64);
    assert_eq!(a.get_revision(), b.get_revision());
    let c = (2u64, 1u64);
    assert_ne!(a.get_revision(), c.get_revision());
}

#[test]
fn integer_revisions_distinguish_and_agree() {
    let mut x: u64 = 1;
    let r1 = x.get_revision();
    x = 2;
    let r2 = x.get_revision();
    assert_ne!(r1, r2);
    let y: u64 = 2;
    assert_eq!(r2, y.get_revision());
}

#[test]
fn consecutive_reads_cached() {
    let calls = Rc::new(Cell::new(0));
    let mut w = Revised::new(Counted { value: 7, calls: calls.clone() });
    // The inherent method is the memoizing read; the trait method, which
    // cannot store, shadows it for plain `w.get_revision()` calls.
    let r0 = Revised::get_revision(&mut w);
    let r1 = Revised::get_revision(&mut w);
    assert_eq!(r0, r1);
    assert_eq!(calls.get(), 1);
    // A read through the Revisable trait serves the memo as well.
    let r2 = Revisable::get_revision(&w);
    assert_eq!(r0, r2);
    assert_eq!(calls.get(), 1);
}

#[test]
fn mutable_access_invalidates() {
    let calls = Rc::new(Cell::new(0));
    let mut w = Revised::new(Counted { value: 7, calls: calls.clone() });
    let r0 = Revised::get_revision(&mut w);
    assert_eq!(calls.get(), 1);

    // A read-only access does not invalidate the memo.
    assert_eq!(w.value().value, 7);
    let r1 = Revised::get_revision(&mut w);
    assert_eq!(calls.get(), 1);

    // An exclusive access invalidates, even though nothing is written.
    let _ = w.value_mut();
    let r2 = Revised::get_revision(&mut w);
    assert_eq!(calls.get(), 2);

    assert_eq!(r0, r1);
    assert_eq!(r0, r2);
}

#[test]
fn map_order_independent() {
    let mut m1: HashMap<u64, u64> = HashMap::new();
    m1.insert(1, 10);
    m1.insert(2, 20);
    let mut m2: HashMap<u64, u64> = HashMap::new();
    m2.insert(2, 20);
    m2.insert(1, 10);
    assert_eq!(m1.get_revision(), m2.get_revision());

    // Changing the value stored under one key changes the revision.
    let mut m3: HashMap<u64, u64> = HashMap::new();
    m3.insert(1, 11);
    m3.insert(2, 20);
    assert_ne!(m1.get_revision(), m3.get_revision());
}

#[test]
fn sequence_order_sensitive() {
    let a: Vec<u64> = vec![1, 2, 3];
    let b: Vec<u64> = vec![1, 3, 2];
    assert_ne!(a.get_revision(), b.get_revision());

    let empty: Vec<u64> = Vec::new();
    let one: Vec<u64> = vec![0];
    assert_ne!(empty.get_revision(), one.get_revision());
}

#[test]
fn slice_and_vec_agree() {
    let v: Vec<u64> = vec![4, 5];
    let s: &[u64] = &[4, 5];
    assert_eq!(v.get_revision(), s.get_revision());
}

#[test]
fn property_cell_memoizes() {
    let calls = Rc::new(Cell::new(0));
    let mut p: RevisedProperty<u64> = RevisedProperty::new();
    assert!(p.get_cached().is_none());

    let c = calls.clone();
    p.refresh1(move |x: u64| { c.set(c.get() + 1); x + 1 }, 5);
    assert_eq!(calls.get(), 1);
    assert_eq!(p.get_cached(), Some(&6));

    // Same argument revision: a pure cache hit, the function is not invoked.
    let c = calls.clone();
    p.refresh1(move |x: u64| { c.set(c.get() + 1); x + 1 }, 5);
    assert_eq!(calls.get(), 1);
    assert_eq!(p.get_cached(), Some(&6));

    // Changed argument revision: the function runs again and the cache is
    // updated.
    let c = calls.clone();
    p.refresh1(move |x: u64| { c.set(c.get() + 1); x + 100 }, 8);
    assert_eq!(calls.get(), 2);
    assert_eq!(p.get_cached(), Some(&108));
}

#[test]
fn property_cell_multiple_arguments() {
    let mut p: RevisedProperty<u64> = RevisedProperty::new();
    p.refresh2(|a: u64, b: u64| a + b, 2, 3);
    assert_eq!(p.get_cached(), Some(&5));

    let mut q: RevisedProperty<u64> = RevisedProperty::new();
    q.refresh3(|a: u64, b: u64, c: u64| a + b + c, 1, 2, 3);
    assert_eq!(q.get_cached(), Some(&6));
}

#[test]
fn tuple_rules() {
    let one = (5u64,);
    assert_eq!(one.get_revision(), 5u64.get_revision());

    let t3 = (1u64, 2u64, 3u64);
    let t3b = (1u64, 2u64, 3u64);
    assert_eq!(t3.get_revision(), t3b.get_revision());

    let r = (&1u64, &2u64);
    assert_eq!(r.get_revision(), (1u64, 2u64).get_revision());
}

#[test]
fn wrapper_is_revisable() {
    let w = Revised::new(9u64);
    let t = (w, 1u64);
    assert_eq!(t.get_revision(), (9u64, 1u64).get_revision());
}

#[test]
fn revised_vec_revision() {
    let mut rv: RevisedVec<u64> = Vec::new();
    rv.push(Revised::new(1));
    rv.push(Revised::new(2));
    let plain: Vec<u64> = vec![1, 2];
    assert_eq!(rv.get_revision(), plain.get_revision());
}

#[test]
fn hasher_matches_seahash() {
    let mut sea = seahash::SeaHasher::new();
    sea.write_u64(42);
    let mut rh = RevisionHasher::new();
    rh.write_u64(42);
    assert_eq!(rh.finish(), sea.finish());

    // The same bytes written raw give the same stream and digest.
    let mut rh2 = RevisionHasher::new();
    rh2.write(&42u64.to_le_bytes());
    assert_eq!(rh2.finish(), rh.finish());

    // write_usize writes the value as a 64-bit integer.
    let mut rh3 = RevisionHasher::new();
    rh3.write_usize(42);
    assert_eq!(rh3.finish(), rh.finish());

    // Single bytes and signed integers stream the same bytes as seahash.
    let mut sea_b = seahash::SeaHasher::new();
    sea_b.write_u8(9);
    sea_b.write_i32(-5);
    let mut rh4 = RevisionHasher::new();
    rh4.write_u8(9);
    rh4.write_i32(-5);
    assert_eq!(rh4.finish(), sea_b.finish());
    assert_ne!(rh4.finish(), RevisionHasher::new().finish());
}

#[test]
fn write_revisable_equals_write_revision() {
    let x: u64 = 3;
    let mut h1 = RevisionHasher::new();
    h1.write_revisable(&x);
    let mut h2 = RevisionHasher::new();
    h2.write_revision(x.get_revision());
    assert_eq!(h1.finish(), h2.finish());
    assert_ne!(h1.finish(), RevisionHasher::new().finish());
}

#[test]
fn revision_hash_value_round_trip() {
    let h = RevisionHash::new(77);
    assert_eq!(h.value(), 77);
    assert_eq!(h, RevisionHash::new(77));
    assert_ne!(h, RevisionHash::new(78));
}
