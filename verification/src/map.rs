//! The unordered-map revision rule.
//!
//! Every entry is folded into a per-entry sub-revision; the sub-revisions
//! are combined with bitwise xor, a commutative and associative operator, so
//! the combined value is independent of the order in which the entries are
//! visited. Two maps with identical key-to-value contents therefore hash
//! identically, whatever their internal ordering. The known limitation is
//! inherited from the design: an even number of entries that collide on the
//! same sub-revision cancel out under xor.

use vstd::prelude::*;
use vstd::bytes::spec_u64_to_le_bytes;
use std::collections::HashMap;
use crate::sea::sea_digest;
use crate::hash::{RevisionHash, RevisionHasher};
use crate::revisable::{Revisable, u64_rev};

verus! {

broadcast use vstd::std_specs::hash::group_hash_axioms;

/// The marker byte written before a key's revision.
pub const KEY_MARKER: u8 = 0x1;

/// The marker byte written before a value's revision.
pub const VALUE_MARKER: u8 = 0x2;

/// The sub-revision of one map entry: a key marker byte, the key's
/// revision, a value marker byte, and the value's revision, hashed in a
/// fresh hasher.
pub open spec fn entry_rev(key_rev: u64, value_rev: u64) -> u64 {
    sea_digest(
        seq![KEY_MARKER] + spec_u64_to_le_bytes(key_rev) + seq![VALUE_MARKER]
            + spec_u64_to_le_bytes(value_rev),
    )
}

/// The xor of the sub-revisions of all entries of a map, visited in an
/// arbitrary order; xor makes the result independent of that order.
pub open spec fn map_entries_xor<V: Revisable>(m: Map<u64, V>) -> u64
    decreases m.dom().len() when m.dom().finite()
{
    if m.dom().finite() && m.dom().len() > 0 {
        let k = m.dom().choose();
        entry_rev(u64_rev(k), m[k].rev_spec()) ^ map_entries_xor(m.remove(k))
    } else {
        0
    }
}

/// The revision of an unordered map: the entry count, then the combined
/// entry value.
pub open spec fn map_rev<V: Revisable>(m: Map<u64, V>) -> u64 {
    sea_digest(
        spec_u64_to_le_bytes(m.dom().len() as u64) + spec_u64_to_le_bytes(map_entries_xor(m)),
    )
}

/// The xor of the sub-revisions of a sequence of entries.
pub open spec fn pairs_xor<V: Revisable>(s: Seq<(u64, V)>) -> u64
    decreases s.len(),
{
    if s.len() == 0 {
        0
    } else {
        pairs_xor(s.drop_last()) ^ entry_rev(u64_rev(s.last().0), s.last().1.rev_spec())
    }
}

proof fn lemma_xor_shuffle(a: u64, b: u64, x: u64)
    ensures
        a ^ (b ^ x) == b ^ (a ^ x),
        a ^ x == x ^ a,
{
    assert(a ^ (b ^ x) == b ^ (a ^ x)) by (bit_vector);
    assert(a ^ x == x ^ a) by (bit_vector);
}

/// Folding a map's entries with xor lets any one entry be split off first,
/// not only the one `choose` picks: the fold is order-independent.
proof fn lemma_map_entries_xor_remove<V: Revisable>(m: Map<u64, V>, k: u64)
    requires
        m.dom().finite(),
        m.dom().contains(k),
    ensures
        map_entries_xor(m) == entry_rev(u64_rev(k), m[k].rev_spec()) ^ map_entries_xor(
            m.remove(k),
        ),
    decreases m.dom().len(),
{
    let c = m.dom().choose();
    assert(m.dom().contains(c));
    if c == k {
        assert(map_entries_xor(m) == entry_rev(u64_rev(k), m[k].rev_spec()) ^ map_entries_xor(
            m.remove(k),
        ));
    } else {
        let ek = entry_rev(u64_rev(k), m[k].rev_spec());
        let ec = entry_rev(u64_rev(c), m[c].rev_spec());
        lemma_map_entries_xor_remove(m.remove(c), k);
        lemma_map_entries_xor_remove(m.remove(k), c);
        assert(m.remove(c).remove(k) =~= m.remove(k).remove(c));
        let rest = map_entries_xor(m.remove(c).remove(k));
        assert(map_entries_xor(m) == ec ^ (ek ^ rest));
        assert(map_entries_xor(m.remove(k)) == ec ^ rest);
        lemma_xor_shuffle(ec, ek, rest);
    }
}

/// A sequence that lists every entry of a map exactly once folds, under
/// xor, to the same combined value as the map itself, in whatever order the
/// sequence visits the entries.
proof fn lemma_pairs_xor_complete<V: Revisable>(m: Map<u64, V>, s: Seq<(u64, V)>)
    requires
        m.dom().finite(),
        s.no_duplicates(),
        s.to_set() == m.kv_pairs(),
    ensures
        pairs_xor(s) == map_entries_xor(m),
    decreases s.len(),
{
    if s.len() == 0 {
        if m.dom().len() > 0 {
            let k = m.dom().choose();
            assert(m.dom().contains(k));
            assert(m.kv_pairs().contains((k, m[k])));
            assert(s.contains((k, m[k])));
        }
    } else {
        let last = s.last();
        let k = last.0;
        let v = last.1;
        assert(s.contains(last));
        assert(s.to_set().contains(last));
        assert(m.kv_pairs().contains((k, v)));
        assert(m.dom().contains(k) && m[k] == v);

        let s0 = s.drop_last();
        let m0 = m.remove(k);

        assert(s0.no_duplicates()) by {
            assert(forall|i: int, j: int|
                0 <= i < s0.len() && 0 <= j < s0.len() && i != j ==> s0[i] != s0[j]);
        }
        assert(!s0.contains(last)) by {
            if s0.contains(last) {
                let i = choose|i: int| 0 <= i < s0.len() && s0[i] == last;
                assert(s[i] == s[s.len() - 1]);
            }
        }
        assert(s0.to_set() =~= m0.kv_pairs()) by {
            assert forall|p: (u64, V)| s0.to_set().contains(p) implies m0.kv_pairs().contains(
                p,
            ) by {
                assert(s.contains(p));
                assert(m.kv_pairs().contains(p));
                assert(p != last);
                assert(p.0 != k) by {
                    if p.0 == k {
                        assert(p.1 == m[k]);
                    }
                }
            }
            assert forall|p: (u64, V)| m0.kv_pairs().contains(p) implies s0.to_set().contains(
                p,
            ) by {
                assert(m.kv_pairs().contains(p));
                assert(s.to_set().contains(p));
                let i = choose|i: int| 0 <= i < s.len() && s[i] == p;
                assert(p.0 != k);
                assert(i != s.len() - 1);
                assert(s0[i] == p);
            }
        }
        lemma_pairs_xor_complete(m0, s0);
        lemma_map_entries_xor_remove(m, k);
        lemma_xor_shuffle(entry_rev(u64_rev(k), v.rev_spec()), 0, map_entries_xor(m0));
    }
}

/// Law: the unordered-map rule is order-independent. Any two sequences
/// that each list the entries of one map exactly once — two insertion or
/// iteration orders of the same contents — fold under xor to the same
/// combined value, so maps with identical key-to-value contents produce
/// equal revisions.
pub proof fn lemma_map_fold_order_independent<V: Revisable>(
    m: Map<u64, V>,
    s1: Seq<(u64, V)>,
    s2: Seq<(u64, V)>,
)
    requires
        m.dom().finite(),
        s1.no_duplicates(),
        s2.no_duplicates(),
        s1.to_set() == m.kv_pairs(),
        s2.to_set() == m.kv_pairs(),
    ensures
        pairs_xor(s1) == pairs_xor(s2),
{
    lemma_pairs_xor_complete(m, s1);
    lemma_pairs_xor_complete(m, s2);
}

/// RevisedHashMap<K, T> is shorthand for HashMap<K, Revised<T>>.
pub type RevisedHashMap<K, T> = HashMap<K, crate::revised::Revised<T>>;

/// HashMap<u64, T> where T is Revisable is also Revisable. The keys are
/// machine integers, whose hash-table behaviour is specified; the revision
/// is a function of the map's key-to-value contents alone, independent of
/// the iteration order of the table.
impl<V: Revisable> Revisable for HashMap<u64, V> {
    open spec fn wf(&self) -> bool {
        forall|k: u64| self@.contains_key(k) ==> (#[trigger] self@[k]).wf()
    }

    open spec fn rev_spec(&self) -> u64 {
        map_rev(self@)
    }

    fn get_revision(&self) -> (r: RevisionHash) {
        // Get an order-independent hash of all items
        let mut items_hash: u64 = 0;
        let ghost mut entries: Seq<(u64, V)> = Seq::empty();
        proof {
            assert(entries =~= Seq::<(u64, V)>::empty());
        }
        for pair in it: self.iter()
            invariant
                self.wf(),
                it.seq().unref().no_duplicates(),
                it.seq().unref().to_set() == self@.kv_pairs(),
                entries == it.seq().unref().take(it.index() as int),
                entries.no_duplicates(),
                it.index() == it.seq().len() ==> entries.to_set() == self@.kv_pairs(),
                items_hash == pairs_xor(entries),
        {
            let (key, value) = pair;
            proof {
                assert(pair == it.seq()[it.index() as int]);
                assert(self@.contains_key(*key) && self@[*key] == *value);
            }
            let mut item_hasher = RevisionHasher::new();
            item_hasher.write_u8(KEY_MARKER);
            item_hasher.write_revision(key.get_revision());
            item_hasher.write_u8(VALUE_MARKER);
            item_hasher.write_revision(value.get_revision());
            proof {
                assert(item_hasher.stream() =~= seq![KEY_MARKER] + spec_u64_to_le_bytes(
                    u64_rev(*key),
                ) + seq![VALUE_MARKER] + spec_u64_to_le_bytes((*value).rev_spec()));
            }
            // Use xor to combine hashes of different items so as
            // to not depend on the order of items in the hash map
            items_hash = items_hash ^ item_hasher.finish();
            proof {
                let u = it.seq().unref();
                let i = it.index() as int;
                assert(u[i] == (*key, *value));
                assert(!entries.contains((*key, *value))) by {
                    if entries.contains((*key, *value)) {
                        let j = choose|j: int|
                            0 <= j < entries.len() && entries[j] == (*key, *value);
                        assert(u[j] == u[i]);
                    }
                }
            }
            proof {
                entries = entries + seq![(*key, *value)];
            }
            proof {
                let u = it.seq().unref();
                let i = it.index() as int;
                assert(entries =~= u.take(i + 1));
                assert(entries.drop_last() =~= u.take(i));
                assert(entries.no_duplicates()) by {
                    assert(forall|a: int, b: int|
                        0 <= a < entries.len() && 0 <= b < entries.len() && a != b
                            ==> entries[a] != entries[b]);
                }
                assert(i + 1 == u.len() ==> entries =~= u);
            }
        }
        proof {
            lemma_pairs_xor_complete(self@, entries);
        }

        let mut hasher = RevisionHasher::new();

        // Hash the length first
        hasher.write_usize(self.len());

        // Add the hash value of all items
        hasher.write_u64(items_hash);
        proof {
            assert(hasher.stream() =~= spec_u64_to_le_bytes(self@.dom().len() as u64)
                + spec_u64_to_le_bytes(map_entries_xor(self@)));
        }

        RevisionHash::new(hasher.finish())
    }
}

} // verus!
