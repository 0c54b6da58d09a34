//! A change-detection and incremental-memoization library.
//!
//! Data structures expose a compact deterministic fingerprint of their
//! semantic content — a [`RevisionHash`] — and callers cache computation
//! results keyed by that fingerprint, so that recomputation happens only
//! when content actually changes.
//!
//! Hosts implement [`Revisable`] on their domain types, compose them through
//! the built-in rules for references, tuples, ordered sequences and
//! unordered maps, wrap mutable state in [`Revised`], and wrap derived
//! computations in [`RevisedProperty`].

pub mod sea;
pub mod hash;
pub mod revisable;
pub mod revised;
pub mod property;
pub mod map;

pub use crate::hash::{RevisionHash, RevisionHasher};
pub use crate::revisable::Revisable;
pub use crate::revised::{Revised, RevisedVec};
pub use crate::map::RevisedHashMap;
pub use crate::property::RevisedProperty;
