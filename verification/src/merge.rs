//! The shared merge contract: appending one store's entries to another's.

use vstd::prelude::*;

verus! {

/// Error returned by the [`Merge`] contract. The combination operations of
/// this crate always succeed; the variant exists for implementations whose
/// operands can be incompatible.
#[derive(Debug, Clone, Copy, PartialEq, Eq, Structural)]
pub enum MergeError {
    /// The two operands cannot be combined.
    IncompatibleOperands,
}

/// An append-only combination: merging `a` with `b` yields a value whose
/// entry sequence is exactly `a`'s entries followed by `b`'s, with no
/// deduplication and no inspection of entry contents.
pub trait Merge: Sized {
    /// The entry type the implementor collects.
    type Entry;

    /// The implementor's entry sequence, in storage order.
    spec fn merge_seq(&self) -> Seq<Self::Entry>;

    /// Combines `self` with `rhs` into a new value holding `self`'s entries
    /// followed by `rhs`'s. Never fails.
    fn merge(&self, rhs: &Self) -> (r: Result<Self, MergeError>)
        ensures
            r matches Ok(merged) && merged.merge_seq() == self.merge_seq() + rhs.merge_seq(),
    ;

    /// Appends `rhs`'s entries to `self`, in place. Never fails.
    fn merge_mut(&mut self, rhs: &Self) -> (r: Result<(), MergeError>)
        ensures
            r is Ok,
            final(self).merge_seq() == old(self).merge_seq() + rhs.merge_seq(),
    ;
}

} // verus!
