//! In-place data repairment (micro patching).

use vstd::prelude::*;

verus! {

/// Local, in-place repairment of a dataset.
pub trait QcRepair {
    /// Repairs zero values that are physical nonsense or forbidden values
    /// (only!), in place.
    fn zero_repair_mut(&mut self);

    /// A repaired copy of the dataset.
    fn zero_repair(&self) -> Self where Self: Clone + Sized {
        let mut repaired = self.clone();
        repaired.zero_repair_mut();
        repaired
    }
}

} // verus!
