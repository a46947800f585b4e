//! Current/previous snapshots of sampled values.

use vstd::prelude::*;

verus! {

/// A watched value pair: the value read on the latest tick together with the
/// value it replaced. A fresh reading shifts the pair; a failed read leaves
/// both fields untouched, so the pair is never partially updated.
pub struct Pair<T> {
    /// The value the current one replaced.
    pub previous: T,
    /// The most recently accepted reading.
    pub current: T,
}

impl<T> Pair<T> {
    /// True when the latest reading differs from the one before it.
    pub open spec fn changed(self) -> bool {
        self.current != self.previous
    }

    /// Accept a fresh reading: the old current value becomes the previous one.
    pub fn shift(&mut self, value: T)
        ensures
            final(self).previous == old(self).current,
            final(self).current == value,
    {
        let mut tmp = value;
        core::mem::swap(&mut self.current, &mut tmp);
        core::mem::swap(&mut self.previous, &mut tmp);
    }
}

} // verus!
