//! The update engine: one tick applied to a whole list of items in place.

use crate::item::{can_tick, ticked, Item};
use vstd::prelude::*;

verus! {

/// The caller-owned list of items that the engine ages day by day.
pub struct GildedRose {
    /// The items, in the order the caller supplied them.
    pub items: Vec<Item>,
}

impl GildedRose {
    /// An engine over the given items.
    pub fn new(items: Vec<Item>) -> (rose: GildedRose)
        ensures
            rose.items@ == items@,
    {
        GildedRose { items }
    }

    /// One tick: each item, in sequence order, advanced by one day
    /// according to its category's rule.
    pub fn update_quality(&mut self)
        requires
            forall|i: int|
                0 <= i < old(self).items@.len() ==> can_tick(#[trigger] old(self).items@[i]),
        ensures
            final(self).items@.len() == old(self).items@.len(),
            forall|i: int|
                0 <= i < old(self).items@.len() ==> ticked(
                    old(self).items@[i],
                    #[trigger] final(self).items@[i],
                ),
    {
        let n = self.items.len();
        for i in 0..n
            invariant
                n == self.items@.len(),
                self.items@.len() == old(self).items@.len(),
                forall|j: int|
                    0 <= j < old(self).items@.len() ==> can_tick(#[trigger] old(self).items@[j]),
                forall|j: int| i <= j < n ==> self.items@[j] == old(self).items@[j],
                forall|j: int|
                    0 <= j < i ==> ticked(old(self).items@[j], #[trigger] self.items@[j]),
        {
            self.items[i].update_quality();
        }
    }
}

} // verus!
