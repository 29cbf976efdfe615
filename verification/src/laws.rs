//! Properties of the transition rule over any number of ticks.

use crate::item::{next_quality, next_sell_in, Category};
use vstd::prelude::*;

verus! {

/// `(sell_in, quality)` of an item of category `cat` after `n` ticks.
///
/// One tick of this pair is exactly what `Item::update_quality` ensures of
/// an item's fields, so a claim about `ticks` is a claim about `n` calls.
pub open spec fn ticks(cat: Category, sell_in: int, quality: int, n: nat) -> (int, int)
    decreases n,
{
    if n == 0 {
        (sell_in, quality)
    } else {
        let prev = ticks(cat, sell_in, quality, (n - 1) as nat);
        (next_sell_in(cat, prev.0), next_quality(cat, prev.0, prev.1))
    }
}

/// One tick keeps quality within `[0, 50]`: every adjustment saturates at
/// those bounds, and the backstage reset lands on 0.
pub proof fn lemma_next_quality_in_bounds(cat: Category, sell_in: int, quality: int)
    requires
        0 <= quality <= 50,
    ensures
        0 <= next_quality(cat, sell_in, quality) <= 50,
{
}

/// An item whose quality starts within `[0, 50]` keeps it there after any
/// number of ticks, whatever its category and `sell_in`.
pub proof fn lemma_quality_in_bounds(cat: Category, sell_in: int, quality: int, n: nat)
    requires
        0 <= quality <= 50,
    ensures
        0 <= ticks(cat, sell_in, quality, n).1 <= 50,
    decreases n,
{
    if n > 0 {
        let prev = ticks(cat, sell_in, quality, (n - 1) as nat);
        lemma_quality_in_bounds(cat, sell_in, quality, (n - 1) as nat);
        lemma_next_quality_in_bounds(cat, prev.0, prev.1);
    }
}

/// Sulfuras is invariant: its `sell_in` and quality are unchanged by any
/// number of ticks.
pub proof fn lemma_sulfuras_unchanged(sell_in: int, quality: int, n: nat)
    ensures
        ticks(Category::Sulfuras, sell_in, quality, n).0 == sell_in,
        ticks(Category::Sulfuras, sell_in, quality, n).1 == quality,
    decreases n,
{
    if n > 0 {
        lemma_sulfuras_unchanged(sell_in, quality, (n - 1) as nat);
    }
}

} // verus!
