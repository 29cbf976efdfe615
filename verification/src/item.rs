//! A single inventory item and the per-category rule for one day's passage.

use vstd::prelude::*;
use vstd::string::StringExecFns;

verus! {

/// The category of an item, derived from its name and never stored.
/// It decides which transition rule a tick applies.
#[derive(Clone, Copy, PartialEq, Eq, Structural)]
pub enum Category {
    /// Any name that matches no special category.
    Normal,
    /// "Aged Brie": gains quality as it ages.
    AgedBrie,
    /// "Backstage passes to a TAFKAL80ETC concert": gains quality faster
    /// close to the concert, worthless after it.
    BackstagePass,
    /// "Sulfuras, Hand of Ragnaros": legendary, never changes.
    Sulfuras,
}

/// The category that a given item name selects.
pub open spec fn spec_category(name: Seq<char>) -> Category {
    if name == "Aged Brie"@ {
        Category::AgedBrie
    } else if name == "Backstage passes to a TAFKAL80ETC concert"@ {
        Category::BackstagePass
    } else if name == "Sulfuras, Hand of Ragnaros"@ {
        Category::Sulfuras
    } else {
        Category::Normal
    }
}

/// Quality raised by one, saturating at the upper bound 50.
pub open spec fn inc_capped(quality: int) -> int {
    if quality < 50 {
        quality + 1
    } else {
        quality
    }
}

/// Quality lowered by one, saturating at the lower bound 0.
pub open spec fn dec_floored(quality: int) -> int {
    if quality > 0 {
        quality - 1
    } else {
        quality
    }
}

/// The quality adjustment applied before `sell_in` is decremented.
pub open spec fn pre_quality(cat: Category, sell_in: int, quality: int) -> int {
    match cat {
        Category::Normal => dec_floored(quality),
        Category::AgedBrie => inc_capped(quality),
        Category::BackstagePass => {
            let once = inc_capped(quality);
            let twice = if sell_in < 11 {
                inc_capped(once)
            } else {
                once
            };
            if sell_in < 6 {
                inc_capped(twice)
            } else {
                twice
            }
        },
        Category::Sulfuras => quality,
    }
}

/// The quality adjustment applied after `sell_in` is decremented, on the
/// items whose `sell_in` has fallen below zero.
pub open spec fn post_quality(cat: Category, quality: int) -> int {
    match cat {
        Category::Normal => dec_floored(quality),
        Category::AgedBrie => inc_capped(quality),
        Category::BackstagePass => 0,
        Category::Sulfuras => quality,
    }
}

/// `sell_in` after one tick: one day less for everything but Sulfuras.
pub open spec fn next_sell_in(cat: Category, sell_in: int) -> int {
    match cat {
        Category::Sulfuras => sell_in,
        _ => sell_in - 1,
    }
}

/// Quality after one full tick: the pre-decrement adjustment, then the
/// post-decrement one where the new `sell_in` is negative.
pub open spec fn next_quality(cat: Category, sell_in: int, quality: int) -> int {
    let adjusted = pre_quality(cat, sell_in, quality);
    if next_sell_in(cat, sell_in) < 0 {
        post_quality(cat, adjusted)
    } else {
        adjusted
    }
}

/// An inventory item: a name that selects its category, the days left
/// before it expires, and its quality score.
pub struct Item {
    /// The item's name; the category key.
    pub name: String,
    /// Days remaining before the item expires.
    pub sell_in: i32,
    /// The item's value score.
    pub quality: i32,
}

/// A tick cannot underflow `sell_in`: every category but Sulfuras
/// decrements it by one.
pub open spec fn can_tick(item: Item) -> bool {
    spec_category(item.name@) == Category::Sulfuras || item.sell_in > i32::MIN
}

/// `after` is `before` advanced by exactly one tick.
pub open spec fn ticked(before: Item, after: Item) -> bool {
    let cat = spec_category(before.name@);
    &&& after.name@ == before.name@
    &&& after.sell_in as int == next_sell_in(cat, before.sell_in as int)
    &&& after.quality as int == next_quality(cat, before.sell_in as int, before.quality as int)
}

/// The category that an item name selects.
pub fn category(name: &String) -> (cat: Category)
    ensures
        cat == spec_category(name@),
{
    if *name == String::from_str("Aged Brie") {
        Category::AgedBrie
    } else if *name == String::from_str("Backstage passes to a TAFKAL80ETC concert") {
        Category::BackstagePass
    } else if *name == String::from_str("Sulfuras, Hand of Ragnaros") {
        Category::Sulfuras
    } else {
        Category::Normal
    }
}

impl Item {
    /// A new item with the given name, days remaining and quality.
    pub fn new(name: &str, sell_in: i32, quality: i32) -> (item: Item)
        ensures
            item.name@ == name@,
            item.sell_in == sell_in,
            item.quality == quality,
    {
        Item { name: String::from_str(name), sell_in, quality }
    }

    /// One point of quality gained, capped at 50.
    fn increase_quality(&mut self)
        ensures
            final(self).quality as int == inc_capped(old(self).quality as int),
            final(self).sell_in == old(self).sell_in,
            final(self).name == old(self).name,
    {
        if self.quality < 50 {
            self.quality += 1;
        }
    }

    /// One point of quality lost, floored at 0.
    fn decrease_quality(&mut self)
        ensures
            final(self).quality as int == dec_floored(old(self).quality as int),
            final(self).sell_in == old(self).sell_in,
            final(self).name == old(self).name,
    {
        if self.quality > 0 {
            self.quality -= 1;
        }
    }

    /// Quality dropped to 0 outright.
    fn reset_quality(&mut self)
        ensures
            final(self).quality == 0,
            final(self).sell_in == old(self).sell_in,
            final(self).name == old(self).name,
    {
        self.quality = 0;
    }

    /// The quality adjustment that precedes the `sell_in` decrement.
    fn pre_sell_in(&mut self, cat: Category)
        ensures
            final(self).quality as int == pre_quality(
                cat,
                old(self).sell_in as int,
                old(self).quality as int,
            ),
            final(self).sell_in == old(self).sell_in,
            final(self).name == old(self).name,
    {
        match cat {
            Category::AgedBrie => self.increase_quality(),
            Category::BackstagePass => {
                self.increase_quality();
                if self.sell_in < 11 {
                    self.increase_quality();
                }
                if self.sell_in < 6 {
                    self.increase_quality();
                }
            },
            Category::Sulfuras => (),
            Category::Normal => self.decrease_quality(),
        }
    }

    /// One day passes: `sell_in` drops by one for everything but Sulfuras.
    fn sell_in(&mut self, cat: Category)
        requires
            cat == Category::Sulfuras || old(self).sell_in > i32::MIN,
        ensures
            final(self).sell_in as int == next_sell_in(cat, old(self).sell_in as int),
            final(self).quality == old(self).quality,
            final(self).name == old(self).name,
    {
        match cat {
            Category::Sulfuras => (),
            _ => self.sell_in -= 1,
        }
    }

    /// The quality adjustment that follows the `sell_in` decrement, for
    /// items whose `sell_in` has fallen below zero.
    fn post_sell_in(&mut self, cat: Category)
        ensures
            final(self).quality as int == post_quality(cat, old(self).quality as int),
            final(self).sell_in == old(self).sell_in,
            final(self).name == old(self).name,
    {
        match cat {
            Category::AgedBrie => self.increase_quality(),
            Category::BackstagePass => self.reset_quality(),
            Category::Sulfuras => (),
            Category::Normal => self.decrease_quality(),
        }
    }

    /// One tick: the category's rule applied once, in place.
    pub fn update_quality(&mut self)
        requires
            can_tick(*old(self)),
        ensures
            ticked(*old(self), *final(self)),
    {
        let cat = category(&self.name);
        self.pre_sell_in(cat);
        self.sell_in(cat);
        if self.sell_in < 0 {
            self.post_sell_in(cat);
        }
    }
}

} // verus!
