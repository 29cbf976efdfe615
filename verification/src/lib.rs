//! Inventory aging rules for a small fixed catalog of items.
//!
//! Each [`Item`](item::Item) carries a name, a `sell_in` counter (days left)
//! and a `quality` score bounded to `[0, 50]` for every category but
//! Sulfuras. One call to [`GildedRose::update_quality`](engine::GildedRose)
//! advances every item by one day according to its category's rule.

pub mod engine;
pub mod item;
pub mod laws;

pub use engine::GildedRose;
pub use item::{Category, Item};
