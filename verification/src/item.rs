//! Items: the named, weighted candidates of a wheel.

use vstd::prelude::*;

verus! {

/// A named candidate with the weight that sets its share of the wheel.
#[derive(Clone, Debug, PartialEq, Eq)]
pub struct Item {
    pub name: String,
    pub weight: u32,
}

/// The weight of an item for which none was given.
pub fn default_weight() -> (w: u32)
    ensures
        w == 1,
{
    1
}

impl Item {
    /// A new item of the default weight.
    pub fn new(name: String) -> (item: Item)
        ensures
            item.name == name,
            item.weight == 1,
    {
        Item { name, weight: 1 }
    }

    /// An item equal to this one.
    pub fn duplicate(&self) -> (copy: Item)
        ensures
            copy == *self,
    {
        Item { name: self.name.clone(), weight: self.weight }
    }
}

/// Every item of `items` weighs at least 1.
pub open spec fn all_positive(items: Seq<Item>) -> bool {
    forall|i: int| 0 <= i < items.len() ==> (#[trigger] items[i]).weight >= 1
}

} // verus!
