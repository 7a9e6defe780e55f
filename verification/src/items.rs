//! A line of a bill: what was sold, what it cost and the image that shows it.

use vstd::prelude::*;

verus! {

/// An item that a service bills for.
#[derive(Debug, PartialEq, PartialOrd, Eq, Ord)]
pub struct BillableItem {
    name: String,
    cost: String,
    img: String,
}

impl Clone for BillableItem {
    fn clone(&self) -> (copy: Self)
        ensures
            copy == *self,
    {
        BillableItem { name: self.name.clone(), cost: self.cost.clone(), img: self.img.clone() }
    }
}

impl BillableItem {
    /// The item's name.
    pub closed spec fn name_view(&self) -> Seq<char> {
        self.name@
    }

    /// The item's cost, as the text shown to the customer.
    pub closed spec fn cost_view(&self) -> Seq<char> {
        self.cost@
    }

    /// The address of the item's image.
    pub closed spec fn img_view(&self) -> Seq<char> {
        self.img@
    }

    /// An item whose name, cost and image are all empty.
    pub fn new() -> (item: Self)
        ensures
            item.name_view() == Seq::<char>::empty(),
            item.cost_view() == Seq::<char>::empty(),
            item.img_view() == Seq::<char>::empty(),
    {
        BillableItem { name: String::new(), cost: String::new(), img: String::new() }
    }

    /// The item with its name set to `name`.
    pub fn add_name(self, name: &str) -> (item: Self)
        ensures
            item.name_view() == name@,
            item.cost_view() == self.cost_view(),
            item.img_view() == self.img_view(),
    {
        let mut item = self;
        item.name = name.to_owned();
        item
    }

    /// The item with its cost set to `cost`.
    pub fn add_cost(self, cost: &str) -> (item: Self)
        ensures
            item.name_view() == self.name_view(),
            item.cost_view() == cost@,
            item.img_view() == self.img_view(),
    {
        let mut item = self;
        item.cost = cost.to_owned();
        item
    }

    /// The item with its image address set to `img`.
    pub fn add_img(self, img: &str) -> (item: Self)
        ensures
            item.name_view() == self.name_view(),
            item.cost_view() == self.cost_view(),
            item.img_view() == img@,
    {
        let mut item = self;
        item.img = img.to_owned();
        item
    }

    /// The item's name.
    pub fn name(&self) -> (name: &str)
        ensures
            name@ == self.name_view(),
    {
        self.name.as_str()
    }

    /// The item's cost.
    pub fn cost(&self) -> (cost: &str)
        ensures
            cost@ == self.cost_view(),
    {
        self.cost.as_str()
    }

    /// The address of the item's image.
    pub fn img(&self) -> (img: &str)
        ensures
            img@ == self.img_view(),
    {
        self.img.as_str()
    }
}

impl Default for BillableItem {
    fn default() -> (item: Self)
        ensures
            item.name_view() == Seq::<char>::empty(),
            item.cost_view() == Seq::<char>::empty(),
            item.img_view() == Seq::<char>::empty(),
    {
        BillableItem::new()
    }
}

/// A copy of a list of items, in the same order.
pub fn clone_items(items: &[BillableItem]) -> (copy: Vec<BillableItem>)
    ensures
        copy@ == items@,
{
    let mut copy: Vec<BillableItem> = Vec::new();
    let mut i: usize = 0;
    while i < items.len()
        invariant
            i <= items@.len(),
            copy@ == items@.subrange(0, i as int),
        decreases items@.len() - i,
    {
        copy.push(items[i].clone());
        i = i + 1;
        assert(copy@ =~= items@.subrange(0, i as int));
    }
    assert(items@.subrange(0, items@.len() as int) =~= items@);
    copy
}

} // verus!
