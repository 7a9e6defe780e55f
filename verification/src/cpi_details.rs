//! The details that a cross-program invocation carries to describe a sale.

use vstd::prelude::*;
use crate::items::BillableItem;

verus! {

/// Customer, date of issue and items of a sale.
#[derive(Debug, PartialEq, PartialOrd)]
pub struct CpiDetails {
    customer_name: String,
    date_of_issue: String,
    items: Vec<BillableItem>,
}

impl Clone for CpiDetails {
    fn clone(&self) -> (copy: Self)
        ensures
            copy.customer_name_view() == self.customer_name_view(),
            copy.date_of_issue_view() == self.date_of_issue_view(),
            copy.items_view() == self.items_view(),
    {
        CpiDetails {
            customer_name: self.customer_name.clone(),
            date_of_issue: self.date_of_issue.clone(),
            items: crate::items::clone_items(self.items.as_slice()),
        }
    }
}

impl CpiDetails {
    /// The customer's name.
    pub closed spec fn customer_name_view(&self) -> Seq<char> {
        self.customer_name@
    }

    /// The date of issue.
    pub closed spec fn date_of_issue_view(&self) -> Seq<char> {
        self.date_of_issue@
    }

    /// The items, in the order in which they were added.
    pub closed spec fn items_view(&self) -> Seq<BillableItem> {
        self.items@
    }

    /// Details with an empty name, an empty date and no items.
    pub fn new() -> (details: Self)
        ensures
            details.customer_name_view() == Seq::<char>::empty(),
            details.date_of_issue_view() == Seq::<char>::empty(),
            details.items_view() == Seq::<BillableItem>::empty(),
    {
        CpiDetails { customer_name: String::new(), date_of_issue: String::new(), items: Vec::new() }
    }

    /// The details with the customer's name set to `name`.
    pub fn add_name(self, name: String) -> (details: Self)
        ensures
            details.customer_name_view() == name@,
            details.date_of_issue_view() == self.date_of_issue_view(),
            details.items_view() == self.items_view(),
    {
        let mut details = self;
        details.customer_name = name;
        details
    }

    /// The details with the date of issue set to `date_of_issue`.
    pub fn add_date(self, date_of_issue: String) -> (details: Self)
        ensures
            details.customer_name_view() == self.customer_name_view(),
            details.date_of_issue_view() == date_of_issue@,
            details.items_view() == self.items_view(),
    {
        let mut details = self;
        details.date_of_issue = date_of_issue;
        details
    }

    /// The details with `item` added after the items already there.
    pub fn add_items(self, item: BillableItem) -> (details: Self)
        ensures
            details.customer_name_view() == self.customer_name_view(),
            details.date_of_issue_view() == self.date_of_issue_view(),
            details.items_view() == self.items_view().push(item),
    {
        let mut details = self;
        details.items.push(item);
        details
    }

    /// The customer's name.
    pub fn customer_name(&self) -> (name: &str)
        ensures
            name@ == self.customer_name_view(),
    {
        self.customer_name.as_str()
    }

    /// The date of issue.
    pub fn date_of_issue(&self) -> (date: &str)
        ensures
            date@ == self.date_of_issue_view(),
    {
        self.date_of_issue.as_str()
    }

    /// The items, in the order in which they were added.
    pub fn items(&self) -> (items: &[BillableItem])
        ensures
            items@ == self.items_view(),
    {
        self.items.as_slice()
    }
}

impl Default for CpiDetails {
    fn default() -> (details: Self)
        ensures
            details.customer_name_view() == Seq::<char>::empty(),
            details.date_of_issue_view() == Seq::<char>::empty(),
            details.items_view() == Seq::<BillableItem>::empty(),
    {
        CpiDetails::new()
    }
}

} // verus!
