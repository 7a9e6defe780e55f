//! A receipt under construction: the business, its logo, the date of sale,
//! the tax and the priced items.

use vstd::prelude::*;
use crate::currency::Currency;

verus! {

/// An image together with its MIME type.
#[derive(Debug, PartialEq, Eq)]
pub struct LogoImage {
    pub mime: String,
    pub bytes: Vec<u8>,
}

impl Default for LogoImage {
    fn default() -> (image: Self)
        ensures
            image.mime@ == Seq::<char>::empty(),
            image.bytes@ == Seq::<u8>::empty(),
    {
        LogoImage { mime: String::new(), bytes: Vec::new() }
    }
}

/// The parts of a receipt.
#[derive(Debug)]
pub struct ReceiptService {
    logo: LogoImage,
    business_name: String,
    date_of_sale: String,
    tax: u32,
    items: Vec<(String, Currency)>,
}

impl ReceiptService {
    /// The business's logo.
    pub closed spec fn logo_view(&self) -> LogoImage {
        self.logo
    }

    /// The name of the business.
    pub closed spec fn business_name_view(&self) -> Seq<char> {
        self.business_name@
    }

    /// The date of sale.
    pub closed spec fn date_of_sale_view(&self) -> Seq<char> {
        self.date_of_sale@
    }

    /// The tax.
    pub closed spec fn tax_view(&self) -> u32 {
        self.tax
    }

    /// The items with their prices, in the order in which they were added.
    pub closed spec fn items_view(&self) -> Seq<(String, Currency)> {
        self.items@
    }

    /// A receipt with an empty logo, no name, no date, no tax and no items.
    pub fn new() -> (receipt: Self)
        ensures
            receipt.logo_view().mime@ == Seq::<char>::empty(),
            receipt.logo_view().bytes@ == Seq::<u8>::empty(),
            receipt.business_name_view() == Seq::<char>::empty(),
            receipt.date_of_sale_view() == Seq::<char>::empty(),
            receipt.tax_view() == 0,
            receipt.items_view() == Seq::<(String, Currency)>::empty(),
    {
        ReceiptService {
            logo: LogoImage::default(),
            business_name: String::new(),
            date_of_sale: String::new(),
            tax: 0,
            items: Vec::new(),
        }
    }

    /// Sets the logo.
    pub fn add_logo(&mut self, logo: LogoImage) -> (receipt: &mut Self)
        ensures
            *final(self) == *final(receipt),
            receipt.logo_view() == logo,
            receipt.business_name_view() == old(self).business_name_view(),
            receipt.date_of_sale_view() == old(self).date_of_sale_view(),
            receipt.tax_view() == old(self).tax_view(),
            receipt.items_view() == old(self).items_view(),
    {
        self.logo = logo;
        self
    }

    /// Sets the name of the business.
    pub fn add_business_name(&mut self, business_name: &str) -> (receipt: &mut Self)
        ensures
            *final(self) == *final(receipt),
            receipt.logo_view() == old(self).logo_view(),
            receipt.business_name_view() == business_name@,
            receipt.date_of_sale_view() == old(self).date_of_sale_view(),
            receipt.tax_view() == old(self).tax_view(),
            receipt.items_view() == old(self).items_view(),
    {
        self.business_name = business_name.to_owned();
        self
    }

    /// Sets the date of sale.
    pub fn add_date_of_sale(&mut self, date_of_sale: &str) -> (receipt: &mut Self)
        ensures
            *final(self) == *final(receipt),
            receipt.logo_view() == old(self).logo_view(),
            receipt.business_name_view() == old(self).business_name_view(),
            receipt.date_of_sale_view() == date_of_sale@,
            receipt.tax_view() == old(self).tax_view(),
            receipt.items_view() == old(self).items_view(),
    {
        self.date_of_sale = date_of_sale.to_owned();
        self
    }

    /// Sets the tax.
    pub fn add_tax(&mut self, tax: u32) -> (receipt: &mut Self)
        ensures
            *final(self) == *final(receipt),
            receipt.logo_view() == old(self).logo_view(),
            receipt.business_name_view() == old(self).business_name_view(),
            receipt.date_of_sale_view() == old(self).date_of_sale_view(),
            receipt.tax_view() == tax,
            receipt.items_view() == old(self).items_view(),
    {
        self.tax = tax;
        self
    }

    /// Adds a priced item after the items already there.
    pub fn add_item(&mut self, item: (String, Currency)) -> (receipt: &mut Self)
        ensures
            *final(self) == *final(receipt),
            receipt.logo_view() == old(self).logo_view(),
            receipt.business_name_view() == old(self).business_name_view(),
            receipt.date_of_sale_view() == old(self).date_of_sale_view(),
            receipt.tax_view() == old(self).tax_view(),
            receipt.items_view() == old(self).items_view().push(item),
    {
        self.items.push(item);
        self
    }
}

impl Default for ReceiptService {
    fn default() -> (receipt: Self)
        ensures
            receipt.logo_view().mime@ == Seq::<char>::empty(),
            receipt.logo_view().bytes@ == Seq::<u8>::empty(),
            receipt.business_name_view() == Seq::<char>::empty(),
            receipt.date_of_sale_view() == Seq::<char>::empty(),
            receipt.tax_view() == 0,
            receipt.items_view() == Seq::<(String, Currency)>::empty(),
    {
        ReceiptService::new()
    }
}

} // verus!
