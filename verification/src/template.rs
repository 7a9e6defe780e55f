//! The HTML receipt of a sale, with a link to and a QR code of the
//! transaction that paid for it.

use vstd::prelude::*;
use vstd::string::StringExecFns;
use crate::errors::{DocumentServiceError, DocumentServiceResult};
use crate::items::BillableItem;
use crate::qr::{qr_byte_capacity, qr_data_url, QrEccLevel, QrGenerator};
use vstd::utf8::encode_utf8;

verus! {

/// Where a transaction is shown on the Solana explorer, without its signature.
pub const EXPLORER_TX_URL: &'static str = "https://explorer.solana.com/tx/";

/// Everything up to the customer's name: head, styles, logo and banner.
pub const PAGE_HEAD: &'static str = "<html xmlns=\"http://www.w3.org/1999/xhtml\"><head> <meta http-equiv=\"Content-Type\" content=\"text/html; charset=utf-8\" /> <meta http-equiv=\"X-UA-Compatible\" content=\"IE=edge\" /> <meta name=\"viewport\" content=\"width=device-width, initial-scale=1.0\"><title>Stellar Saga Coffee</title></head><style> @import url('https://fonts.googleapis.com/css2?family=Roboto+Condensed:wght@700&display=swap'); \n    /* No spacing of top or left edge */\n    body {\n        margin: 0;\n    }\n\n    /* No spacing between tables */\n    table {\n        border-spacing: 0;\n    }\n\n    td {\n        padding: 0;\n    }\n\n    img {\n        border: 0;\n    }\n\n    .width-50 {\n        width: 100%;\n        max-width: 300px;\n        display: inline-block;\n        vertical-align: top;\n    }\n\n    .wrapper {\n        width: 100%;\n        table-layout: fixed;\n        background-color: #e5dec7;\n        padding-bottom: 60px;\n        text-align: center;\n    }\n\n    .main {\n        width: 100%;\n        max-width: 600px;\n        background-color: #ffffff;\n        font-family: sans-serif;\n        color: #4a4a4a;\n        box-shadow: 0 0 25px rgba(0, 0, 0, .15);\n    }\n\n    .social {\n        width: 38px;\n    }\n\n    .social-media {\n        padding: 12px 0 12px 62px;\n    }\n\n    .two-columns {\n        /* Remove padding for the links*/\n        font-size: 0;\n        text-align: center;\n    }\n\n    .two-columns .column {\n        width: 100%;\n        max-width: 300px;\n        display: inline-block;\n        vertical-align: top;\n    }\n\n    tr {\n        border-bottom: 1px solid red;\n    }\n     </style><body><div class=\"wrapper\"><table class=\"main\" width=\"100%\"><tr><td height=\"8\" style=\"background-color: #000000;\"></td></tr><tr><td style=\"padding: 14px 0 4px\"><table width=\"100%\"><tr><td class=\"two-columns\"><table class=\"column\"><tr><td style=\"padding: 0 22px 10px\"><a href=\"m81.network/fusiondrive\"><img src=\"img/coffee-logo.png\" alt=\"FusionDrive Logo\" srcset=\"\" title=\"FusionDrive Logo\" width=\"50px\"></a></td><td><p style=\"font-size: 35px;\">Saga Coffee</p></td></tr></table><table class=\"column\"><tr><td class=\"social-media\"><a href=\"#\"><img class=\"social\" src=\"img/instagram.png\" alt=\"\"></a><a href=\"#\"><img class=\"social\" src=\"img/facebook.png\" alt=\"\"></a><a href=\"#\"><img class=\"social\" src=\"img/twitter.png\" alt=\"\"></a><a href=\"#\"><img class=\"social\" src=\"img/youtube.png\" alt=\"\"></a><a href=\"#\"><img class=\"social\" src=\"img/linkedin.png\" alt=\"\"></a></td></tr></table></td></tr></table></td></tr><tr><td style=\"text-align: center; font-family: sans-serif;\"><h3 style=\"font-size : 50px\"> ";

/// Between the customer's name and the date of issue.
pub const AFTER_CUSTOMER: &'static str = " </h3><p style=\"font-size : 18px; padding: 20px \"> Receipt from the Saga\n                                    Coffee Shop on  ";

/// Between the date of issue and the item rows.
pub const AFTER_DATE: &'static str = " </p></td></tr><tr><td style=\"padding: 5px;\"><table width=\"100%\">";

/// The start of an item row, up to the item's image address.
pub const ROW_OPEN: &'static str = "<tr><td style=\"text-align: center;\"><img src=\"";

/// Between an item's image address and its name.
pub const ROW_AFTER_IMG: &'static str = "\" alt=\"\" srcset=\"\" width=\"100px\"></td><td style=\"width: 250px; padding: 50px;\"><span style=\" width: 100px; margin-right: 10px\"> ";

/// Between an item's name and its cost.
pub const ROW_AFTER_NAME: &'static str = " </span><span style=\"color: rgb(24, 136, 211);  \"> ";

/// The end of an item row.
pub const ROW_CLOSE: &'static str = " </span></td></tr>";

/// Between the item rows and the link to the transaction.
pub const AFTER_ITEMS: &'static str = "</table><table style=\"width: 600px\"><tr><td><hr style=\"width: 100%; border: 0px; border-bottom: 3px rgb(24, 136, 211) dotted;\"></td></tr></table><table style=\"max-width: 600px; text-align: center; width: 100%; padding: 10px;\"><tr><td><a style=\"font-size: 10px\" href=\"";

/// Between the link to the transaction and its signature.
pub const AFTER_TX_URL: &'static str = "\"> Tx Signature: ";

/// Between the signature and the QR code image.
pub const AFTER_TX: &'static str = " </a><div style=\"width: 20px; border: transparent\"></div></td></tr><tr><td><img src=\"";

/// Everything after the QR code image.
pub const PAGE_TAIL: &'static str = "\" alt=\"\" width=\"400px\"></td></tr><tr style=\"width: 100%\"><td> Scan this QR code to view the transaction on Solana Chain </td></tr></table></td></tr></table></div></body></html>";

/// The explorer address of the transaction with signature `tx`.
pub open spec fn tx_url(tx: Seq<char>) -> Seq<char> {
    EXPLORER_TX_URL@ + tx
}

/// The table row that shows one item: its image, its name and its cost.
pub open spec fn item_row(item: BillableItem) -> Seq<char> {
    ROW_OPEN@ + item.img_view() + ROW_AFTER_IMG@ + item.name_view() + ROW_AFTER_NAME@
        + item.cost_view() + ROW_CLOSE@
}

/// The rows of all items, in order.
pub open spec fn item_rows(items: Seq<BillableItem>) -> Seq<char>
    decreases items.len(),
{
    if items.len() == 0 {
        Seq::empty()
    } else {
        item_rows(items.drop_last()) + item_row(items.last())
    }
}

/// The rows of two lists of items, one after the other, are the rows of the
/// two lists joined: a receipt shows every item once, in the order given.
pub proof fn lemma_item_rows_append(a: Seq<BillableItem>, b: Seq<BillableItem>)
    ensures
        item_rows(a + b) == item_rows(a) + item_rows(b),
    decreases b.len(),
{
    if b.len() == 0 {
        assert(a + b =~= a);
        assert(item_rows(b) =~= Seq::<char>::empty());
        assert(item_rows(a) + item_rows(b) =~= item_rows(a));
    } else {
        lemma_item_rows_append(a, b.drop_last());
        assert((a + b).drop_last() =~= a + b.drop_last());
        assert((a + b).last() == b.last());
        assert(item_rows(a + b) =~= item_rows(a) + item_rows(b));
    }
}

/// The receipt page of `customer`'s purchase of `items` on `date`, paid by
/// transaction `tx`, with `qr` as the source of the QR code image.
pub open spec fn receipt_html(
    customer: Seq<char>,
    date: Seq<char>,
    items: Seq<BillableItem>,
    tx: Seq<char>,
    qr: Seq<char>,
) -> Seq<char> {
    PAGE_HEAD@ + customer + AFTER_CUSTOMER@ + date + AFTER_DATE@ + item_rows(items) + AFTER_ITEMS@
        + tx_url(tx) + AFTER_TX_URL@ + tx + AFTER_TX@ + qr + PAGE_TAIL@
}

/// The receipt page, with the QR code of the transaction's explorer address,
/// or the QR code's error when that code cannot be made.
pub open spec fn receipt_page(
    customer: Seq<char>,
    date: Seq<char>,
    items: Seq<BillableItem>,
    tx: Seq<char>,
) -> Result<Seq<char>, DocumentServiceError> {
    match qr_data_url(tx_url(tx)) {
        Ok(qr) => Ok(receipt_html(customer, date, items, tx, qr)),
        Err(e) => Err(e),
    }
}

/// The receipt's QR code is the code of the transaction's explorer address,
/// `https://explorer.solana.com/tx/` followed by the signature, so scanning it
/// opens the transaction; the page fails exactly when that code fails.
pub proof fn lemma_receipt_qr_is_explorer_link(
    customer: Seq<char>,
    date: Seq<char>,
    items: Seq<BillableItem>,
    tx: Seq<char>,
)
    ensures
        qr_data_url("https://explorer.solana.com/tx/"@ + tx) matches Ok(qr) ==> receipt_page(
            customer,
            date,
            items,
            tx,
        ) == Ok::<Seq<char>, DocumentServiceError>(receipt_html(customer, date, items, tx, qr)),
        qr_data_url("https://explorer.solana.com/tx/"@ + tx) matches Err(e) ==> receipt_page(
            customer,
            date,
            items,
            tx,
        ) == Err::<Seq<char>, DocumentServiceError>(e),
{
}

/// The page shows the QR image last: its source is `qr`, right before the
/// fixed end of the page; and the link before it is the explorer address of
/// `tx`, followed by the signature as text.
pub proof fn lemma_receipt_ends_with_link_and_qr(
    customer: Seq<char>,
    date: Seq<char>,
    items: Seq<BillableItem>,
    tx: Seq<char>,
    qr: Seq<char>,
)
    ensures
        ({
            let page = receipt_html(customer, date, items, tx, qr);
            let tail_start = page.len() - PAGE_TAIL@.len();
            let qr_start = tail_start - qr.len();
            let sig_end = qr_start - AFTER_TX@.len();
            let sig_start = sig_end - tx.len();
            let link_end = sig_start - AFTER_TX_URL@.len();
            &&& page.subrange(tail_start, page.len() as int) == PAGE_TAIL@
            &&& page.subrange(qr_start, tail_start) == qr
            &&& page.subrange(sig_end, qr_start) == AFTER_TX@
            &&& page.subrange(sig_start, sig_end) == tx
            &&& page.subrange(link_end - tx.len() - 31, link_end) == "https://explorer.solana.com/tx/"@ + tx
        }),
{
    reveal_strlit("https://explorer.solana.com/tx/");
    let page = receipt_html(customer, date, items, tx, qr);
    let head = PAGE_HEAD@ + customer + AFTER_CUSTOMER@ + date + AFTER_DATE@ + item_rows(items)
        + AFTER_ITEMS@;
    let link = tx_url(tx);
    assert(EXPLORER_TX_URL@ == "https://explorer.solana.com/tx/"@);
    assert(page =~= head + link + AFTER_TX_URL@ + tx + AFTER_TX@ + qr + PAGE_TAIL@);
    let tail_start = page.len() - PAGE_TAIL@.len();
    let qr_start = tail_start - qr.len();
    let sig_end = qr_start - AFTER_TX@.len();
    let sig_start = sig_end - tx.len();
    let link_end = sig_start - AFTER_TX_URL@.len();
    assert(page.subrange(tail_start, page.len() as int) =~= PAGE_TAIL@);
    assert(page.subrange(qr_start, tail_start) =~= qr);
    assert(page.subrange(sig_end, qr_start) =~= AFTER_TX@);
    assert(page.subrange(sig_start, sig_end) =~= tx);
    assert(link.len() == 31 + tx.len());
    assert(page.subrange(link_end - tx.len() - 31, link_end) =~= link);
}

/// The page opens with the fixed head, then the customer's name, then the
/// date of issue, then the item rows, in that order.
pub proof fn lemma_receipt_starts_with_customer_and_date(
    customer: Seq<char>,
    date: Seq<char>,
    items: Seq<BillableItem>,
    tx: Seq<char>,
    qr: Seq<char>,
)
    ensures
        ({
            let page = receipt_html(customer, date, items, tx, qr);
            let name_start = PAGE_HEAD@.len() as int;
            let name_end = name_start + customer.len();
            let date_start = name_end + AFTER_CUSTOMER@.len();
            let date_end = date_start + date.len();
            let rows_start = date_end + AFTER_DATE@.len();
            &&& page.subrange(0, name_start) == PAGE_HEAD@
            &&& page.subrange(name_start, name_end) == customer
            &&& page.subrange(name_end, date_start) == AFTER_CUSTOMER@
            &&& page.subrange(date_start, date_end) == date
            &&& page.subrange(date_end, rows_start) == AFTER_DATE@
            &&& page.subrange(rows_start, rows_start + item_rows(items).len()) == item_rows(items)
        }),
{
    let page = receipt_html(customer, date, items, tx, qr);
    let rest = AFTER_ITEMS@ + tx_url(tx) + AFTER_TX_URL@ + tx + AFTER_TX@ + qr + PAGE_TAIL@;
    assert(page =~= PAGE_HEAD@ + customer + AFTER_CUSTOMER@ + date + AFTER_DATE@ + item_rows(items)
        + rest);
    let name_start = PAGE_HEAD@.len() as int;
    let name_end = name_start + customer.len();
    let date_start = name_end + AFTER_CUSTOMER@.len();
    let date_end = date_start + date.len();
    let rows_start = date_end + AFTER_DATE@.len();
    assert(page.subrange(0, name_start) =~= PAGE_HEAD@);
    assert(page.subrange(name_start, name_end) =~= customer);
    assert(page.subrange(name_end, date_start) =~= AFTER_CUSTOMER@);
    assert(page.subrange(date_start, date_end) =~= date);
    assert(page.subrange(date_end, rows_start) =~= AFTER_DATE@);
    assert(page.subrange(rows_start, rows_start + item_rows(items).len()) =~= item_rows(items));
}

/// Gathers what a receipt shows and renders it as HTML.
#[derive(Debug)]
pub struct TemplateBuilder {
    customer_name: String,
    date_of_issue: String,
    items: Vec<BillableItem>,
    tx_signature: String,
}

impl TemplateBuilder {
    /// The customer's name.
    pub closed spec fn customer_view(&self) -> Seq<char> {
        self.customer_name@
    }

    /// The date of issue.
    pub closed spec fn date_view(&self) -> Seq<char> {
        self.date_of_issue@
    }

    /// The items, in order.
    pub closed spec fn items_view(&self) -> Seq<BillableItem> {
        self.items@
    }

    /// The signature of the paying transaction.
    pub closed spec fn tx_view(&self) -> Seq<char> {
        self.tx_signature@
    }

    /// A builder with no customer, no date, no items and no transaction.
    pub fn new() -> (builder: Self)
        ensures
            builder.customer_view() == Seq::<char>::empty(),
            builder.date_view() == Seq::<char>::empty(),
            builder.items_view() == Seq::<BillableItem>::empty(),
            builder.tx_view() == Seq::<char>::empty(),
    {
        TemplateBuilder {
            customer_name: String::new(),
            date_of_issue: String::new(),
            items: Vec::new(),
            tx_signature: String::new(),
        }
    }

    /// Sets the customer's name.
    pub fn add_customer(&mut self, name: &str) -> (builder: &mut Self)
        ensures
            *final(self) == *final(builder),
            builder.customer_view() == name@,
            builder.date_view() == old(self).date_view(),
            builder.items_view() == old(self).items_view(),
            builder.tx_view() == old(self).tx_view(),
    {
        self.customer_name = name.to_owned();
        self
    }

    /// Sets the date of issue.
    pub fn add_date(&mut self, date: &str) -> (builder: &mut Self)
        ensures
            *final(self) == *final(builder),
            builder.customer_view() == old(self).customer_view(),
            builder.date_view() == date@,
            builder.items_view() == old(self).items_view(),
            builder.tx_view() == old(self).tx_view(),
    {
        self.date_of_issue = date.to_owned();
        self
    }

    /// Adds an item after the items already there.
    pub fn add_item(&mut self, item: BillableItem) -> (builder: &mut Self)
        ensures
            *final(self) == *final(builder),
            builder.customer_view() == old(self).customer_view(),
            builder.date_view() == old(self).date_view(),
            builder.items_view() == old(self).items_view().push(item),
            builder.tx_view() == old(self).tx_view(),
    {
        self.items.push(item);
        self
    }

    /// Replaces the items with `items`.
    pub fn add_items(&mut self, items: Vec<BillableItem>) -> (builder: &mut Self)
        ensures
            *final(self) == *final(builder),
            builder.customer_view() == old(self).customer_view(),
            builder.date_view() == old(self).date_view(),
            builder.items_view() == items@,
            builder.tx_view() == old(self).tx_view(),
    {
        self.items = items;
        self
    }

    /// Sets the signature of the paying transaction.
    pub fn add_tx(&mut self, signature: &str) -> (builder: &mut Self)
        ensures
            *final(self) == *final(builder),
            builder.customer_view() == old(self).customer_view(),
            builder.date_view() == old(self).date_view(),
            builder.items_view() == old(self).items_view(),
            builder.tx_view() == signature@,
    {
        self.tx_signature = signature.to_owned();
        self
    }

    /// The receipt page. It fails, with the QR code's error, exactly when the
    /// QR code of the transaction's explorer address cannot be made.
    pub fn to_template_1(&self) -> (page: DocumentServiceResult<String>)
        ensures
            page matches Ok(html) ==> (qr_data_url("https://explorer.solana.com/tx/"@
                + self.tx_view()) matches Ok(qr) && html@ == receipt_html(
                self.customer_view(),
                self.date_view(),
                self.items_view(),
                self.tx_view(),
                qr,
            )),
            encode_utf8(tx_url(self.tx_view())).len() <= qr_byte_capacity(QrEccLevel::High)
                ==> page is Ok,
            match page {
                Ok(html) => receipt_page(
                    self.customer_view(),
                    self.date_view(),
                    self.items_view(),
                    self.tx_view(),
                ) == Ok::<Seq<char>, DocumentServiceError>(html@),
                Err(e) => receipt_page(
                    self.customer_view(),
                    self.date_view(),
                    self.items_view(),
                    self.tx_view(),
                ) == Err::<Seq<char>, DocumentServiceError>(e),
            },
    {
        let mut tx_sign_url = EXPLORER_TX_URL.to_owned();
        tx_sign_url.append(self.tx_signature.as_str());
        let mut generator = QrGenerator::new();
        generator.add_border(4).change_error_correction_level(QrEccLevel::High).add_content(
            tx_sign_url.as_str(),
        );
        let qr_base64 = match generator.build_qr_png() {
            Ok(url) => url,
            Err(e) => {
                return Err(e);
            },
        };
        let mut html = PAGE_HEAD.to_owned();
        html.append(self.customer_name.as_str());
        html.append(AFTER_CUSTOMER);
        html.append(self.date_of_issue.as_str());
        html.append(AFTER_DATE);
        push_item_rows(&mut html, self.items.as_slice());
        html.append(AFTER_ITEMS);
        html.append(tx_sign_url.as_str());
        html.append(AFTER_TX_URL);
        html.append(self.tx_signature.as_str());
        html.append(AFTER_TX);
        html.append(qr_base64.as_str());
        html.append(PAGE_TAIL);
        assert(html@ =~= receipt_html(
            self.customer_name@,
            self.date_of_issue@,
            self.items@,
            self.tx_signature@,
            qr_base64@,
        ));
        Ok(html)
    }
}

impl Default for TemplateBuilder {
    fn default() -> (builder: Self)
        ensures
            builder.customer_view() == Seq::<char>::empty(),
            builder.date_view() == Seq::<char>::empty(),
            builder.items_view() == Seq::<BillableItem>::empty(),
            builder.tx_view() == Seq::<char>::empty(),
    {
        TemplateBuilder::new()
    }
}

/// Appends the rows of `items` to `html`.
fn push_item_rows(html: &mut String, items: &[BillableItem])
    ensures
        final(html)@ == old(html)@ + item_rows(items@),
{
    let mut i: usize = 0;
    while i < items.len()
        invariant
            i <= items@.len(),
            html@ == old(html)@ + item_rows(items@.subrange(0, i as int)),
        decreases items@.len() - i,
    {
        let item = &items[i];
        html.append(ROW_OPEN);
        html.append(item.img());
        html.append(ROW_AFTER_IMG);
        html.append(item.name());
        html.append(ROW_AFTER_NAME);
        html.append(item.cost());
        html.append(ROW_CLOSE);
        proof {
            let next = items@.subrange(0, i + 1);
            assert(next.drop_last() =~= items@.subrange(0, i as int));
            assert(next.last() == items@[i as int]);
        }
        i = i + 1;
    }
    assert(items@.subrange(0, items@.len() as int) =~= items@);
}

} // verus!
