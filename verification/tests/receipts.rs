use fusion_drive::account_filter::{email_builder, exec_command, html_builder, CommandJob};
use fusion_drive::commands::{Pubkey, ServiceCommand};
use fusion_drive::cpi_details::CpiDetails;
use fusion_drive::currency::Currency;
use fusion_drive::items::BillableItem;
use fusion_drive::mail::MailCreator;
use fusion_drive::qr::{QrEccLevel, QrGenerator};
use fusion_drive::receipt::{LogoImage, ReceiptService};
use fusion_drive::template::TemplateBuilder;
use fusion_drive::wire::decode_tx_html;

fn coffee_items() -> Vec<BillableItem> {
    let mut my_items = Vec::<BillableItem>::new();
    my_items.push(
        BillableItem::new()
            .add_cost("USDC-SPL 2")
            .add_img("http://192.168.41.65:5000/img/espresso.jpg")
            .add_name("Espresso"),
    );
    my_items.push(
        BillableItem::new()
            .add_cost("USDC-SPL 0.88")
            .add_img("http://192.168.41.65:5000/img/doughnut.jpg")
            .add_name("Doughnut"),
    );
    my_items.push(
        BillableItem::new()
            .add_cost("USDC-SPL 1.8")
            .add_img("http://192.168.41.65:5000/img/mocha.jpg")
            .add_name("Mocha"),
    );
    my_items.push(
        BillableItem::new()
            .add_cost("USDC-SPL 0.2")
            .add_img("http://192.168.41.65:5000/img/croissant.jpg")
            .add_name("Croissant"),
    );
    my_items
}

const TX: &str =
    "5U2NLNdCqS1gpvpzzo2VaExNCLR8KtiLm9HHimAqVhctGzizVDY5rfzTJwJnCU2GKjwmVBMkwT8RcUj7Ac86Xyss";

#[test]
fn main() {
    let my_items = coffee_items();
    let mut builder = TemplateBuilder::new();
    builder
        .add_customer("Anatoly")
        .add_date("Wed 1 March 2023")
        .add_tx(TX)
        .add_items(my_items);
    let html = builder.to_template_1().unwrap();

    let mail = MailCreator::new()
        .add_recipient_name("M81 Network")
        .add_recipient_email("support@m81.network")
        .add_subject("Receipt")
        .add_body(&html);
    assert_eq!(mail.recipient_name(), "M81 Network");
    assert_eq!(mail.recipient_email(), "support@m81.network");
    assert_eq!(mail.subject(), "Receipt");
    assert_eq!(mail.body(), html);
}

#[test]
fn receipt_shows_customer_date_items_and_transaction() {
    let mut builder = TemplateBuilder::new();
    builder
        .add_customer("Anatoly")
        .add_date("Wed 1 March 2023")
        .add_tx(TX)
        .add_items(coffee_items());
    let html = builder.to_template_1().unwrap();
    assert!(html.starts_with("<html xmlns=\"http://www.w3.org/1999/xhtml\"><head> "));
    assert!(html.ends_with("</body></html>"));
    assert!(html.contains("<h3 style=\"font-size : 50px\"> Anatoly </h3>"));
    assert!(html.contains(" Wed 1 March 2023 </p>"));
    let url = format!("href=\"https://explorer.solana.com/tx/{}\"> Tx Signature: {} </a>", TX, TX);
    assert!(html.contains(&url));
    assert!(html.contains("<img src=\"data:image/png;base64,"));
    let espresso = html.find("Espresso").unwrap();
    let doughnut = html.find("Doughnut").unwrap();
    let mocha = html.find("Mocha").unwrap();
    let croissant = html.find("Croissant").unwrap();
    assert!(espresso < doughnut && doughnut < mocha && mocha < croissant);
    assert!(html.contains(
        "<img src=\"http://192.168.41.65:5000/img/mocha.jpg\" alt=\"\" srcset=\"\" width=\"100px\">"
    ));
    assert!(html.contains("> USDC-SPL 0.88 </span>"));
}

#[test]
fn receipt_without_items_has_an_empty_item_table() {
    let mut builder = TemplateBuilder::new();
    builder.add_customer("A").add_date("D").add_tx("T");
    let html = builder.to_template_1().unwrap();
    assert!(html.contains(" D </p></td></tr><tr><td style=\"padding: 5px;\"><table width=\"100%\"></table>"));
}

#[test]
fn add_item_appends_and_add_items_replaces() {
    let mut builder = TemplateBuilder::new();
    builder.add_customer("A").add_date("D").add_tx("T");
    builder.add_item(BillableItem::new().add_name("First"));
    builder.add_item(BillableItem::new().add_name("Second"));
    let html = builder.to_template_1().unwrap();
    assert!(html.find("First").unwrap() < html.find("Second").unwrap());
    builder.add_items(vec![BillableItem::new().add_name("Only")]);
    let html = builder.to_template_1().unwrap();
    assert!(!html.contains("First"));
    assert!(html.contains("Only"));
}

#[test]
fn qr_png_is_a_data_url_of_base64() {
    let mut generator = QrGenerator::new();
    generator.add_content("https://explorer.solana.com/tx/abc");
    let url = generator.build_qr_png().unwrap();
    assert!(url.starts_with("data:image/png;base64,"));
    let body = &url["data:image/png;base64,".len()..];
    assert!(body.len() > 100);
    assert!(!body.contains('='));
    // The PNG signature, base64 encoded.
    assert!(body.starts_with("iVBORw0KGgo"));
}

#[test]
fn qr_png_ignores_level_and_border() {
    let mut a = QrGenerator::new();
    a.add_content("same content");
    let mut b = QrGenerator::new();
    b.add_content("same content").add_border(9).change_error_correction_level(QrEccLevel::Low);
    assert_eq!(a.build_qr_png().unwrap(), b.build_qr_png().unwrap());
    let mut c = QrGenerator::new();
    c.add_content("other content");
    assert_ne!(a.build_qr_png().unwrap(), c.build_qr_png().unwrap());
}

#[test]
fn qr_png_of_too_long_content_fails() {
    let long = "x".repeat(5000);
    let mut generator = QrGenerator::new();
    generator.add_content(&long);
    assert_eq!(
        generator.build_qr_png(),
        Err(fusion_drive::errors::DocumentServiceError::SegmentTooLong)
    );
}

#[test]
fn receipts_are_made_for_any_signature_that_fits_a_qr_code() {
    // The explorer address adds 31 bytes; a version-40 code at the high level
    // holds 1273.
    let longest = "x".repeat(1242);
    let mut builder = TemplateBuilder::new();
    builder.add_customer("A").add_date("D").add_tx(&longest);
    assert!(builder.to_template_1().is_ok());
    let too_long = "x".repeat(1300);
    builder.add_tx(&too_long);
    assert_eq!(
        builder.to_template_1(),
        Err(fusion_drive::errors::DocumentServiceError::SegmentTooLong)
    );
}

#[test]
fn email_builder_addresses_the_customer() {
    let mail = email_builder("Anatoly", "a@b.c", "Receipt", TX, "today", &coffee_items()).unwrap();
    assert_eq!(mail.recipient_name(), "Anatoly");
    assert_eq!(mail.recipient_email(), "a@b.c");
    assert_eq!(mail.subject(), "Receipt");
    assert!(mail.body().contains("> Anatoly </h3>"));
}

#[test]
fn html_builder_frames_signature_and_receipt() {
    let frame = html_builder("Anatoly", TX, "today", &coffee_items()).unwrap();
    let (tx, html) = decode_tx_html(&frame).unwrap();
    assert_eq!(tx, TX);
    let mut builder = TemplateBuilder::new();
    builder.add_customer("Anatoly").add_date("today").add_tx(TX).add_items(coffee_items());
    assert_eq!(html, builder.to_template_1().unwrap());
}

fn key(b: u8) -> Pubkey {
    Pubkey { bytes: [b; 32] }
}

#[test]
fn exec_command_mails_tx_email_receipts() {
    let command = ServiceCommand::TxEmail {
        validator: key(1),
        customer_name: "Anatoly".to_string(),
        email: "a@b.c".to_string(),
        subject: "Your receipt".to_string(),
        items: coffee_items(),
        tx: "ignored".to_string(),
        date: "today".to_string(),
    };
    match exec_command(&command, TX).unwrap() {
        CommandJob::Mail(mail) => {
            assert_eq!(mail.recipient_email(), "a@b.c");
            assert_eq!(mail.subject(), "Your receipt");
            assert!(mail.body().contains(TX));
            assert!(!mail.body().contains("ignored"));
        }
        CommandJob::Cdn(_) => panic!("a TxEmail command is mailed"),
    }
}

#[test]
fn exec_command_sends_web_receipts_to_the_cdn() {
    let command = ServiceCommand::ThinClientWebVersion {
        validator: key(1),
        customer_name: "Anatoly".to_string(),
        items: coffee_items(),
        tx: "ignored".to_string(),
        date: "today".to_string(),
    };
    match exec_command(&command, TX).unwrap() {
        CommandJob::Cdn(frame) => {
            let (tx, html) = decode_tx_html(&frame).unwrap();
            assert_eq!(tx, TX);
            assert!(html.contains("> Anatoly </h3>"));
        }
        CommandJob::Mail(_) => panic!("a web receipt goes to the CDN"),
    }
}

#[test]
fn cpi_details_builder_keeps_items_in_order() {
    let details = CpiDetails::new()
        .add_name("Anatoly".to_string())
        .add_date("today".to_string())
        .add_items(BillableItem::new().add_name("a"))
        .add_items(BillableItem::new().add_name("b"));
    assert_eq!(details.customer_name(), "Anatoly");
    assert_eq!(details.date_of_issue(), "today");
    assert_eq!(details.items().len(), 2);
    assert_eq!(details.items()[0].name(), "a");
    assert_eq!(details.items()[1].name(), "b");
    let empty = CpiDetails::default();
    assert_eq!(empty.customer_name(), "");
    assert!(empty.items().is_empty());
}

#[test]
fn billable_item_builder_sets_each_part() {
    let item = BillableItem::new().add_name("n").add_cost("c").add_img("i");
    assert_eq!((item.name(), item.cost(), item.img()), ("n", "c", "i"));
    let item = item.add_name("m");
    assert_eq!((item.name(), item.cost(), item.img()), ("m", "c", "i"));
    assert_eq!(item.clone(), item);
    let blank = BillableItem::default();
    assert_eq!((blank.name(), blank.cost(), blank.img()), ("", "", ""));
}

#[test]
fn receipt_service_builder() {
    let mut amount = Currency::new();
    amount.add_integral(3);
    let mut receipt = ReceiptService::new();
    receipt
        .add_business_name("Saga Coffee")
        .add_date_of_sale("today")
        .add_tax(5)
        .add_logo(LogoImage { mime: "image/png".to_string(), bytes: vec![1, 2, 3] })
        .add_item(("Espresso".to_string(), amount));
    let _ = ReceiptService::default();
}
