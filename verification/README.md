# fusion_drive

The billing, receipt and delivery logic of FusionDrive, a set of services
that a Solana validator runs for businesses, written in Verus.

- `src/` is the verified library: service prices and the payment transfer
  (`program`), the commands (`commands`), bill items and sale details
  (`items`, `cpi_details`), amounts (`currency`, `decimal`), QR codes and the
  HTML receipt (`qr`, `template`), emails (`mail`), receipts (`receipt`), the
  frames exchanged over sockets (`wire`), the CDN store (`cdn`), and what the
  validator plugin does with account and transaction notifications
  (`account_filter`, `plugin`).
- `app/` holds the sockets, the HTTP server, email delivery, the on-chain entry
  point and the plugin glue, which hand plain values to the library.
- `tests/` runs the library against concrete values.
