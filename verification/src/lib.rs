//! FusionDrive: the billing, receipt and delivery logic that a Solana
//! validator runs for the businesses it serves.

pub mod account_filter;
pub mod cdn;
pub mod commands;
pub mod currency;
pub mod cpi_details;
pub mod decimal;
pub mod errors;
pub mod items;
pub mod mail;
pub mod plugin;
pub mod program;
pub mod qr;
pub mod receipt;
pub mod template;
pub mod wire;
