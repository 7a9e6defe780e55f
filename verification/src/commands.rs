//! The commands that a customer sends to the validator's service program.

use vstd::prelude::*;
use crate::items::BillableItem;

verus! {

/// A 32-byte account address.
#[derive(Debug, Clone, Copy, PartialEq, Eq, PartialOrd, Ord, Hash)]
pub struct Pubkey {
    pub bytes: [u8; 32],
}

/// Whether two addresses are the same.
pub fn same_pubkey(a: &Pubkey, b: &Pubkey) -> (same: bool)
    ensures
        same == (a.bytes@ == b.bytes@),
{
    let mut i: usize = 0;
    while i < 32
        invariant
            i <= 32,
            a.bytes@.len() == 32,
            b.bytes@.len() == 32,
            forall|j: int| 0 <= j < i ==> a.bytes@[j] == b.bytes@[j],
        decreases 32 - i,
    {
        if a.bytes[i] != b.bytes[i] {
            return false;
        }
        i = i + 1;
    }
    assert(a.bytes@ =~= b.bytes@);
    true
}

/// A service that a customer pays the validator for.
#[derive(Debug, PartialEq, PartialOrd, Eq, Ord)]
pub enum ServiceCommand {
    /// A notification delivered through the validator network.
    DecentralizedNotification {
        recipient: Pubkey,
        validator: Pubkey,
        service_id: String,
        tx: String,
        date: String,
        items: Vec<BillableItem>,
    },
    /// An HTML receipt served by the validator's CDN.
    ThinClientWebVersion {
        validator: Pubkey,
        customer_name: String,
        items: Vec<BillableItem>,
        tx: String,
        date: String,
    },
    /// An HTML receipt sent by email.
    TxEmail {
        validator: Pubkey,
        customer_name: String,
        email: String,
        subject: String,
        items: Vec<BillableItem>,
        tx: String,
        date: String,
    },
    /// A newsletter sent by email.
    NewsletterEmail {
        validator: Pubkey,
        from: String,
        reply_to: String,
        to: String,
        notification: String,
        service_id: String,
        tx: String,
        date: String,
        items: Vec<BillableItem>,
    },
}

} // verus!
