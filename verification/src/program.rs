//! The validator's service program: what a command costs, and the transfer
//! that pays for it.

use vstd::prelude::*;
use crate::commands::{Pubkey, ServiceCommand};

verus! {

/// The price in lamports of the service that `command` asks for.
pub open spec fn command_price(command: ServiceCommand) -> u64 {
    match command {
        ServiceCommand::DecentralizedNotification { .. } => 2_500_000,
        ServiceCommand::NewsletterEmail { .. } => 1_500_000,
        _ => 2_000_000,
    }
}

/// What the service that `command` asks for costs, in lamports: 2 500 000 for a
/// decentralized notification, 1 500 000 for a newsletter, 2 000 000 for the
/// receipts.
pub fn service_cost(command: &ServiceCommand) -> (lamports: u64)
    ensures
        lamports == command_price(*command),
        command is DecentralizedNotification ==> lamports == 2_500_000,
        command is NewsletterEmail ==> lamports == 1_500_000,
        command is TxEmail ==> lamports == 2_000_000,
        command is ThinClientWebVersion ==> lamports == 2_000_000,
{
    match command {
        ServiceCommand::DecentralizedNotification { .. } => 2_500_000,
        ServiceCommand::NewsletterEmail { .. } => 1_500_000,
        _ => 2_000_000,
    }
}

/// The price depends on the kind of command alone: 2 500 000 lamports for a
/// decentralized notification, 1 500 000 for a newsletter, 2 000 000 for an
/// emailed or a web receipt, whatever the command's fields.
pub proof fn lemma_price_by_kind(command: ServiceCommand)
    ensures
        command is DecentralizedNotification ==> command_price(command) == 2_500_000,
        command is NewsletterEmail ==> command_price(command) == 1_500_000,
        command is TxEmail ==> command_price(command) == 2_000_000,
        command is ThinClientWebVersion ==> command_price(command) == 2_000_000,
{
}

/// Two commands of the same kind cost the same.
pub proof fn lemma_same_kind_same_price(a: ServiceCommand, b: ServiceCommand)
    requires
        (a is DecentralizedNotification && b is DecentralizedNotification) || (a is TxEmail
            && b is TxEmail) || (a is ThinClientWebVersion && b is ThinClientWebVersion) || (
        a is NewsletterEmail && b is NewsletterEmail),
    ensures
        command_price(a) == command_price(b),
{
}

/// Every service costs between 1 500 000 and 2 500 000 lamports.
pub proof fn lemma_price_bounds(command: ServiceCommand)
    ensures
        1_500_000 <= command_price(command) <= 2_500_000,
{
}

/// An account handed to the program, as far as the program looks at it.
#[derive(Debug, Clone, Copy, PartialEq, Eq)]
pub struct AccountRef {
    pub key: Pubkey,
    pub is_signer: bool,
    pub is_writable: bool,
}

/// The address of the system program: 32 zero bytes.
pub open spec fn system_program_key() -> Seq<u8> {
    Seq::new(32, |i: int| 0u8)
}

/// Whether `key` is the address of the system program.
pub fn is_system_program(key: &Pubkey) -> (is_system: bool)
    ensures
        is_system == (key.bytes@ == system_program_key()),
{
    let mut i: usize = 0;
    while i < 32
        invariant
            i <= 32,
            key.bytes@.len() == 32,
            forall|j: int| 0 <= j < i ==> key.bytes@[j] == 0,
        decreases 32 - i,
    {
        if key.bytes[i] != 0 {
            return false;
        }
        i = i + 1;
    }
    assert(key.bytes@ =~= system_program_key());
    true
}

/// The checks that the program makes of its accounts before it moves funds.
pub open spec fn accounts_valid(payer: AccountRef, recipient: AccountRef, system: AccountRef) -> bool {
    &&& payer.is_writable
    &&& !recipient.is_signer
    &&& recipient.is_writable
    &&& system.key.bytes@ == system_program_key()
}

/// Whether the payer is writable, the recipient writable and not a signer, and
/// the third account the system program.
pub fn check_accounts(payer: &AccountRef, recipient: &AccountRef, system: &AccountRef) -> (ok: bool)
    ensures
        ok == accounts_valid(*payer, *recipient, *system),
{
    payer.is_writable && !recipient.is_signer && recipient.is_writable && is_system_program(
        &system.key,
    )
}

/// A transfer of lamports through the system program.
#[derive(Debug, Clone, Copy, PartialEq, Eq)]
pub struct TransferPlan {
    pub from: Pubkey,
    pub to: Pubkey,
    pub lamports: u64,
}

/// The transfer with which the payer pays the recipient for `command`.
pub fn plan_transfer(
    payer: &AccountRef,
    recipient: &AccountRef,
    system: &AccountRef,
    command: &ServiceCommand,
) -> (plan: TransferPlan)
    requires
        accounts_valid(*payer, *recipient, *system),
    ensures
        plan.from == payer.key,
        plan.to == recipient.key,
        plan.lamports == command_price(*command),
{
    TransferPlan { from: payer.key, to: recipient.key, lamports: service_cost(command) }
}

} // verus!
