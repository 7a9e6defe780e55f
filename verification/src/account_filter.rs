//! What the validator plugin sees of accounts and transactions, and the work
//! that a paid command turns into.

use vstd::prelude::*;
use vstd::string::StrSliceExecFns;
use vstd::utf8::encode_utf8;
use crate::commands::ServiceCommand;
use crate::errors::{DocumentServiceError, DocumentServiceResult};
use crate::items::{clone_items, BillableItem};
use crate::mail::MailCreator;
use crate::template::{receipt_page, tx_url, TemplateBuilder};
use crate::qr::{qr_byte_capacity, QrEccLevel};
use crate::wire::{borsh_pair, borsh_str_fits, encode_tx_html};

verus! {

/// A 64-byte transaction signature.
#[derive(Debug, Clone, Copy, PartialEq, Eq)]
pub struct Signature {
    pub bytes: [u8; 64],
}

/// An instruction of a transaction: the program it calls and the data it
/// passes.
#[derive(Debug, PartialEq, Eq)]
pub struct ProgramInstruction {
    pub program_id: crate::commands::Pubkey,
    pub data: Vec<u8>,
}

impl View for ProgramInstruction {
    /// The program's address and the data.
    type V = (Seq<u8>, Seq<u8>);

    open spec fn view(&self) -> (Seq<u8>, Seq<u8>) {
        (self.program_id.bytes@, self.data@)
    }
}

/// A transaction's message, as far as the plugin reads it.
#[derive(Debug, PartialEq, Eq)]
pub struct TxMessage {
    pub fee_payer: crate::commands::Pubkey,
    pub instructions: Vec<ProgramInstruction>,
}

impl View for TxMessage {
    /// The fee payer's address and the instructions, in order.
    type V = (Seq<u8>, Seq<(Seq<u8>, Seq<u8>)>);

    open spec fn view(&self) -> (Seq<u8>, Seq<(Seq<u8>, Seq<u8>)>) {
        (self.fee_payer.bytes@, self.instructions@.map_values(|i: ProgramInstruction| i@))
    }
}

/// An account update, in either version of the plugin interface.
#[derive(Debug)]
pub enum ReplicaAccountInfo {
    V0_0_1 {
        pubkey: Vec<u8>,
        lamports: u64,
        owner: Vec<u8>,
        executable: bool,
        rent_epoch: u64,
        data: Vec<u8>,
        write_version: u64,
    },
    V0_0_2 {
        pubkey: Vec<u8>,
        lamports: u64,
        owner: Vec<u8>,
        executable: bool,
        rent_epoch: u64,
        data: Vec<u8>,
        write_version: u64,
        txn_signature: Option<Signature>,
    },
}

impl ReplicaAccountInfo {
    /// The account's address.
    pub open spec fn pubkey_view(&self) -> Seq<u8> {
        match self {
            ReplicaAccountInfo::V0_0_1 { pubkey, .. } => pubkey@,
            ReplicaAccountInfo::V0_0_2 { pubkey, .. } => pubkey@,
        }
    }

    /// The account's balance.
    pub open spec fn lamports_view(&self) -> u64 {
        match self {
            ReplicaAccountInfo::V0_0_1 { lamports, .. } => *lamports,
            ReplicaAccountInfo::V0_0_2 { lamports, .. } => *lamports,
        }
    }

    /// The owning program's address.
    pub open spec fn owner_view(&self) -> Seq<u8> {
        match self {
            ReplicaAccountInfo::V0_0_1 { owner, .. } => owner@,
            ReplicaAccountInfo::V0_0_2 { owner, .. } => owner@,
        }
    }

    /// Whether the account holds a program.
    pub open spec fn executable_view(&self) -> bool {
        match self {
            ReplicaAccountInfo::V0_0_1 { executable, .. } => *executable,
            ReplicaAccountInfo::V0_0_2 { executable, .. } => *executable,
        }
    }

    /// The epoch at which the account next owes rent.
    pub open spec fn rent_epoch_view(&self) -> u64 {
        match self {
            ReplicaAccountInfo::V0_0_1 { rent_epoch, .. } => *rent_epoch,
            ReplicaAccountInfo::V0_0_2 { rent_epoch, .. } => *rent_epoch,
        }
    }

    /// The account's data.
    pub open spec fn data_view(&self) -> Seq<u8> {
        match self {
            ReplicaAccountInfo::V0_0_1 { data, .. } => data@,
            ReplicaAccountInfo::V0_0_2 { data, .. } => data@,
        }
    }

    /// The write version of the update.
    pub open spec fn write_version_view(&self) -> u64 {
        match self {
            ReplicaAccountInfo::V0_0_1 { write_version, .. } => *write_version,
            ReplicaAccountInfo::V0_0_2 { write_version, .. } => *write_version,
        }
    }

    /// The signature of the transaction that caused the update; the first
    /// version carries none.
    pub open spec fn txn_signature_view(&self) -> Option<Signature> {
        match self {
            ReplicaAccountInfo::V0_0_1 { .. } => None,
            ReplicaAccountInfo::V0_0_2 { txn_signature, .. } => *txn_signature,
        }
    }
}

/// A transaction notification, in either version of the plugin interface.
#[derive(Debug)]
pub enum ReplicaTransactionInfo {
    V0_0_1 { signature: Signature, is_vote: bool, transaction: TxMessage },
    V0_0_2 { signature: Signature, is_vote: bool, transaction: TxMessage, index: usize },
}

/// An account update or a transaction, as the plugin queues them.
#[derive(Debug)]
pub enum AccTx {
    Acc {
        pubkey: Vec<u8>,
        lamports: u64,
        owner: Vec<u8>,
        executable: bool,
        rent_epoch: u64,
        data: Vec<u8>,
        write_version: u64,
        txn_signature: Option<Signature>,
        slot: u64,
        is_startup: bool,
    },
    Tx {
        slot: u64,
        signature: Signature,
        is_vote: bool,
        transaction: TxMessage,
        index: Option<usize>,
    },
}

/// The account that the plugin watches, in base58.
pub const WATCHED_ACCOUNT: &'static str = "DHeGyhLA6Hr55sVRCQJjkUA7JhG3bAtyXUfCvxuPyhLn";

/// Whether `c` is in the bitcoin base58 alphabet: the digits `1` to `9` and
/// the ASCII letters but `0`, `I`, `O` and `l`.
pub open spec fn is_base58_char(c: char) -> bool {
    ||| ('1' <= c && c <= '9')
    ||| ('A' <= c && c <= 'Z' && c != 'I' && c != 'O')
    ||| ('a' <= c && c <= 'z' && c != 'l')
}

/// The value of a base58 digit: its place in the alphabet
/// `123456789ABCDEFGHJKLMNPQRSTUVWXYZabcdefghijkmnopqrstuvwxyz`.
pub open spec fn base58_digit(c: char) -> int {
    let v = c as int;
    if v <= 57 {
        v - 49
    } else if v <= 72 {
        v - 65 + 9
    } else if v <= 78 {
        v - 74 + 17
    } else if v <= 90 {
        v - 80 + 22
    } else if v <= 107 {
        v - 97 + 33
    } else {
        v - 109 + 44
    }
}

/// The number that a base58 text denotes, most significant digit first.
pub open spec fn base58_value(text: Seq<char>) -> int
    decreases text.len(),
{
    if text.len() == 0 {
        0
    } else {
        base58_value(text.drop_last()) * 58 + base58_digit(text.last())
    }
}

/// How many `1`s (the digit zero) the text starts with.
pub open spec fn leading_zero_digits(text: Seq<char>) -> nat
    decreases text.len(),
{
    if text.len() > 0 && text[0] == '1' {
        1 + leading_zero_digits(text.drop_first())
    } else {
        0
    }
}

/// The shortest big-endian bytes of `n`: none for zero.
pub open spec fn big_endian_bytes(n: nat) -> Seq<u8>
    decreases n,
{
    if n == 0 {
        Seq::empty()
    } else {
        big_endian_bytes(n / 256).push((n % 256) as u8)
    }
}

/// The bytes that a base58 text stands for: a zero byte for each leading `1`,
/// then the shortest big-endian bytes of the number that the text denotes; or
/// `None` when the text holds a character outside the alphabet.
pub open spec fn base58_decoded(text: Seq<char>) -> Option<Seq<u8>> {
    if forall|i: int| 0 <= i < text.len() ==> is_base58_char(#[trigger] text[i]) {
        Some(
            Seq::new(leading_zero_digits(text), |i: int| 0u8) + big_endian_bytes(
                base58_value(text) as nat,
            ),
        )
    } else {
        None
    }
}

/// `bs58::decode(text).into_vec()` with the bitcoin alphabet. It fails exactly
/// when a character of `text` is not in the alphabet (its output buffer is as
/// long as the input, which no decoding outgrows). Otherwise it writes the
/// number little-endian, adds a zero byte for each leading `1` and reverses:
/// the leading zeros, then the shortest big-endian bytes of the number.
#[verifier::external_body]
fn decode_base58(text: &str) -> (bytes: Option<Vec<u8>>)
    ensures
        bytes is Some <==> base58_decoded(text@) is Some,
        bytes matches Some(b) ==> base58_decoded(text@) == Some(b@),
{
    bs58::decode(text).into_vec().ok()
}

/// The `{:?}` text of a value. It depends on the value alone.
pub uninterp spec fn debug_text(value: AccTx) -> Seq<char>;

/// `format!("{:?}", value)`, through the derived `Debug`.
#[verifier::external_body]
fn format_debug(value: &AccTx) -> (text: String)
    ensures
        text@ == debug_text(*value),
{
    format!("{:?}", value)
}

impl Default for AccTx {
    fn default() -> (value: Self)
        ensures
            value matches AccTx::Acc {
                pubkey,
                lamports,
                owner,
                executable,
                rent_epoch,
                data,
                write_version,
                txn_signature,
                slot,
                is_startup,
            } && pubkey@.len() == 0 && lamports == 0 && owner@.len() == 0 && !executable
                && rent_epoch == 0 && data@.len() == 0 && write_version == 0
                && txn_signature is None && slot == 0 && !is_startup,
    {
        AccTx::Acc {
            pubkey: Vec::new(),
            lamports: 0,
            owner: Vec::new(),
            executable: false,
            rent_epoch: 0,
            data: Vec::new(),
            write_version: 0,
            txn_signature: None,
            slot: 0,
            is_startup: false,
        }
    }
}

impl AccTx {
    /// The `{:?}` text of the value.
    pub fn to_string(&self) -> (text: String)
        ensures
            text@ == debug_text(*self),
    {
        format_debug(self)
    }

    /// The UTF-8 bytes of the `{:?}` text of the value.
    pub fn into_bytes(&self) -> (bytes: Vec<u8>)
        ensures
            bytes@ == encode_utf8(debug_text(*self)),
    {
        let text = self.to_string();
        text.as_str().as_bytes_vec()
    }

    /// Whether an account update is of the watched account.
    pub fn is_account(&self) -> (watched: bool)
        requires
            self is Acc,
        ensures
            base58_decoded(WATCHED_ACCOUNT@) is Some,
            watched == (self->Acc_pubkey@ == base58_decoded(WATCHED_ACCOUNT@)->0),
    {
        proof {
            reveal_strlit("DHeGyhLA6Hr55sVRCQJjkUA7JhG3bAtyXUfCvxuPyhLn");
        }
        match self {
            AccTx::Acc { pubkey, .. } => {
                let decoded = decode_base58(WATCHED_ACCOUNT);
                match decoded {
                    Some(expected) => same_bytes(pubkey.as_slice(), expected.as_slice()),
                    None => false,
                }
            },
            AccTx::Tx { .. } => false,
        }
    }

    /// The queued form of an account update at `slot`; an update of the first
    /// version carries no transaction signature.
    pub fn into_acc(slot: u64, is_startup: bool, value: &ReplicaAccountInfo) -> (acc: Self)
        ensures
            acc matches AccTx::Acc {
                pubkey,
                lamports,
                owner,
                executable,
                rent_epoch,
                data,
                write_version,
                txn_signature,
                slot: s,
                is_startup: st,
            } && pubkey@ == value.pubkey_view() && lamports == value.lamports_view() && owner@
                == value.owner_view() && executable == value.executable_view() && rent_epoch
                == value.rent_epoch_view() && data@ == value.data_view() && write_version
                == value.write_version_view() && txn_signature == value.txn_signature_view() && s
                == slot && st == is_startup,
    {
        match value {
            ReplicaAccountInfo::V0_0_1 {
                pubkey,
                lamports,
                owner,
                executable,
                rent_epoch,
                data,
                write_version,
            } => AccTx::Acc {
                pubkey: pubkey.clone(),
                lamports: *lamports,
                owner: owner.clone(),
                executable: *executable,
                rent_epoch: *rent_epoch,
                data: data.clone(),
                write_version: *write_version,
                txn_signature: None,
                slot,
                is_startup,
            },
            ReplicaAccountInfo::V0_0_2 {
                pubkey,
                lamports,
                owner,
                executable,
                rent_epoch,
                data,
                write_version,
                txn_signature,
            } => AccTx::Acc {
                pubkey: pubkey.clone(),
                lamports: *lamports,
                owner: owner.clone(),
                executable: *executable,
                rent_epoch: *rent_epoch,
                data: data.clone(),
                write_version: *write_version,
                txn_signature: *txn_signature,
                slot,
                is_startup,
            },
        }
    }

    /// The queued form of a transaction notification at `slot`; a
    /// notification of the first version carries no index.
    pub fn into_tx(slot: u64, value: &ReplicaTransactionInfo) -> (tx: Self)
        ensures
            value matches ReplicaTransactionInfo::V0_0_1 { signature, is_vote, transaction }
                ==> (tx matches AccTx::Tx { slot: s, signature: sig, is_vote: v, transaction: t, index }
                && s == slot && sig == *signature && v == *is_vote && t@ == transaction@ && index
                is None),
            value matches ReplicaTransactionInfo::V0_0_2 { signature, is_vote, transaction, index: n }
                ==> (tx matches AccTx::Tx { slot: s, signature: sig, is_vote: v, transaction: t, index }
                && s == slot && sig == *signature && v == *is_vote && t@ == transaction@ && index
                == Some(*n)),
    {
        match value {
            ReplicaTransactionInfo::V0_0_1 { signature, is_vote, transaction } => AccTx::Tx {
                slot,
                signature: *signature,
                is_vote: *is_vote,
                transaction: clone_message(transaction),
                index: None,
            },
            ReplicaTransactionInfo::V0_0_2 { signature, is_vote, transaction, index } => AccTx::Tx {
                slot,
                signature: *signature,
                is_vote: *is_vote,
                transaction: clone_message(transaction),
                index: Some(*index),
            },
        }
    }
}

fn same_bytes(a: &[u8], b: &[u8]) -> (same: bool)
    ensures
        same == (a@ == b@),
{
    if a.len() != b.len() {
        return false;
    }
    let mut i: usize = 0;
    while i < a.len()
        invariant
            i <= a@.len(),
            a@.len() == b@.len(),
            forall|j: int| 0 <= j < i ==> a@[j] == b@[j],
        decreases a@.len() - i,
    {
        if a[i] != b[i] {
            return false;
        }
        i = i + 1;
    }
    assert(a@ =~= b@);
    true
}

fn clone_message(message: &TxMessage) -> (copy: TxMessage)
    ensures
        copy@ == message@,
{
    let mut instructions: Vec<ProgramInstruction> = Vec::new();
    let mut i: usize = 0;
    while i < message.instructions.len()
        invariant
            i <= message.instructions@.len(),
            instructions@.len() == i,
            forall|j: int| 0 <= j < i ==> #[trigger] instructions@[j]@ == message.instructions@[j]@,
        decreases message.instructions@.len() - i,
    {
        let instruction = &message.instructions[i];
        instructions.push(
            ProgramInstruction { program_id: instruction.program_id, data: instruction.data.clone() },
        );
        i = i + 1;
    }
    let copy = TxMessage { fee_payer: message.fee_payer, instructions };
    assert(copy@.1 =~= message@.1);
    copy
}

/// The HTML receipt of `items` bought by `name` on `date` with transaction
/// `tx`, framed for the CDN service together with `tx`. It fails as the
/// receipt does, and with `IntegerOverflow` when the signature or the receipt
/// is too long for the frame's length prefix.
pub fn html_builder(name: &str, tx: &str, date: &str, items: &[BillableItem]) -> (frame:
    DocumentServiceResult<Vec<u8>>)
    ensures
        encode_utf8(tx_url(tx@)).len() <= qr_byte_capacity(QrEccLevel::High) ==> receipt_page(
            name@,
            date@,
            items@,
            tx@,
        ) is Ok,
        receipt_page(name@, date@, items@, tx@) matches Err(e) ==> frame matches Err(f) && f == e,
        receipt_page(name@, date@, items@, tx@) matches Ok(html) ==> {
            &&& (borsh_str_fits(tx@) && borsh_str_fits(html)) ==> (frame matches Ok(f) && f@
                == borsh_pair(tx@, html))
            &&& !(borsh_str_fits(tx@) && borsh_str_fits(html)) ==> frame
                == DocumentServiceResult::<Vec<u8>>::Err(DocumentServiceError::IntegerOverflow)
        },
{
    let mut builder = TemplateBuilder::new();
    builder.add_customer(name).add_date(date).add_tx(tx).add_items(clone_items(items));
    let html = match builder.to_template_1() {
        Ok(html) => html,
        Err(e) => {
            return Err(e);
        },
    };
    match encode_tx_html(tx, html.as_str()) {
        Some(frame) => Ok(frame),
        None => Err(DocumentServiceError::IntegerOverflow),
    }
}

/// The email that carries the HTML receipt of `items`, bought by `name` on
/// `date` with transaction `tx`, to `name` at `email` under `subject`. It fails
/// as the receipt does.
pub fn email_builder(
    name: &str,
    email: &str,
    subject: &str,
    tx: &str,
    date: &str,
    items: &[BillableItem],
) -> (mail: DocumentServiceResult<MailCreator>)
    ensures
        encode_utf8(tx_url(tx@)).len() <= qr_byte_capacity(QrEccLevel::High) ==> mail is Ok,
        mail matches Ok(m) ==> {
            &&& m.recipient_name_view() == name@
            &&& m.recipient_email_view() == email@
            &&& m.subject_view() == subject@
            &&& receipt_page(name@, date@, items@, tx@) == Ok::<
                Seq<char>,
                DocumentServiceError,
            >(m.body_view())
        },
        mail matches Err(e) ==> receipt_page(name@, date@, items@, tx@) == Err::<
            Seq<char>,
            DocumentServiceError,
        >(e),
{
    let mut builder = TemplateBuilder::new();
    builder.add_customer(name).add_date(date).add_tx(tx).add_items(clone_items(items));
    match builder.to_template_1() {
        Ok(html) => Ok(
            MailCreator::new().add_recipient_name(name).add_recipient_email(email).add_subject(
                subject,
            ).add_body(html.as_str()),
        ),
        Err(e) => Err(e),
    }
}

/// The work that a paid command turns into.
#[derive(Debug)]
pub enum CommandJob {
    /// An email for the mail service.
    Mail(MailCreator),
    /// A frame for the CDN service.
    Cdn(Vec<u8>),
}

/// Whether the plugin knows how to carry out `command`.
pub open spec fn is_supported_command(command: ServiceCommand) -> bool {
    command is TxEmail || command is ThinClientWebVersion
}

/// The work for a command paid by the transaction with signature
/// `tx_signature`: an emailed receipt for `TxEmail`, a receipt framed for the
/// CDN for `ThinClientWebVersion`. The signature in the command itself is not
/// used.
pub fn exec_command(command: &ServiceCommand, tx_signature: &str) -> (job:
    DocumentServiceResult<CommandJob>)
    requires
        is_supported_command(*command),
    ensures
        encode_utf8(tx_url(tx_signature@)).len() <= qr_byte_capacity(QrEccLevel::High) ==> (
        command is TxEmail ==> job is Ok),
        command matches ServiceCommand::ThinClientWebVersion { customer_name, items, date, .. }
            ==> (encode_utf8(tx_url(tx_signature@)).len() <= qr_byte_capacity(QrEccLevel::High)
            ==> receipt_page(customer_name@, date@, items@, tx_signature@) is Ok),
        command matches ServiceCommand::TxEmail { customer_name, email, subject, items, date, .. }
            ==> (job matches Ok(j) ==> j matches CommandJob::Mail(m) && m.recipient_name_view()
            == customer_name@ && m.recipient_email_view() == email@ && m.subject_view()
            == subject@ && receipt_page(customer_name@, date@, items@, tx_signature@) == Ok::<
            Seq<char>,
            DocumentServiceError,
        >(m.body_view())) && (job matches Err(e) ==> receipt_page(
            customer_name@,
            date@,
            items@,
            tx_signature@,
        ) == Err::<Seq<char>, DocumentServiceError>(e)),
        command matches ServiceCommand::ThinClientWebVersion { customer_name, items, date, .. }
            ==> (receipt_page(customer_name@, date@, items@, tx_signature@) matches Err(e) ==> (
            job matches Err(f) && f == e)) && (receipt_page(
            customer_name@,
            date@,
            items@,
            tx_signature@,
        ) matches Ok(html) ==> ((borsh_str_fits(tx_signature@) && borsh_str_fits(html)) ==> (
        job matches Ok(j) && j matches CommandJob::Cdn(f) && f@ == borsh_pair(tx_signature@, html)))
            && (!(borsh_str_fits(tx_signature@) && borsh_str_fits(html)) ==> (job matches Err(f)
            && f == DocumentServiceError::IntegerOverflow))),
{
    match command {
        ServiceCommand::TxEmail { customer_name, email, subject, items, date, .. } => {
            match email_builder(
                customer_name.as_str(),
                email.as_str(),
                subject.as_str(),
                tx_signature,
                date.as_str(),
                items.as_slice(),
            ) {
                Ok(mail) => Ok(CommandJob::Mail(mail)),
                Err(e) => Err(e),
            }
        },
        ServiceCommand::ThinClientWebVersion { customer_name, items, date, .. } => {
            match html_builder(customer_name.as_str(), tx_signature, date.as_str(), items.as_slice()) {
                Ok(frame) => Ok(CommandJob::Cdn(frame)),
                Err(e) => Err(e),
            }
        },
        _ => vstd::pervasive::unreached(),
    }
}

} // verus!
