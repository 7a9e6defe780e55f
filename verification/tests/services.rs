use borsh::BorshSerialize;
use fusion_drive::account_filter::{AccTx, ProgramInstruction, ReplicaAccountInfo,
    ReplicaTransactionInfo, Signature, TxMessage};
use fusion_drive::cdn::{tx_reply, CdnMemDB, CdnReply};
use fusion_drive::commands::{Pubkey, ServiceCommand};
use fusion_drive::items::BillableItem;
use fusion_drive::plugin::{commands_for_program, validator_id_from_keypair_json, FusionEnginePlugin};
use fusion_drive::program::{check_accounts, is_system_program, plan_transfer, service_cost, AccountRef};
use fusion_drive::wire::{decode_tx_html, encode_tx_html, handle_chunk, ReadStep, READ_BUFFER_LEN};

fn key(b: u8) -> Pubkey {
    Pubkey { bytes: [b; 32] }
}

#[test]
fn frame_matches_borsh_of_a_string_pair() {
    let frame = encode_tx_html("sig", "<p>é</p>").unwrap();
    let expected = ("sig".to_string(), "<p>é</p>".to_string()).try_to_vec().unwrap();
    assert_eq!(frame, expected);
    assert_eq!(&frame[..4], &[3, 0, 0, 0]);
    assert_eq!(decode_tx_html(&frame), Some(("sig".to_string(), "<p>é</p>".to_string())));
}

#[test]
fn malformed_frames_are_refused() {
    let frame = encode_tx_html("sig", "html").unwrap();
    assert_eq!(decode_tx_html(&frame[..frame.len() - 1]), None);
    let mut longer = frame.clone();
    longer.push(0);
    assert_eq!(decode_tx_html(&longer), None);
    assert_eq!(decode_tx_html(&[1, 0, 0, 0, 0xff, 0, 0, 0, 0]), None);
    assert_eq!(decode_tx_html(&[]), None);
}

#[test]
fn chunks_are_gathered_until_a_short_read() {
    let mut data = Vec::new();
    let full = vec![7u8; READ_BUFFER_LEN];
    assert_eq!(handle_chunk(&mut data, &full), ReadStep::NeedMore);
    assert_eq!(data.len(), READ_BUFFER_LEN);
    assert_eq!(handle_chunk(&mut data, &[1, 2, 3]), ReadStep::Complete);
    assert_eq!(data.len(), READ_BUFFER_LEN + 3);
    assert_eq!(&data[READ_BUFFER_LEN..], &[1, 2, 3]);
    assert_eq!(handle_chunk(&mut data, &[]), ReadStep::Disconnected);
    assert_eq!(data.len(), READ_BUFFER_LEN + 3);
}

#[test]
fn cdn_gives_back_what_was_stored() {
    let mut db = CdnMemDB::init();
    assert_eq!(db.get("tx1"), None);
    db.set("tx1", "<p>one</p>").set("tx2", "<p>two</p>");
    assert_eq!(db.get("tx1").map(|s| s.as_str()), Some("<p>one</p>"));
    assert_eq!(db.get("tx2").map(|s| s.as_str()), Some("<p>two</p>"));
    db.set("tx1", "<p>new</p>");
    assert_eq!(db.get("tx1").map(|s| s.as_str()), Some("<p>new</p>"));
    assert_eq!(db.get("tx2").map(|s| s.as_str()), Some("<p>two</p>"));
    assert_eq!(db.get("tx3"), None);
}

#[test]
fn cdn_last_write_wins_over_a_sequence_of_stores() {
    let mut db = CdnMemDB::default();
    let sets = [("a", "1"), ("b", "2"), ("a", "3"), ("c", "4"), ("b", "5"), ("d", "6")];
    for (tx, html) in sets {
        db.set(tx, html);
    }
    assert_eq!(db.get("a").map(|s| s.as_str()), Some("3"));
    assert_eq!(db.get("b").map(|s| s.as_str()), Some("5"));
    assert_eq!(db.get("c").map(|s| s.as_str()), Some("4"));
    assert_eq!(db.get("d").map(|s| s.as_str()), Some("6"));
    assert_eq!(db.get("e"), None);
}

#[test]
fn cdn_replies_with_html_or_not_found() {
    let mut db = CdnMemDB::init();
    db.set("abc", "<html></html>");
    assert_eq!(tx_reply(&db, "abc"), CdnReply::Html("<html></html>".to_string()));
    assert_eq!(
        tx_reply(&db, "abd"),
        CdnReply::NotFound("Transaction Signature Not Found".to_string())
    );
}

fn dummy_command(kind: u8) -> ServiceCommand {
    let items = vec![BillableItem::new()];
    match kind {
        0 => ServiceCommand::DecentralizedNotification {
            recipient: key(1),
            validator: key(2),
            service_id: String::new(),
            tx: String::new(),
            date: String::new(),
            items,
        },
        1 => ServiceCommand::ThinClientWebVersion {
            validator: key(2),
            customer_name: String::new(),
            items,
            tx: String::new(),
            date: String::new(),
        },
        2 => ServiceCommand::TxEmail {
            validator: key(2),
            customer_name: String::new(),
            email: String::new(),
            subject: String::new(),
            items,
            tx: String::new(),
            date: String::new(),
        },
        _ => ServiceCommand::NewsletterEmail {
            validator: key(2),
            from: String::new(),
            reply_to: String::new(),
            to: String::new(),
            notification: String::new(),
            service_id: String::new(),
            tx: String::new(),
            date: String::new(),
            items,
        },
    }
}

#[test]
fn service_costs() {
    assert_eq!(service_cost(&dummy_command(0)), 2_500_000);
    assert_eq!(service_cost(&dummy_command(1)), 2_000_000);
    assert_eq!(service_cost(&dummy_command(2)), 2_000_000);
    assert_eq!(service_cost(&dummy_command(3)), 1_500_000);
}

#[test]
fn account_checks_and_transfer() {
    let payer = AccountRef { key: key(1), is_signer: true, is_writable: true };
    let recipient = AccountRef { key: key(2), is_signer: false, is_writable: true };
    let system = AccountRef { key: key(0), is_signer: false, is_writable: false };
    assert!(is_system_program(&key(0)));
    assert!(!is_system_program(&key(1)));
    assert!(check_accounts(&payer, &recipient, &system));
    let plan = plan_transfer(&payer, &recipient, &system, &dummy_command(3));
    assert_eq!(plan.from, key(1));
    assert_eq!(plan.to, key(2));
    assert_eq!(plan.lamports, 1_500_000);
    let signing_recipient = AccountRef { is_signer: true, ..recipient };
    assert!(!check_accounts(&payer, &signing_recipient, &system));
    let read_only_payer = AccountRef { is_writable: false, ..payer };
    assert!(!check_accounts(&read_only_payer, &recipient, &system));
    assert!(!check_accounts(&payer, &recipient, &payer));
}

#[test]
fn keypair_file_gives_the_public_half() {
    let bytes: Vec<u8> = (0u8..64).collect();
    let text = format!("{:?}", bytes);
    let id = validator_id_from_keypair_json(&text).unwrap();
    let expected: Vec<u8> = (32u8..64).collect();
    assert_eq!(id.bytes.to_vec(), expected);
    assert_eq!(validator_id_from_keypair_json("[1, 2, 3]"), None);
    assert_eq!(validator_id_from_keypair_json("not json"), None);
    assert_eq!(validator_id_from_keypair_json("[300]"), None);
}

#[test]
fn only_instructions_of_the_service_program_are_commands() {
    let message = TxMessage {
        fee_payer: key(9),
        instructions: vec![
            ProgramInstruction { program_id: key(5), data: vec![1] },
            ProgramInstruction { program_id: key(6), data: vec![2] },
            ProgramInstruction { program_id: key(5), data: vec![3, 4] },
        ],
    };
    assert_eq!(commands_for_program(&message, &key(5)), vec![vec![1], vec![3, 4]]);
    assert_eq!(commands_for_program(&message, &key(7)), Vec::<Vec<u8>>::new());
}

#[test]
fn watched_account_is_recognised() {
    let watched = bs58::decode("DHeGyhLA6Hr55sVRCQJjkUA7JhG3bAtyXUfCvxuPyhLn").into_vec().unwrap();
    let mut acc = AccTx::default();
    if let AccTx::Acc { pubkey, .. } = &mut acc {
        *pubkey = watched.clone();
    }
    assert!(acc.is_account());
    assert!(!AccTx::default().is_account());
}

#[test]
fn account_updates_keep_their_fields() {
    let sig = Signature { bytes: [3; 64] };
    let v1 = ReplicaAccountInfo::V0_0_1 {
        pubkey: vec![1],
        lamports: 10,
        owner: vec![2],
        executable: true,
        rent_epoch: 4,
        data: vec![5, 6],
        write_version: 7,
    };
    match AccTx::into_acc(99, true, &v1) {
        AccTx::Acc { pubkey, lamports, txn_signature, slot, is_startup, data, .. } => {
            assert_eq!((pubkey, lamports, slot, is_startup, data), (vec![1], 10, 99, true, vec![5, 6]));
            assert_eq!(txn_signature, None);
        }
        _ => panic!("an account update"),
    }
    let v2 = ReplicaAccountInfo::V0_0_2 {
        pubkey: vec![1],
        lamports: 10,
        owner: vec![2],
        executable: false,
        rent_epoch: 4,
        data: vec![],
        write_version: 7,
        txn_signature: Some(sig),
    };
    match AccTx::into_acc(1, false, &v2) {
        AccTx::Acc { txn_signature, .. } => assert_eq!(txn_signature, Some(sig)),
        _ => panic!("an account update"),
    }
    let text = AccTx::into_acc(1, false, &v2).to_string();
    assert!(text.starts_with("Acc {"));
    assert_eq!(AccTx::into_acc(1, false, &v2).into_bytes(), text.into_bytes());
}

#[test]
fn transactions_keep_their_fields() {
    let message = TxMessage {
        fee_payer: key(9),
        instructions: vec![ProgramInstruction { program_id: key(5), data: vec![1] }],
    };
    let sig = Signature { bytes: [4; 64] };
    let info = ReplicaTransactionInfo::V0_0_2 {
        signature: sig,
        is_vote: false,
        transaction: message,
        index: 3,
    };
    match AccTx::into_tx(8, &info) {
        AccTx::Tx { slot, signature, is_vote, transaction, index } => {
            assert_eq!((slot, signature, is_vote, index), (8, sig, false, Some(3)));
            assert_eq!(transaction.instructions[0].data, vec![1]);
        }
        _ => panic!("a transaction"),
    }
}

#[test]
fn plugin_starts_with_empty_settings() {
    let plugin = FusionEnginePlugin::new();
    assert_eq!(plugin.name(), "FusionEnginePlugin");
    let _ = FusionEnginePlugin::default();
}
