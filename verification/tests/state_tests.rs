use solana_keypair::Keypair;
use solana_signer::Signer;
use solana_transaction::versioned::VersionedTransaction;
use solana_transaction::Transaction;
use wallet_core::bridge::MsgFromKotlin;
use wallet_core::codec::encode_as_wire;
use wallet_core::codec::encode_transaction;
use wallet_core::state::{MessageState, TransactionState, WalletCore, WalletState, DEFAULT_SETTLE_DELAY_MS, SELF_TRANSFER_LAMPORTS};

fn keypair(seed: u8) -> Keypair {
    Keypair::new_from_array([seed; 32])
}

fn connect(core: &mut WalletCore, kp: &Keypair) {
    let job = core.handle_event(MsgFromKotlin::Pubkey(kp.pubkey().to_string()), 0);
    assert!(job.is_none());
}

#[test]
fn identity_event_connects_the_wallet() {
    let mut core = WalletCore::new(DEFAULT_SETTLE_DELAY_MS);
    let kp = keypair(1);
    connect(&mut core, &kp);
    match core.wallet_state() {
        WalletState::Pubkey(k) => {
            assert_eq!(k.as_bytes(), &kp.pubkey().to_bytes().to_vec());
            assert_eq!(k.to_base58(), kp.pubkey().to_string());
        }
        WalletState::Disconnected => panic!("identity event must connect the wallet"),
    }
}

#[test]
fn undecodable_identity_is_ignored() {
    let mut core = WalletCore::new(DEFAULT_SETTLE_DELAY_MS);
    core.handle_event(MsgFromKotlin::Pubkey("not-base58-0OIl".to_string()), 0);
    assert!(matches!(core.wallet_state(), WalletState::Disconnected));
    // Decodable base58, but not 32 bytes: also ignored.
    let short = bs58::encode(&[1u8, 2, 3]).into_string();
    core.handle_event(MsgFromKotlin::Pubkey(short), 0);
    assert!(matches!(core.wallet_state(), WalletState::Disconnected));
}

#[test]
fn disconnect_clears_the_identity() {
    let mut core = WalletCore::new(DEFAULT_SETTLE_DELAY_MS);
    let kp = keypair(2);
    connect(&mut core, &kp);
    core.disconnect_wallet();
    assert!(matches!(core.wallet_state(), WalletState::Disconnected));
}

#[test]
fn unsolicited_signed_message_is_an_error() {
    let mut core = WalletCore::new(DEFAULT_SETTLE_DELAY_MS);
    let sig = bs58::encode(&[0u8; 64]).into_string();
    core.handle_event(MsgFromKotlin::SignedMessage(sig), 0);
    match core.message_state() {
        MessageState::Error(reason) => assert_eq!(reason, "no message available"),
        other => panic!("expected the no-message error, got {:?}", other),
    }
}

#[test]
fn signed_message_without_identity_is_an_error() {
    let mut core = WalletCore::new(DEFAULT_SETTLE_DELAY_MS);
    let req = core.request_sign_message("hello world".to_string()).unwrap();
    let sig = bs58::encode(&[0u8; 64]).into_string();
    core.handle_event(MsgFromKotlin::SignedMessage(sig), req.correlation);
    match core.message_state() {
        MessageState::Error(reason) => assert_eq!(reason, "no message available"),
        other => panic!("expected the no-message error, got {:?}", other),
    }
}

#[test]
fn message_request_payload_is_the_exact_encoding() {
    let mut core = WalletCore::new(DEFAULT_SETTLE_DELAY_MS);
    let req = core.request_sign_message("hi".to_string()).unwrap();
    // bincode of a &str: 8-byte little-endian length, then the UTF-8 bytes.
    assert_eq!(req.payload, vec![2, 0, 0, 0, 0, 0, 0, 0, b'h', b'i']);
    assert_eq!(req.payload, bincode::serialize("hi").unwrap());
    assert!(matches!(core.message_state(), MessageState::WaitingForSignature(m) if m == "hi"));
}

#[test]
fn correctly_signed_message_is_accepted() {
    let mut core = WalletCore::new(DEFAULT_SETTLE_DELAY_MS);
    let kp = keypair(3);
    connect(&mut core, &kp);
    let req = core.request_sign_message("hello world".to_string()).unwrap();
    let sig = kp.sign_message(&req.payload);
    let sig_bytes: [u8; 64] = sig.into();
    let text = bs58::encode(&sig_bytes).into_string();
    core.handle_event(MsgFromKotlin::SignedMessage(text), req.correlation);
    match core.message_state() {
        MessageState::Signed(m, s) => {
            assert_eq!(m, "hello world");
            assert_eq!(s, &sig_bytes.to_vec());
        }
        other => panic!("a verified signature must sign the slot, got {:?}", other),
    }
}

#[test]
fn message_signed_under_a_different_key_is_rejected() {
    let mut core = WalletCore::new(DEFAULT_SETTLE_DELAY_MS);
    let kp = keypair(4);
    let other = keypair(5);
    connect(&mut core, &kp);
    let req = core.request_sign_message("hello world".to_string()).unwrap();
    let sig_bytes: [u8; 64] = other.sign_message(&req.payload).into();
    let text = bs58::encode(&sig_bytes).into_string();
    core.handle_event(MsgFromKotlin::SignedMessage(text), req.correlation);
    match core.message_state() {
        MessageState::Error(reason) => assert_eq!(reason, "signature verification failed"),
        MessageState::Signed(_, _) => panic!("a forged signature must never sign the slot"),
        other => panic!("expected an explicit verification error, got {:?}", other),
    }
}

#[test]
fn message_signature_in_bad_base58_is_an_error() {
    let mut core = WalletCore::new(DEFAULT_SETTLE_DELAY_MS);
    let kp = keypair(11);
    connect(&mut core, &kp);
    let req = core.request_sign_message("hello world".to_string()).unwrap();
    core.handle_event(MsgFromKotlin::SignedMessage("0OIl".to_string()), req.correlation);
    match core.message_state() {
        MessageState::Error(reason) => assert!(!reason.is_empty()),
        other => panic!("expected the decoder's error, got {:?}", other),
    }
}

#[test]
fn message_signature_of_wrong_length_is_an_error() {
    let mut core = WalletCore::new(DEFAULT_SETTLE_DELAY_MS);
    let kp = keypair(6);
    connect(&mut core, &kp);
    let req = core.request_sign_message("hello world".to_string()).unwrap();
    let text = bs58::encode(&[0u8; 32]).into_string();
    core.handle_event(MsgFromKotlin::SignedMessage(text), req.correlation);
    match core.message_state() {
        MessageState::Error(reason) => assert_eq!(reason, "not a valid signature length"),
        other => panic!("expected the signature-length error, got {:?}", other),
    }
}

#[test]
fn stale_message_result_is_discarded() {
    let mut core = WalletCore::new(DEFAULT_SETTLE_DELAY_MS);
    let kp = keypair(7);
    connect(&mut core, &kp);
    let first = core.request_sign_message("first".to_string()).unwrap();
    let second = core.request_sign_message("second".to_string()).unwrap();
    assert_ne!(first.correlation, second.correlation);
    // A perfectly valid signature for the superseded request arrives late.
    let sig_bytes: [u8; 64] = kp.sign_message(&first.payload).into();
    let text = bs58::encode(&sig_bytes).into_string();
    core.handle_event(MsgFromKotlin::SignedMessage(text), first.correlation);
    assert!(matches!(core.message_state(), MessageState::WaitingForSignature(m) if m == "second"));
}

fn any_signed_transaction() -> Vec<u8> {
    encode_transaction(&VersionedTransaction::default()).unwrap()
}

#[test]
fn dispatching_a_transaction_awaits_with_the_exact_serialization() {
    let mut core = WalletCore::new(DEFAULT_SETTLE_DELAY_MS);
    let kp = keypair(12);
    let payer = kp.pubkey();
    let ix = solana_system_interface::instruction::transfer(&payer, &payer, 1_000);
    let tx: VersionedTransaction = Transaction::new_with_payer(&[ix], Some(&payer)).into();
    let req = core
        .dispatch_sign_transaction(&tx)
        .expect("a well-formed transaction serializes and is dispatched");
    assert_eq!(req.payload, bincode::serialize(&tx).unwrap());
    assert!(matches!(core.transaction_state(), TransactionState::WaitingForSignature));
}

#[test]
fn transfer_plan_is_a_self_transfer_for_the_connected_account() {
    let mut core = WalletCore::new(DEFAULT_SETTLE_DELAY_MS);
    assert!(core.plan_transfer().is_none());
    let kp = keypair(13);
    connect(&mut core, &kp);
    let plan = core.plan_transfer().expect("a connected wallet has a transfer to prepare");
    let expected = kp.pubkey().to_bytes().to_vec();
    assert_eq!(plan.from.as_bytes(), &expected);
    assert_eq!(plan.to.as_bytes(), &expected);
    assert_eq!(plan.payer.as_bytes(), &expected);
    assert_eq!(plan.lamports, SELF_TRANSFER_LAMPORTS);
    assert_eq!(plan.lamports, 1_000);
}

#[test]
fn transaction_build_failure_fails_the_slot() {
    let mut core = WalletCore::new(DEFAULT_SETTLE_DELAY_MS);
    core.fail_transaction("could not fetch a recent network reference".to_string());
    match core.transaction_state() {
        TransactionState::Error(reason) => {
            assert_eq!(reason, "could not fetch a recent network reference")
        }
        other => panic!("a build failure must fail the slot, got {:?}", other),
    }
}

#[test]
fn superseded_transaction_result_is_discarded() {
    let mut core = WalletCore::new(DEFAULT_SETTLE_DELAY_MS);
    let request_a = core.request_sign_transaction(vec![1, 2, 3]);
    let request_b = core.request_sign_transaction(vec![4, 5, 6]);
    assert_ne!(request_a.correlation, request_b.correlation);
    let late = encode_as_wire(&any_signed_transaction());
    let job = core.handle_event(MsgFromKotlin::SignedTransaction(late), request_a.correlation);
    assert!(job.is_none());
    assert!(matches!(core.transaction_state(), TransactionState::WaitingForSignature));
}

#[test]
fn end_to_end_transaction_submission_success() {
    let mut core = WalletCore::new(DEFAULT_SETTLE_DELAY_MS);
    let kp = keypair(8);
    connect(&mut core, &kp);

    // The UI builds a transfer instruction transaction for the connected
    // account and dispatches it for signing.
    let payer = kp.pubkey();
    let ix = solana_system_interface::instruction::transfer(&payer, &payer, 1_000);
    let tx = Transaction::new_with_payer(&[ix], Some(&payer));
    let versioned: VersionedTransaction = tx.into();
    let unsigned_bytes = encode_transaction(&versioned).unwrap();
    let req = core.request_sign_transaction(unsigned_bytes);
    assert!(matches!(core.transaction_state(), TransactionState::WaitingForSignature));

    // The host returns the signed transaction over the bridge.
    let signed_bytes = encode_transaction(&versioned).unwrap();
    let wire = encode_as_wire(&signed_bytes);
    let job = core
        .handle_event(MsgFromKotlin::SignedTransaction(wire), req.correlation)
        .expect("a decodable signed transaction must spawn a submission");
    assert_eq!(job.payload, signed_bytes);
    assert_eq!(job.correlation, req.correlation);
    assert!(matches!(core.transaction_state(), TransactionState::Signed(_)));
    assert_eq!(core.settle_delay_ms(), DEFAULT_SETTLE_DELAY_MS);

    // After the settle delay the submission succeeds: the slot is freed.
    core.apply_submission_result(job.correlation, Ok(()));
    assert!(matches!(core.transaction_state(), TransactionState::Idle));
}

#[test]
fn end_to_end_transaction_submission_failure() {
    let mut core = WalletCore::new(DEFAULT_SETTLE_DELAY_MS);
    let kp = keypair(9);
    connect(&mut core, &kp);
    let req = core.request_sign_transaction(any_signed_transaction());
    let wire = encode_as_wire(&any_signed_transaction());
    let job = core
        .handle_event(MsgFromKotlin::SignedTransaction(wire), req.correlation)
        .expect("a decodable signed transaction must spawn a submission");
    core.apply_submission_result(job.correlation, Err("blockhash expired".to_string()));
    match core.transaction_state() {
        TransactionState::Error(reason) => assert_eq!(reason, "blockhash expired"),
        other => panic!("a rejected submission must fail the slot, got {:?}", other),
    }
    // Terminal until a new request is dispatched.
    core.apply_submission_result(job.correlation, Ok(()));
    assert!(matches!(core.transaction_state(), TransactionState::Error(_)));
    core.request_sign_transaction(vec![]);
    assert!(matches!(core.transaction_state(), TransactionState::WaitingForSignature));
}

#[test]
fn stale_submission_result_is_discarded() {
    let mut core = WalletCore::new(DEFAULT_SETTLE_DELAY_MS);
    let req = core.request_sign_transaction(vec![]);
    let wire = encode_as_wire(&any_signed_transaction());
    let job = core.handle_event(MsgFromKotlin::SignedTransaction(wire), req.correlation).unwrap();
    // A new request supersedes the signed one while its submission is in
    // flight; the late outcome must not touch the new request's state.
    core.request_sign_transaction(vec![]);
    core.apply_submission_result(job.correlation, Err("too late".to_string()));
    assert!(matches!(core.transaction_state(), TransactionState::WaitingForSignature));
}

#[test]
fn undecodable_signed_transaction_fails_the_slot() {
    let mut core = WalletCore::new(DEFAULT_SETTLE_DELAY_MS);
    let req = core.request_sign_transaction(vec![]);
    let garbage = encode_as_wire(&vec![255u8; 9]);
    let job = core.handle_event(MsgFromKotlin::SignedTransaction(garbage), req.correlation);
    assert!(job.is_none());
    match core.transaction_state() {
        TransactionState::Error(reason) => assert!(!reason.is_empty()),
        other => panic!("expected a decode error, got {:?}", other),
    }
}

#[test]
fn device_events_leave_the_slots_unchanged() {
    let mut core = WalletCore::new(DEFAULT_SETTLE_DELAY_MS);
    let kp = keypair(10);
    connect(&mut core, &kp);
    core.request_sign_message("hello".to_string()).unwrap();
    for event in [
        MsgFromKotlin::UsbDeviceList("[]".to_string()),
        MsgFromKotlin::UsbPermissionResult("granted".to_string()),
        MsgFromKotlin::UsbDeviceOpened("dev".to_string()),
        MsgFromKotlin::UsbDeviceClosed("dev".to_string()),
        MsgFromKotlin::UsbDataWritten("8".to_string()),
        MsgFromKotlin::UsbDataRead("aa".to_string()),
        MsgFromKotlin::UsbError("boom".to_string()),
    ] {
        let job = core.handle_event(event, 0);
        assert!(job.is_none());
    }
    assert!(matches!(core.wallet_state(), WalletState::Pubkey(_)));
    assert!(matches!(core.message_state(), MessageState::WaitingForSignature(_)));
    assert!(matches!(core.transaction_state(), TransactionState::Idle));
}
