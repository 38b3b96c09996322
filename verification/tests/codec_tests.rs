use solana_transaction::versioned::VersionedTransaction;
use wallet_core::codec::{decode_signature, decode_transaction, encode_as_wire, encode_transaction, DecodeError};

#[test]
fn signature_round_trips_through_base58() {
    let sig: Vec<u8> = (0u8..64).collect();
    let text = bs58::encode(&sig).into_string();
    let decoded = decode_signature(&text).expect("64 bytes must decode");
    assert_eq!(decoded, sig);
}

#[test]
fn signature_of_wrong_length_is_rejected() {
    let short: Vec<u8> = (0u8..32).collect();
    let text = bs58::encode(&short).into_string();
    match decode_signature(&text) {
        Err(DecodeError::SignatureLength) => {}
        other => panic!("expected a signature-length error, got {:?}", other),
    }
    let long: Vec<u8> = (0u8..65).collect();
    let text = bs58::encode(&long).into_string();
    assert!(matches!(decode_signature(&text), Err(DecodeError::SignatureLength)));
}

#[test]
fn signature_length_error_reason_text() {
    let err = decode_signature(&bs58::encode(&[1u8, 2, 3]).into_string()).unwrap_err();
    assert_eq!(err.reason(), "not a valid signature length");
}

#[test]
fn signature_in_bad_base58_is_rejected() {
    // '0', 'O', 'I' and 'l' are outside the base58 alphabet.
    match decode_signature("0OIl") {
        Err(DecodeError::Base58(cause)) => assert!(!cause.is_empty()),
        other => panic!("expected a base58 error, got {:?}", other),
    }
}

#[test]
fn transaction_round_trips_through_the_wire() {
    let tx = VersionedTransaction::default();
    let bytes = encode_transaction(&tx).expect("serialization of a well-formed transaction");
    assert_eq!(bytes, bincode::serialize(&tx).unwrap());

    let text = encode_as_wire(&bytes);
    let wire = decode_transaction(&text).expect("a valid serialization must decode");
    assert_eq!(wire.bytes(), &bytes);

    let back: VersionedTransaction = bincode::deserialize(wire.bytes()).unwrap();
    assert_eq!(back, tx);
}

#[test]
fn malformed_transaction_bytes_are_rejected_without_panic() {
    let garbage: Vec<u8> = vec![255, 255, 255, 255, 255, 255, 255, 255, 255];
    let text = encode_as_wire(&garbage);
    match decode_transaction(&text) {
        Err(DecodeError::Transaction(cause)) => assert!(!cause.is_empty()),
        other => panic!("expected a deserializer error, got {:?}", other),
    }
}

#[test]
fn transaction_in_bad_base58_is_rejected() {
    assert!(matches!(decode_transaction("!!not base58!!"), Err(DecodeError::Base58(_))));
}

#[test]
fn wire_encoding_matches_base58() {
    assert_eq!(encode_as_wire(&vec![]), "");
    assert_eq!(encode_as_wire(&vec![0]), "1");
    assert_eq!(encode_as_wire(&vec![0, 0]), "11");
    let bytes: Vec<u8> = vec![7, 1, 9, 200, 44, 0, 13];
    assert_eq!(encode_as_wire(&bytes), bs58::encode(&bytes).into_string());
}

#[test]
fn base58_error_reason_is_passed_through() {
    let err = decode_signature("0").unwrap_err();
    match &err {
        DecodeError::Base58(cause) => assert_eq!(err.reason(), *cause),
        other => panic!("expected a base58 error, got {:?}", other),
    }
}
