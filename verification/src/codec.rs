//! Wire codec: lossless, explicit-failure conversion between the transport
//! text exchanged with the host boundary and structured byte values.
//!
//! Payloads arrive as base58 text; a transaction payload must additionally
//! parse as a binary-serialized versioned transaction, and a signature payload
//! must decode to exactly 64 bytes.

use vstd::prelude::*;
use vstd::string::StringExecFns;

verus! {

// ---------------------------------------------------------------------------
// Base58 framing
// ---------------------------------------------------------------------------

/// What `bs58::decode(..).into_vec()` yields for the given text: the decoded
/// bytes, or the decoder's rendering of its error.
pub uninterp spec fn b58_decode_of(text: Seq<char>) -> Result<Seq<u8>, Seq<char>>;

/// What `bs58::encode(..).into_string()` yields for the given bytes.
pub uninterp spec fn b58_encode_of(bytes: Seq<u8>) -> Seq<char>;

/// Relies on `bs58::decode(..).into_vec()` (default bitcoin alphabet): decodes
/// base58 text into bytes, or reports the first bad character; the error is
/// rendered through its `Display` impl.
#[verifier::external_body]
pub(crate) fn b58_decode(text: &str) -> (r: Result<Vec<u8>, String>)
    ensures
        match r {
            Ok(bytes) => b58_decode_of(text@) == Ok::<Seq<u8>, Seq<char>>(bytes@),
            Err(e) => b58_decode_of(text@) == Err::<Seq<u8>, Seq<char>>(e@),
        },
{
    match bs58::decode(text).into_vec() {
        Ok(bytes) => Ok(bytes),
        Err(e) => Err(e.to_string()),
    }
}

/// Relies on `bs58::encode(..).into_string()` (default bitcoin alphabet): the
/// base58 text for the bytes, which `bs58::decode` maps back to exactly these
/// bytes.
#[verifier::external_body]
pub(crate) fn b58_encode(bytes: &[u8]) -> (r: String)
    ensures
        r@ == b58_encode_of(bytes@),
        match b58_decode_of(r@) {
            Ok(b) => b == bytes@,
            Err(_) => false,
        },
{
    bs58::encode(bytes).into_string()
}

// ---------------------------------------------------------------------------
// Decode errors
// ---------------------------------------------------------------------------

/// Failure to turn transport text into a structured value, with the
/// underlying cause.
#[derive(Debug, PartialEq, Eq)]
pub enum DecodeError {
    /// The text is not valid base58; carries the decoder's error text.
    Base58(String),
    /// The bytes do not parse as a versioned transaction; carries the
    /// deserializer's error text.
    Transaction(String),
    /// The decoded signature is not exactly 64 bytes long.
    SignatureLength,
}

/// Mathematical image of a `DecodeError`.
#[verifier::ext_equal]
pub enum DecodeErrorView {
    Base58(Seq<char>),
    Transaction(Seq<char>),
    SignatureLength,
}

impl View for DecodeError {
    type V = DecodeErrorView;

    open spec fn view(&self) -> DecodeErrorView {
        match self {
            DecodeError::Base58(t) => DecodeErrorView::Base58(t@),
            DecodeError::Transaction(t) => DecodeErrorView::Transaction(t@),
            DecodeError::SignatureLength => DecodeErrorView::SignatureLength,
        }
    }
}

/// The reason text that a decode error folds into an `Error` state.
pub open spec fn spec_reason(e: DecodeErrorView) -> Seq<char> {
    match e {
        DecodeErrorView::Base58(t) => t,
        DecodeErrorView::Transaction(t) => t,
        DecodeErrorView::SignatureLength => "not a valid signature length"@,
    }
}

impl DecodeError {
    /// Renders the underlying cause as text.
    pub fn reason(&self) -> (r: String)
        ensures
            r@ == spec_reason(self@),
    {
        match self {
            DecodeError::Base58(t) => t.clone(),
            DecodeError::Transaction(t) => t.clone(),
            DecodeError::SignatureLength => String::from_str("not a valid signature length"),
        }
    }
}

// ---------------------------------------------------------------------------
// Signatures
// ---------------------------------------------------------------------------

/// What decoding a signature payload yields: base58-decode, then insist on
/// exactly 64 bytes.
pub open spec fn spec_decode_signature(text: Seq<char>) -> Result<Seq<u8>, DecodeErrorView> {
    match b58_decode_of(text) {
        Err(e) => Err(DecodeErrorView::Base58(e)),
        Ok(bytes) => if bytes.len() == 64 {
            Ok(bytes)
        } else {
            Err(DecodeErrorView::SignatureLength)
        },
    }
}

/// Decodes a base58 signature payload; the result is exactly 64 bytes or an
/// error.
pub fn decode_signature(text: &str) -> (r: Result<Vec<u8>, DecodeError>)
    ensures
        match r {
            Ok(bytes) => spec_decode_signature(text@) == Ok::<Seq<u8>, DecodeErrorView>(bytes@)
                && bytes@.len() == 64,
            Err(e) => spec_decode_signature(text@) == Err::<Seq<u8>, DecodeErrorView>(e@),
        },
{
    match b58_decode(text) {
        Err(e) => Err(DecodeError::Base58(e)),
        Ok(bytes) => {
            if bytes.len() == 64 {
                Ok(bytes)
            } else {
                Err(DecodeError::SignatureLength)
            }
        },
    }
}

/// Law: text whose base58 decoding is anything but exactly 64 bytes never
/// decodes as a signature.
pub proof fn decode_signature_rejects_bad_length(text: Seq<char>)
    requires
        !(b58_decode_of(text) matches Ok(bytes) && bytes.len() == 64),
    ensures
        spec_decode_signature(text) is Err,
{
}

// ---------------------------------------------------------------------------
// Transactions
// ---------------------------------------------------------------------------

/// What `bincode::deserialize::<VersionedTransaction>` yields on the given
/// bytes: `None` when they parse as a versioned transaction, otherwise the
/// deserializer's error text.
pub uninterp spec fn tx_decode_err(bytes: Seq<u8>) -> Option<Seq<char>>;

/// The bytes are a valid binary serialization of a versioned transaction.
pub open spec fn is_valid_tx_encoding(bytes: Seq<u8>) -> bool {
    tx_decode_err(bytes) is None
}

/// Relies on `bincode::deserialize::<VersionedTransaction>`: whether the bytes
/// parse as a versioned transaction, with the error rendered through its
/// `Display` impl when they do not.
#[verifier::external_body]
fn check_transaction_bytes(bytes: &Vec<u8>) -> (r: Option<String>)
    ensures
        match r {
            None => tx_decode_err(bytes@) is None,
            Some(e) => tx_decode_err(bytes@) == Some(e@),
        },
{
    match bincode::deserialize::<solana_transaction::versioned::VersionedTransaction>(
        bytes.as_slice(),
    ) {
        Ok(_) => None,
        Err(e) => Some(e.to_string()),
    }
}

/// A signed transaction as it crossed the wire: the bytes are known to parse
/// as a versioned transaction, and they identify it — the binary serialization
/// is what the network is handed.
#[derive(Debug, PartialEq, Eq)]
pub struct WireTransaction {
    bytes: Vec<u8>,
}

impl View for WireTransaction {
    type V = Seq<u8>;

    closed spec fn view(&self) -> Seq<u8> {
        self.bytes@
    }
}

impl WireTransaction {
    /// The bytes always satisfy the type's invariant.
    #[verifier::type_invariant]
    closed spec fn inv(self) -> bool {
        is_valid_tx_encoding(self.bytes@)
    }

    /// The serialized form, as decoded from the wire.
    pub fn bytes(&self) -> (r: &Vec<u8>)
        ensures
            r@ == self@,
            is_valid_tx_encoding(self@),
    {
        proof {
            use_type_invariant(self);
        }
        &self.bytes
    }
}

/// What decoding a transaction payload yields: base58-decode, then check that
/// the bytes parse as a versioned transaction.
pub open spec fn spec_decode_transaction(text: Seq<char>) -> Result<Seq<u8>, DecodeErrorView> {
    match b58_decode_of(text) {
        Err(e) => Err(DecodeErrorView::Base58(e)),
        Ok(bytes) => match tx_decode_err(bytes) {
            Some(e) => Err(DecodeErrorView::Transaction(e)),
            None => Ok(bytes),
        },
    }
}

/// Decodes a base58 transaction payload into the transaction it serializes.
pub fn decode_transaction(text: &str) -> (r: Result<WireTransaction, DecodeError>)
    ensures
        match r {
            Ok(tx) => spec_decode_transaction(text@) == Ok::<Seq<u8>, DecodeErrorView>(tx@),
            Err(e) => spec_decode_transaction(text@) == Err::<Seq<u8>, DecodeErrorView>(e@),
        },
{
    match b58_decode(text) {
        Err(e) => Err(DecodeError::Base58(e)),
        Ok(bytes) => match check_transaction_bytes(&bytes) {
            Some(e) => Err(DecodeError::Transaction(e)),
            None => Ok(WireTransaction { bytes }),
        },
    }
}

/// Encodes bytes as the base58 wire text that the bridge protocol carries.
pub fn encode_as_wire(bytes: &Vec<u8>) -> (r: String)
    ensures
        r@ == b58_encode_of(bytes@),
        match b58_decode_of(r@) {
            Ok(b) => b == bytes@,
            Err(_) => false,
        },
{
    b58_encode(bytes.as_slice())
}

/// Law: wire text that base58-decodes to a validly serialized transaction
/// decodes to exactly that transaction, and to nothing else; text carrying
/// invalid bytes is rejected with the deserializer's reason.
pub proof fn wire_round_trip(text: Seq<char>, bytes: Seq<u8>)
    requires
        b58_decode_of(text) == Ok::<Seq<u8>, Seq<char>>(bytes),
    ensures
        is_valid_tx_encoding(bytes) ==> spec_decode_transaction(text) == Ok::<
            Seq<u8>,
            DecodeErrorView,
        >(bytes),
        !is_valid_tx_encoding(bytes) ==> spec_decode_transaction(text) matches Err(
            DecodeErrorView::Transaction(_),
        ),
{
}

// ---------------------------------------------------------------------------
// Serialization for signer handoff
// ---------------------------------------------------------------------------

/// The versioned transaction type of the network's own library; opaque here.
#[verifier::external_type_specification]
#[verifier::external_body]
pub struct ExVersionedTransaction(solana_transaction::versioned::VersionedTransaction);

/// What `bincode::serialize` yields for the given in-memory transaction: its
/// binary serialization, or the serializer's error text; the result depends
/// on the transaction value alone.
pub uninterp spec fn tx_encoding_of(tx: solana_transaction::versioned::VersionedTransaction) -> Result<
    Seq<u8>,
    Seq<char>,
>;

/// Relies on `bincode::serialize::<VersionedTransaction>`: the binary
/// serialization of an in-memory transaction.
#[verifier::external_body]
fn serialize_transaction(tx: &solana_transaction::versioned::VersionedTransaction) -> (r: Result<
    Vec<u8>,
    String,
>)
    ensures
        match r {
            Ok(bytes) => tx_encoding_of(*tx) == Ok::<Seq<u8>, Seq<char>>(bytes@),
            Err(e) => tx_encoding_of(*tx) == Err::<Seq<u8>, Seq<char>>(e@),
        },
{
    match bincode::serialize(tx) {
        Ok(bytes) => Ok(bytes),
        Err(e) => Err(e.to_string()),
    }
}

/// Binary-serializes a transaction for handoff to a signer. Failure is a
/// programmer error — it cannot occur for a well-formed in-memory transaction
/// — and is reported, never swallowed.
pub fn encode_transaction(tx: &solana_transaction::versioned::VersionedTransaction) -> (r: Result<
    Vec<u8>,
    String,
>)
    ensures
        match r {
            Ok(bytes) => tx_encoding_of(*tx) == Ok::<Seq<u8>, Seq<char>>(bytes@),
            Err(e) => tx_encoding_of(*tx) == Err::<Seq<u8>, Seq<char>>(e@),
        },
{
    serialize_transaction(tx)
}

// ---------------------------------------------------------------------------
// Message byte encoding
// ---------------------------------------------------------------------------

/// What `bincode::serialize` yields for the given text handled as `&str`: the
/// exact byte encoding that is dispatched for signing and reconstructed for
/// verification, or the serializer's error text.
pub uninterp spec fn msg_encoding_of(text: Seq<char>) -> Result<Seq<u8>, Seq<char>>;

/// Relies on `bincode::serialize::<&str>`: the byte encoding of a message
/// that signers sign; the same text always encodes to the same bytes.
#[verifier::external_body]
pub(crate) fn message_signing_bytes(text: &str) -> (r: Result<Vec<u8>, String>)
    ensures
        match r {
            Ok(bytes) => msg_encoding_of(text@) == Ok::<Seq<u8>, Seq<char>>(bytes@),
            Err(e) => msg_encoding_of(text@) == Err::<Seq<u8>, Seq<char>>(e@),
        },
{
    match bincode::serialize(text) {
        Ok(bytes) => Ok(bytes),
        Err(e) => Err(e.to_string()),
    }
}

} // verus!
