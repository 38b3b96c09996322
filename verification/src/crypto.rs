//! Signature verification and local key material.
//!
//! The cryptographic primitives are the network library's; this module gives
//! their results names that the rest of the core reasons with, and defines the
//! wallet identity type that the state machine shares.

use solana_signer::Signer;
use vstd::prelude::*;

verus! {

use crate::codec::{b58_decode, b58_decode_of, b58_encode, b58_encode_of};

// ---------------------------------------------------------------------------
// Verification and signing, named
// ---------------------------------------------------------------------------

/// Whether `sig` is a valid ed25519 signature over `msg` under the public key
/// `pk`; the result depends on the three byte strings alone.
pub uninterp spec fn sig_verifies(pk: Seq<u8>, msg: Seq<u8>, sig: Seq<u8>) -> bool;

/// Relies on `solana_signature::Signature::verify` (strict ed25519
/// verification): whether the signature verifies over the message under the
/// key; byte shapes that are no 64-byte signature or no valid key never
/// verify.
#[verifier::external_body]
pub fn verify_signature(pk: &[u8], msg: &[u8], sig: &[u8]) -> (r: bool)
    ensures
        r == sig_verifies(pk@, msg@, sig@),
{
    match solana_signature::Signature::try_from(sig) {
        Ok(s) => s.verify(pk, msg),
        Err(_) => false,
    }
}

/// The public key that a 32-byte ed25519 secret seed derives.
pub uninterp spec fn ed25519_pub_of(seed: Seq<u8>) -> Seq<u8>;

/// Relies on `solana_keypair::Keypair::new_from_array` and `Signer::pubkey`:
/// the 32-byte public key derived from the seed.
#[verifier::external_body]
pub fn derive_public_key(seed: &[u8; 32]) -> (r: Vec<u8>)
    ensures
        r@ == ed25519_pub_of(seed@),
        r@.len() == 32,
{
    let keypair = solana_keypair::Keypair::new_from_array(*seed);
    keypair.pubkey().to_bytes().to_vec()
}

/// The ed25519 signature that the seed's key pair produces over a message;
/// deterministic in the seed and the message.
pub uninterp spec fn ed25519_sign_of(seed: Seq<u8>, msg: Seq<u8>) -> Seq<u8>;

/// Relies on `solana_keypair::Keypair::new_from_array` and
/// `Signer::sign_message` (deterministic ed25519 signing): the 64-byte
/// signature over the message, which verifies under the seed's own public
/// key.
#[verifier::external_body]
pub fn sign_with_seed(seed: &[u8; 32], msg: &[u8]) -> (r: Vec<u8>)
    ensures
        match r {
            sig => sig@ == ed25519_sign_of(seed@, msg@) && sig@.len() == 64 && sig_verifies(
                ed25519_pub_of(seed@),
                msg@,
                sig@,
            ),
        },
{
    let keypair = solana_keypair::Keypair::new_from_array(*seed);
    let signature: [u8; 64] = keypair.sign_message(msg).into();
    signature.to_vec()
}

// ---------------------------------------------------------------------------
// Wallet identity
// ---------------------------------------------------------------------------

/// What parsing a base58 identity payload yields: the key bytes, provided the
/// text decodes and the result is exactly 32 bytes.
pub open spec fn spec_parse_pubkey(text: Seq<char>) -> Option<Seq<u8>> {
    match b58_decode_of(text) {
        Ok(bytes) => if bytes.len() == 32 {
            Some(bytes)
        } else {
            None
        },
        Err(_) => None,
    }
}

/// A wallet account's public identity: exactly 32 public-key bytes.
#[derive(Debug, PartialEq, Eq)]
pub struct PublicKey {
    bytes: Vec<u8>,
}

impl View for PublicKey {
    type V = Seq<u8>;

    closed spec fn view(&self) -> Seq<u8> {
        self.bytes@
    }
}

impl PublicKey {
    /// The key is always exactly 32 bytes.
    #[verifier::type_invariant]
    closed spec fn inv(self) -> bool {
        self.bytes@.len() == 32
    }

    /// Takes ready key bytes; anything but exactly 32 of them is refused.
    pub fn from_bytes(bytes: Vec<u8>) -> (r: Option<PublicKey>)
        ensures
            match r {
                Some(k) => k@ == bytes@ && bytes@.len() == 32,
                None => bytes@.len() != 32,
            },
    {
        if bytes.len() == 32 {
            Some(PublicKey { bytes })
        } else {
            None
        }
    }

    /// Parses a base58 identity payload, as the bridge protocol carries it.
    pub fn from_base58(text: &str) -> (r: Option<PublicKey>)
        ensures
            match r {
                Some(k) => spec_parse_pubkey(text@) == Some(k@),
                None => spec_parse_pubkey(text@) is None,
            },
    {
        match b58_decode(text) {
            Ok(bytes) => PublicKey::from_bytes(bytes),
            Err(_) => None,
        }
    }

    /// The raw key bytes.
    pub fn as_bytes(&self) -> (r: &Vec<u8>)
        ensures
            r@ == self@,
            self@.len() == 32,
    {
        proof {
            use_type_invariant(self);
        }
        &self.bytes
    }

    /// Renders the key as base58 text, for display and identity exchange.
    pub fn to_base58(&self) -> (r: String)
        ensures
            r@ == b58_encode_of(self@),
    {
        b58_encode(self.bytes.as_slice())
    }
}

impl Clone for PublicKey {
    fn clone(&self) -> (r: Self)
        ensures
            r@ == self@,
    {
        proof {
            use_type_invariant(self);
        }
        let bytes = self.bytes.clone();
        assert(bytes@ =~= self.bytes@);
        PublicKey { bytes }
    }
}

} // verus!
