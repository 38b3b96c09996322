//! Signer capability: a uniform contract {identify, sign, name, availability}
//! over the three backends — an in-process software key, a USB-attached
//! hardware device, and a signing capability delegated to the host process.
//!
//! The variant set is closed and dispatched with exhaustive matching. A
//! backend either completes a signature synchronously (software key) or only
//! initiates an exchange whose result arrives later (hardware device, host
//! delegation); no backend ever hands out a signature that does not verify
//! against the identity it claims.

use vstd::prelude::*;
use vstd::slice::slice_to_vec;
use vstd::string::StringExecFns;

verus! {

use crate::codec::b58_encode_of;
use crate::crypto;
use crate::crypto::{ed25519_pub_of, ed25519_sign_of, sig_verifies, PublicKey};
use crate::mwa::{MwaSigner, MwaWalletView};

// ---------------------------------------------------------------------------
// Host dispatch records
// ---------------------------------------------------------------------------

/// An out-of-band action that the host boundary must perform for the core;
/// the core is fire-and-forget about it, results come back as bridge events.
#[derive(Debug, PartialEq, Eq)]
pub enum HostRequest {
    /// Establish a signing session with the host wallet.
    EstablishSession,
    /// Ask the host wallet to sign a serialized transaction.
    SignTransaction(Vec<u8>),
    /// Ask the host wallet to sign message bytes.
    SignMessage(Vec<u8>),
}

/// Mathematical image of a host request.
#[verifier::ext_equal]
pub enum HostRequestView {
    EstablishSession,
    SignTransaction(Seq<u8>),
    SignMessage(Seq<u8>),
}

impl View for HostRequest {
    type V = HostRequestView;

    open spec fn view(&self) -> HostRequestView {
        match self {
            HostRequest::EstablishSession => HostRequestView::EstablishSession,
            HostRequest::SignTransaction(b) => HostRequestView::SignTransaction(b@),
            HostRequest::SignMessage(b) => HostRequestView::SignMessage(b@),
        }
    }
}

// ---------------------------------------------------------------------------
// The capability contract
// ---------------------------------------------------------------------------

/// The uniform signing-capability contract. An implementation reports the
/// identity it controls, signs opaque byte buffers — synchronously or by
/// initiating an out-of-band exchange — names itself, and reports liveness.
///
/// The one promise every backend makes: a signature it returns verifies
/// against the identity it claimed when asked.
pub trait TransactionSigner: Sized + View {
    /// The 32-byte public key this signer currently controls, if any.
    spec fn signer_identity(&self) -> Option<Seq<u8>>;

    /// Best-effort liveness.
    spec fn signer_available(&self) -> bool;

    /// The stable display name of the backend.
    spec fn signer_name(&self) -> Seq<char>;

    /// What a signing request over `message` returns: the signature, or the
    /// text explaining why none is returned synchronously.
    spec fn sign_result(&self, message: Seq<u8>) -> Result<Seq<u8>, Seq<char>>;

    /// The signer's state after a signing request over `message`.
    spec fn after_sign(&self, message: Seq<u8>) -> Self::V;

    /// The identity the signer controls, rendered base58, or an error when
    /// none is connected.
    fn get_public_key(&self) -> (r: Result<String, String>)
        ensures
            r matches Ok(s) ==> self.signer_identity() matches Some(k) && s@ == b58_encode_of(k),
            r is Ok <==> self.signer_identity() is Some,
    ;

    /// Requests a signature over an opaque byte buffer.
    fn sign_message(&mut self, message: &[u8]) -> (r: Result<Vec<u8>, String>)
        ensures
            final(self)@ == old(self).after_sign(message@),
            match r {
                Ok(sig) => old(self).sign_result(message@) == Ok::<Seq<u8>, Seq<char>>(sig@),
                Err(e) => old(self).sign_result(message@) == Err::<Seq<u8>, Seq<char>>(e@),
            },
            r matches Ok(sig) ==> old(self).signer_identity() matches Some(k) && sig_verifies(
                k,
                message@,
                sig@,
            ),
    ;

    /// The stable, human-readable name of the backend.
    fn get_name(&self) -> (r: String)
        ensures
            r@ == self.signer_name(),
    ;

    /// Best-effort liveness; never fails, false on any uncertainty.
    fn is_available(&self) -> (r: bool)
        ensures
            r == self.signer_available(),
    ;
}

// ---------------------------------------------------------------------------
// Local software key
// ---------------------------------------------------------------------------

/// The local key material a software signer is built from.
#[derive(Debug, PartialEq, Eq, Clone, Copy)]
pub struct Wallet {
    seed: [u8; 32],
}

impl View for Wallet {
    type V = Seq<u8>;

    closed spec fn view(&self) -> Seq<u8> {
        self.seed@
    }
}

impl Wallet {
    /// Wraps a 32-byte ed25519 secret seed.
    pub fn new(seed: [u8; 32]) -> (r: Wallet)
        ensures
            r@ == seed@,
    {
        Wallet { seed }
    }
}

/// The in-process signing backend: holds the secret seed and completes every
/// signature synchronously.
#[derive(Debug, PartialEq, Eq, Clone, Copy)]
pub struct SoftwareSigner {
    seed: [u8; 32],
}

impl View for SoftwareSigner {
    type V = Seq<u8>;

    closed spec fn view(&self) -> Seq<u8> {
        self.seed@
    }
}

impl SoftwareSigner {
    /// Builds the signer over a wallet's key material.
    pub fn new(wallet: Wallet) -> (r: SoftwareSigner)
        ensures
            r@ == wallet@,
    {
        SoftwareSigner { seed: wallet.seed }
    }
}

impl TransactionSigner for SoftwareSigner {
    open spec fn signer_identity(&self) -> Option<Seq<u8>> {
        Some(ed25519_pub_of(self@))
    }

    open spec fn signer_available(&self) -> bool {
        true
    }

    open spec fn signer_name(&self) -> Seq<char> {
        "Software Wallet"@
    }

    open spec fn sign_result(&self, message: Seq<u8>) -> Result<Seq<u8>, Seq<char>> {
        Ok(ed25519_sign_of(self@, message))
    }

    open spec fn after_sign(&self, message: Seq<u8>) -> Seq<u8> {
        self@
    }

    fn get_public_key(&self) -> (r: Result<String, String>) {
        let key = crypto::derive_public_key(&self.seed);
        Ok(crate::codec::b58_encode(key.as_slice()))
    }

    fn sign_message(&mut self, message: &[u8]) -> (r: Result<Vec<u8>, String>) {
        Ok(crypto::sign_with_seed(&self.seed, message))
    }

    fn get_name(&self) -> (r: String) {
        String::from_str("Software Wallet")
    }

    fn is_available(&self) -> (r: bool) {
        true
    }
}

// ---------------------------------------------------------------------------
// USB hardware device
// ---------------------------------------------------------------------------

/// The hardware signing backend: a session record for one exclusive physical
/// device. The raw device exchange is driven by the host loop; the record
/// serializes access — at most one exchange is in flight — and accepts a
/// device response only after verifying it against the device's identity.
#[derive(Debug, PartialEq, Eq)]
pub struct HardwareSigner {
    device_name: String,
    open: bool,
    identity: Option<PublicKey>,
    in_flight: Option<Vec<u8>>,
}

/// Mathematical image of a hardware session.
#[verifier::ext_equal]
pub struct HardwareSignerView {
    pub device_name: Seq<char>,
    pub open: bool,
    pub identity: Option<Seq<u8>>,
    pub in_flight: Option<Seq<u8>>,
}

impl View for HardwareSigner {
    type V = HardwareSignerView;

    closed spec fn view(&self) -> HardwareSignerView {
        HardwareSignerView {
            device_name: self.device_name@,
            open: self.open,
            identity: match self.identity {
                Some(k) => Some(k@),
                None => None,
            },
            in_flight: match self.in_flight {
                Some(b) => Some(b@),
                None => None,
            },
        }
    }
}

impl HardwareSigner {
    /// A session record for the named device; closed until the host reports
    /// it opened.
    pub fn new(device_name: String) -> (r: HardwareSigner)
        ensures
            r@ == (HardwareSignerView {
                device_name: device_name@,
                open: false,
                identity: None,
                in_flight: None,
            }),
    {
        HardwareSigner { device_name, open: false, identity: None, in_flight: None }
    }

    /// Folds the host's notice that the device session opened.
    pub fn device_opened(&mut self)
        ensures
            final(self)@ == (HardwareSignerView { open: true, ..old(self)@ }),
    {
        self.open = true;
    }

    /// Folds the host's notice that the device session closed: the identity
    /// is forgotten and any exchange in flight is abandoned.
    pub fn device_closed(&mut self)
        ensures
            final(self)@ == (HardwareSignerView {
                open: false,
                identity: None,
                in_flight: None,
                ..old(self)@
            }),
    {
        self.open = false;
        self.identity = None;
        self.in_flight = None;
    }

    /// Records the identity the device reported controlling.
    pub fn set_identity(&mut self, key: PublicKey)
        ensures
            final(self)@ == (HardwareSignerView { identity: Some(key@), ..old(self)@ }),
    {
        self.identity = Some(key);
    }

    /// Accepts the device's response to the exchange in flight: the response
    /// must be the signature over exactly the dispatched bytes under the
    /// device's identity, or it is rejected; either way the exchange ends.
    pub fn complete_sign(&mut self, response: &[u8]) -> (r: Result<Vec<u8>, String>)
        ensures
            final(self)@ == (HardwareSignerView { in_flight: None, ..old(self)@ }),
            match r {
                Ok(sig) => sig@ == response@ && (old(self)@.in_flight matches Some(mb) && (old(
                    self,
                )@.identity matches Some(k) && sig_verifies(k, mb, sig@))),
                Err(_) => old(self)@.in_flight is None || old(self)@.identity is None || (old(
                    self,
                )@.in_flight matches Some(mb) && (old(self)@.identity matches Some(k)
                    && !sig_verifies(k, mb, response@))),
            },
    {
        let dispatched = match &self.in_flight {
            Some(mb) => match &self.identity {
                Some(k) => Some(
                    crypto::verify_signature(k.as_bytes().as_slice(), mb.as_slice(), response),
                ),
                None => None,
            },
            None => None,
        };
        self.in_flight = None;
        match dispatched {
            Some(true) => Ok(slice_to_vec(response)),
            Some(false) => Err(String::from_str("signature verification failed")),
            None => Err(String::from_str("no device exchange in flight")),
        }
    }
}

impl TransactionSigner for HardwareSigner {
    open spec fn signer_identity(&self) -> Option<Seq<u8>> {
        if self@.open {
            self@.identity
        } else {
            None
        }
    }

    open spec fn signer_available(&self) -> bool {
        self@.open
    }

    open spec fn signer_name(&self) -> Seq<char> {
        "Hardware Wallet"@
    }

    open spec fn sign_result(&self, message: Seq<u8>) -> Result<Seq<u8>, Seq<char>> {
        if !self@.open {
            Err("no hardware device connected"@)
        } else if self@.in_flight is Some {
            Err("device busy"@)
        } else if self@.identity is None {
            Err("device identity unknown"@)
        } else {
            Err("signature arrives from the device"@)
        }
    }

    open spec fn after_sign(&self, message: Seq<u8>) -> HardwareSignerView {
        if self@.open && self@.in_flight is None && self@.identity is Some {
            HardwareSignerView { in_flight: Some(message), ..self@ }
        } else {
            self@
        }
    }

    fn get_public_key(&self) -> (r: Result<String, String>)
        ensures
            r matches Err(e) ==> e@ == (if !self@.open {
                "no hardware device connected"@
            } else {
                "device identity unknown"@
            }),
    {
        if !self.open {
            return Err(String::from_str("no hardware device connected"));
        }
        match &self.identity {
            Some(k) => Ok(k.to_base58()),
            None => Err(String::from_str("device identity unknown")),
        }
    }

    /// Initiates one exclusive device exchange; the signature itself arrives
    /// from the device through the host loop and is accepted by
    /// `complete_sign`.
    fn sign_message(&mut self, message: &[u8]) -> (r: Result<Vec<u8>, String>) {
        if !self.open {
            return Err(String::from_str("no hardware device connected"));
        }
        let busy = match &self.in_flight {
            Some(_) => true,
            None => false,
        };
        if busy {
            return Err(String::from_str("device busy"));
        }
        let known = match &self.identity {
            Some(_) => true,
            None => false,
        };
        if !known {
            return Err(String::from_str("device identity unknown"));
        }
        self.in_flight = Some(slice_to_vec(message));
        Err(String::from_str("signature arrives from the device"))
    }

    fn get_name(&self) -> (r: String) {
        String::from_str("Hardware Wallet")
    }

    fn is_available(&self) -> (r: bool) {
        self.open
    }
}

// ---------------------------------------------------------------------------
// The closed variant set
// ---------------------------------------------------------------------------

/// The closed set of signing backends, dispatched with exhaustive matching.
#[derive(Debug, PartialEq, Eq)]
pub enum SignerType {
    Software(SoftwareSigner),
    Hardware(HardwareSigner),
    Mwa(MwaSigner),
}

/// Mathematical image of a backend.
#[verifier::ext_equal]
pub enum SignerView {
    Software(Seq<u8>),
    Hardware(HardwareSignerView),
    Mwa(MwaWalletView),
}

impl View for SignerType {
    type V = SignerView;

    open spec fn view(&self) -> SignerView {
        match self {
            SignerType::Software(s) => SignerView::Software(s@),
            SignerType::Hardware(h) => SignerView::Hardware(h@),
            SignerType::Mwa(m) => SignerView::Mwa(m@),
        }
    }
}

impl SignerType {
    /// A software signer over a wallet's key material.
    pub fn from_wallet(wallet: Wallet) -> (r: SignerType)
        ensures
            r@ == SignerView::Software(wallet@),
    {
        SignerType::Software(SoftwareSigner::new(wallet))
    }

    /// A hardware signer session for the named device, closed until the host
    /// reports it opened.
    pub fn hardware(device_name: String) -> (r: SignerType)
        ensures
            r@ == SignerView::Hardware(
                HardwareSignerView {
                    device_name: device_name@,
                    open: false,
                    identity: None,
                    in_flight: None,
                },
            ),
    {
        SignerType::Hardware(HardwareSigner::new(device_name))
    }

    /// A host-delegated signer.
    pub fn mwa(mwa_signer: MwaSigner) -> (r: SignerType)
        ensures
            r@ == SignerView::Mwa(mwa_signer@),
    {
        SignerType::Mwa(mwa_signer)
    }

    /// A user-friendly description of the backend kind.
    pub fn get_type_name(&self) -> (r: &'static str)
        ensures
            r@ == (match self@ {
                SignerView::Software(_) => "Software Wallet"@,
                SignerView::Hardware(_) => "Hardware Wallet"@,
                SignerView::Mwa(_) => "Mobile Wallet Adapter"@,
            }),
    {
        match self {
            SignerType::Software(_) => "Software Wallet",
            SignerType::Hardware(_) => "Hardware Wallet",
            SignerType::Mwa(_) => "Mobile Wallet Adapter",
        }
    }
}

impl TransactionSigner for SignerType {
    open spec fn signer_identity(&self) -> Option<Seq<u8>> {
        match self {
            SignerType::Software(s) => s.signer_identity(),
            SignerType::Hardware(h) => h.signer_identity(),
            SignerType::Mwa(m) => m.signer_identity(),
        }
    }

    open spec fn signer_available(&self) -> bool {
        match self {
            SignerType::Software(s) => s.signer_available(),
            SignerType::Hardware(h) => h.signer_available(),
            SignerType::Mwa(m) => m.signer_available(),
        }
    }

    open spec fn signer_name(&self) -> Seq<char> {
        match self {
            SignerType::Software(s) => s.signer_name(),
            SignerType::Hardware(h) => h.signer_name(),
            SignerType::Mwa(m) => m.signer_name(),
        }
    }

    open spec fn sign_result(&self, message: Seq<u8>) -> Result<Seq<u8>, Seq<char>> {
        match self {
            SignerType::Software(s) => s.sign_result(message),
            SignerType::Hardware(h) => h.sign_result(message),
            SignerType::Mwa(m) => m.sign_result(message),
        }
    }

    open spec fn after_sign(&self, message: Seq<u8>) -> SignerView {
        match self {
            SignerType::Software(s) => SignerView::Software(s.after_sign(message)),
            SignerType::Hardware(h) => SignerView::Hardware(h.after_sign(message)),
            SignerType::Mwa(m) => SignerView::Mwa(m.after_sign(message)),
        }
    }

    fn get_public_key(&self) -> (r: Result<String, String>) {
        match self {
            SignerType::Software(s) => s.get_public_key(),
            SignerType::Hardware(h) => h.get_public_key(),
            SignerType::Mwa(m) => m.get_public_key(),
        }
    }

    fn sign_message(&mut self, message: &[u8]) -> (r: Result<Vec<u8>, String>) {
        match self {
            SignerType::Software(s) => s.sign_message(message),
            SignerType::Hardware(h) => h.sign_message(message),
            SignerType::Mwa(m) => m.sign_message(message),
        }
    }

    fn get_name(&self) -> (r: String) {
        match self {
            SignerType::Software(s) => s.get_name(),
            SignerType::Hardware(h) => h.get_name(),
            SignerType::Mwa(m) => m.get_name(),
        }
    }

    fn is_available(&self) -> (r: bool) {
        match self {
            SignerType::Software(s) => s.is_available(),
            SignerType::Hardware(h) => h.is_available(),
            SignerType::Mwa(m) => m.is_available(),
        }
    }
}

} // verus!
