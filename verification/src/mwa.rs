//! Host-delegated signing: a session with the wallet application living in
//! the host process.
//!
//! This backend can never complete a signature synchronously — the entity
//! holding the key is outside this process and talks back only through the
//! one-way bridge. Signing is therefore two-phase: a request records the host
//! action to perform and returns a status, and the signature arrives later as
//! a bridge event.

use vstd::prelude::*;
use vstd::slice::slice_to_vec;
use vstd::string::StringExecFns;

verus! {

use crate::codec::b58_encode_of;
use crate::crypto::{sig_verifies, PublicKey};
use crate::signer::{HostRequest, HostRequestView, TransactionSigner};

/// Lifecycle of the host-delegated session.
#[derive(Debug, PartialEq, Eq)]
pub enum MwaState {
    /// No session; no identity known.
    Disconnected,
    /// A session is established for this account.
    Connected(PublicKey),
    /// A signing dispatch named by `request_id` is outstanding on the
    /// session.
    WaitingForSignature { request_id: String },
}

/// Mathematical image of the session lifecycle.
#[verifier::ext_equal]
pub enum MwaStateView {
    Disconnected,
    Connected(Seq<u8>),
    Waiting(Seq<char>),
}

impl View for MwaState {
    type V = MwaStateView;

    open spec fn view(&self) -> MwaStateView {
        match self {
            MwaState::Disconnected => MwaStateView::Disconnected,
            MwaState::Connected(k) => MwaStateView::Connected(k@),
            MwaState::WaitingForSignature { request_id } => MwaStateView::Waiting(request_id@),
        }
    }
}

/// The session record for the host wallet: the lifecycle state, the last
/// identity the host reported, and the host action awaiting dispatch.
#[derive(Debug, PartialEq, Eq)]
pub struct MwaWallet {
    state: MwaState,
    current_pubkey: Option<PublicKey>,
    pending: Option<HostRequest>,
}

/// Mathematical image of the session record.
#[verifier::ext_equal]
pub struct MwaWalletView {
    pub state: MwaStateView,
    pub current_pubkey: Option<Seq<u8>>,
    pub pending: Option<HostRequestView>,
}

impl View for MwaWallet {
    type V = MwaWalletView;

    closed spec fn view(&self) -> MwaWalletView {
        MwaWalletView {
            state: self.state@,
            current_pubkey: match self.current_pubkey {
                Some(k) => Some(k@),
                None => None,
            },
            pending: match self.pending {
                Some(h) => Some(h@),
                None => None,
            },
        }
    }
}

impl MwaWallet {
    /// A fresh, disconnected session.
    pub fn new() -> (r: MwaWallet)
        ensures
            r@ == (MwaWalletView {
                state: MwaStateView::Disconnected,
                current_pubkey: None,
                pending: None,
            }),
    {
        MwaWallet { state: MwaState::Disconnected, current_pubkey: None, pending: None }
    }

    /// Asks the host to establish a session; the identity arrives later as a
    /// bridge event.
    pub fn connect(&self) -> (r: HostRequest)
        ensures
            r@ == HostRequestView::EstablishSession,
    {
        HostRequest::EstablishSession
    }

    /// Folds the identity the host reported: the session is connected for
    /// that account.
    pub fn set_connected(&mut self, key: PublicKey)
        ensures
            final(self)@ == (MwaWalletView {
                state: MwaStateView::Connected(key@),
                current_pubkey: Some(key@),
                ..old(self)@
            }),
    {
        let stored = key.clone();
        self.state = MwaState::Connected(key);
        self.current_pubkey = Some(stored);
    }

    /// Acknowledges the host's answer to a dispatched transaction signing:
    /// the pending dispatch is consumed; the session itself is unchanged.
    pub fn handle_signed_transaction(&mut self, _signed_tx: String)
        ensures
            final(self)@ == (MwaWalletView { pending: None, ..old(self)@ }),
    {
        self.pending = None;
    }

    /// Acknowledges the host's answer to a dispatched message signing: the
    /// pending dispatch is consumed; the session itself is unchanged. The
    /// result is folded by the consumer's state machine, not here.
    pub fn handle_signed_message(&mut self, _signature: String)
        ensures
            final(self)@ == (MwaWalletView { pending: None, ..old(self)@ }),
    {
        self.pending = None;
    }

    /// The current session lifecycle state.
    pub fn get_state(&self) -> (r: &MwaState)
        ensures
            r@ == self@.state,
    {
        &self.state
    }

    /// Whether a session is established.
    pub fn is_connected(&self) -> (r: bool)
        ensures
            r == (self@.state is Connected),
    {
        match &self.state {
            MwaState::Connected(_) => true,
            _ => false,
        }
    }

    /// Drops the session: identity and any pending dispatch are forgotten.
    pub fn disconnect(&mut self)
        ensures
            final(self)@ == (MwaWalletView {
                state: MwaStateView::Disconnected,
                current_pubkey: None,
                pending: None,
            }),
    {
        self.state = MwaState::Disconnected;
        self.current_pubkey = None;
        self.pending = None;
    }

    /// Hands the recorded host action out for the host loop to perform.
    pub fn take_host_request(&mut self) -> (r: Option<HostRequest>)
        ensures
            final(self)@ == (MwaWalletView { pending: None, ..old(self)@ }),
            match r {
                Some(h) => old(self)@.pending == Some(h@),
                None => old(self)@.pending is None,
            },
    {
        let taken = self.pending.take();
        taken
    }
}

impl TransactionSigner for MwaWallet {
    open spec fn signer_identity(&self) -> Option<Seq<u8>> {
        match self@.state {
            MwaStateView::Connected(k) => Some(k),
            _ => None,
        }
    }

    open spec fn signer_available(&self) -> bool {
        self@.state is Connected
    }

    open spec fn signer_name(&self) -> Seq<char> {
        "Mobile Wallet Adapter"@
    }

    open spec fn sign_result(&self, message: Seq<u8>) -> Result<Seq<u8>, Seq<char>> {
        Err("signature arrives via the bridge"@)
    }

    open spec fn after_sign(&self, message: Seq<u8>) -> MwaWalletView {
        MwaWalletView { pending: Some(HostRequestView::SignMessage(message)), ..self@ }
    }

    fn get_public_key(&self) -> (r: Result<String, String>)
        ensures
            r matches Err(e) ==> e@ == "MWA wallet not connected"@,
    {
        match &self.state {
            MwaState::Connected(k) => Ok(k.to_base58()),
            _ => Err(String::from_str("MWA wallet not connected")),
        }
    }

    /// Initiates message signing with the host wallet and reports that the
    /// result can only arrive through the bridge; the session itself is
    /// unchanged.
    fn sign_message(&mut self, message: &[u8]) -> (r: Result<Vec<u8>, String>) {
        self.pending = Some(HostRequest::SignMessage(slice_to_vec(message)));
        Err(String::from_str("signature arrives via the bridge"))
    }

    fn get_name(&self) -> (r: String) {
        String::from_str("Mobile Wallet Adapter")
    }

    fn is_available(&self) -> (r: bool) {
        self.is_connected()
    }
}

/// The signer-capability face of a host-delegated session.
#[derive(Debug, PartialEq, Eq)]
pub struct MwaSigner {
    wallet: MwaWallet,
}

impl View for MwaSigner {
    type V = MwaWalletView;

    closed spec fn view(&self) -> MwaWalletView {
        self.wallet@
    }
}

impl MwaSigner {
    /// Wraps a host-delegated session.
    pub fn new(wallet: MwaWallet) -> (r: MwaSigner)
        ensures
            r@ == wallet@,
    {
        MwaSigner { wallet }
    }

    /// Hands the recorded host action out for the host loop to perform.
    pub fn take_host_request(&mut self) -> (r: Option<HostRequest>)
        ensures
            final(self)@ == (MwaWalletView { pending: None, ..old(self)@ }),
            match r {
                Some(h) => old(self)@.pending == Some(h@),
                None => old(self)@.pending is None,
            },
    {
        self.wallet.take_host_request()
    }
}

impl TransactionSigner for MwaSigner {
    open spec fn signer_identity(&self) -> Option<Seq<u8>> {
        match self@.state {
            MwaStateView::Connected(k) => Some(k),
            _ => None,
        }
    }

    open spec fn signer_available(&self) -> bool {
        self@.state is Connected
    }

    open spec fn signer_name(&self) -> Seq<char> {
        "Mobile Wallet Adapter"@
    }

    open spec fn sign_result(&self, message: Seq<u8>) -> Result<Seq<u8>, Seq<char>> {
        Err("signature arrives via the bridge"@)
    }

    open spec fn after_sign(&self, message: Seq<u8>) -> MwaWalletView {
        MwaWalletView { pending: Some(HostRequestView::SignMessage(message)), ..self@ }
    }

    fn get_public_key(&self) -> (r: Result<String, String>)
        ensures
            r matches Err(e) ==> e@ == "MWA wallet not connected"@,
    {
        self.wallet.get_public_key()
    }

    fn sign_message(&mut self, message: &[u8]) -> (r: Result<Vec<u8>, String>) {
        self.wallet.sign_message(message)
    }

    fn get_name(&self) -> (r: String) {
        self.wallet.get_name()
    }

    fn is_available(&self) -> (r: bool) {
        self.wallet.is_available()
    }
}

} // verus!
