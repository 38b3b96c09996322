//! Request state machine: the per-slot lifecycle of the wallet identity, the
//! pending transaction and the pending message, driven by bridge events and
//! UI-initiated actions.
//!
//! Exactly one consumer owns all state mutation; every transition is a
//! function of the current state and one event. Each signing request carries a
//! correlation token, and a result whose token no longer matches the slot's
//! current token is discarded: issuing a new request supersedes the old one.

use vstd::prelude::*;
use vstd::string::StringExecFns;

verus! {

use crate::bridge::{EventView, MsgFromKotlin};
use crate::codec;
use crate::codec::{
    msg_encoding_of,
    spec_decode_signature,
    spec_decode_transaction,
    spec_reason,
    tx_encoding_of,
    DecodeErrorView,
    WireTransaction,
};
use crate::crypto;
use crate::crypto::{sig_verifies, spec_parse_pubkey, PublicKey};

/// The settle pause before a freshly signed transaction is broadcast, in
/// milliseconds; configurable because its necessity is host-side lore, not a
/// network requirement.
pub const DEFAULT_SETTLE_DELAY_MS: u64 = 3000;

/// The fixed amount, in lamports, of the self-transfer the UI prepares once
/// an account connects.
pub const SELF_TRANSFER_LAMPORTS: u64 = 1000;

// ---------------------------------------------------------------------------
// Slot states
// ---------------------------------------------------------------------------

/// The currently connected account's public identity, or none.
#[derive(Debug, PartialEq, Eq)]
pub enum WalletState {
    Disconnected,
    Pubkey(PublicKey),
}

impl View for WalletState {
    type V = Option<Seq<u8>>;

    open spec fn view(&self) -> Option<Seq<u8>> {
        match self {
            WalletState::Disconnected => None,
            WalletState::Pubkey(k) => Some(k@),
        }
    }
}

/// The pending-transaction slot.
#[derive(Debug)]
pub enum TransactionState {
    Idle,
    WaitingForSignature,
    Signed(WireTransaction),
    Error(String),
}

/// Mathematical image of the transaction slot.
#[verifier::ext_equal]
pub enum TransactionPhase {
    Idle,
    Awaiting,
    Signed(Seq<u8>),
    Failed(Seq<char>),
}

impl View for TransactionState {
    type V = TransactionPhase;

    open spec fn view(&self) -> TransactionPhase {
        match self {
            TransactionState::Idle => TransactionPhase::Idle,
            TransactionState::WaitingForSignature => TransactionPhase::Awaiting,
            TransactionState::Signed(tx) => TransactionPhase::Signed(tx@),
            TransactionState::Error(reason) => TransactionPhase::Failed(reason@),
        }
    }
}

/// The pending-message slot.
#[derive(Debug)]
pub enum MessageState {
    Idle,
    WaitingForSignature(String),
    Signed(String, Vec<u8>),
    Error(String),
}

/// Mathematical image of the message slot.
#[verifier::ext_equal]
pub enum MessagePhase {
    Idle,
    Awaiting(Seq<char>),
    Signed(Seq<char>, Seq<u8>),
    Failed(Seq<char>),
}

impl View for MessageState {
    type V = MessagePhase;

    open spec fn view(&self) -> MessagePhase {
        match self {
            MessageState::Idle => MessagePhase::Idle,
            MessageState::WaitingForSignature(m) => MessagePhase::Awaiting(m@),
            MessageState::Signed(m, sig) => MessagePhase::Signed(m@, sig@),
            MessageState::Error(reason) => MessagePhase::Failed(reason@),
        }
    }
}

/// A pending operation handed to a signer: the payload to sign and the
/// correlation token tying the eventual result to this request.
#[derive(Debug, PartialEq, Eq)]
pub struct SigningRequest<T> {
    pub payload: T,
    pub correlation: u64,
}

/// The transfer the UI prepares once an account connects: who pays, whom it
/// pays, and how much. Building the instruction against the current network
/// state is the host shell's work; the decisions are these.
#[derive(Debug, PartialEq, Eq)]
pub struct TransferPlan {
    pub from: PublicKey,
    pub to: PublicKey,
    pub lamports: u64,
    pub payer: PublicKey,
}

// ---------------------------------------------------------------------------
// The abstract core and its transitions
// ---------------------------------------------------------------------------

/// Mathematical image of the whole core.
#[verifier::ext_equal]
pub struct CoreView {
    pub wallet: Option<Seq<u8>>,
    pub transaction: TransactionPhase,
    pub message: MessagePhase,
    pub tx_token: nat,
    pub msg_token: nat,
    pub settle_delay_ms: nat,
}

/// The state a fresh core starts in: nothing connected, both slots idle.
pub open spec fn spec_initial(settle_delay_ms: nat) -> CoreView {
    CoreView {
        wallet: None,
        transaction: TransactionPhase::Idle,
        message: MessagePhase::Idle,
        tx_token: 0,
        msg_token: 0,
        settle_delay_ms: settle_delay_ms,
    }
}

/// An `Identity` event: a decodable 32-byte key connects the wallet; anything
/// else is ignored.
pub open spec fn spec_connect(s: CoreView, text: Seq<char>) -> CoreView {
    match spec_parse_pubkey(text) {
        Some(k) => CoreView { wallet: Some(k), ..s },
        None => s,
    }
}

/// An explicit disconnect clears the identity and nothing else.
pub open spec fn spec_disconnect(s: CoreView) -> CoreView {
    CoreView { wallet: None, ..s }
}

/// Issuing a transaction-signing request: the slot awaits a signature under a
/// fresh token; any prior request is superseded.
pub open spec fn spec_request_transaction(s: CoreView) -> CoreView {
    CoreView { transaction: TransactionPhase::Awaiting, tx_token: s.tx_token + 1, ..s }
}

/// A failure to prepare a transaction for signing: the slot records the
/// reason; nothing is dispatched.
pub open spec fn spec_fail_transaction(s: CoreView, reason: Seq<char>) -> CoreView {
    CoreView { transaction: TransactionPhase::Failed(reason), ..s }
}

/// Issuing a message-signing request: when the text has a byte encoding the
/// slot awaits a signature over it under a fresh token; an encoding failure
/// changes nothing.
pub open spec fn spec_request_message(s: CoreView, text: Seq<char>) -> CoreView {
    match msg_encoding_of(text) {
        Ok(_) => CoreView {
            message: MessagePhase::Awaiting(text),
            msg_token: s.msg_token + 1,
            ..s
        },
        Err(_) => s,
    }
}

/// A `SignedTransaction` result: discarded when its token was superseded;
/// otherwise the payload decodes into the `Signed` slot or the slot fails
/// with the decoder's reason.
pub open spec fn spec_signed_transaction(s: CoreView, token: nat, text: Seq<char>) -> CoreView {
    if token != s.tx_token {
        s
    } else {
        match spec_decode_transaction(text) {
            Ok(bytes) => CoreView { transaction: TransactionPhase::Signed(bytes), ..s },
            Err(e) => CoreView { transaction: TransactionPhase::Failed(spec_reason(e)), ..s },
        }
    }
}

/// A `SignedMessage` result. Meaningful only while a message awaits a
/// signature and a wallet identity is set — otherwise the slot fails with
/// "no message available". A meaningful but superseded result is discarded.
/// A meaningful, current result has its signature decoded and verified
/// against the wallet identity over the exact bytes that were dispatched:
/// success signs the slot, every failure is an explicit error.
pub open spec fn spec_signed_message(s: CoreView, token: nat, text: Seq<char>) -> CoreView {
    match (s.message, s.wallet) {
        (MessagePhase::Awaiting(m), Some(k)) => if token != s.msg_token {
            s
        } else {
            match spec_decode_signature(text) {
                Err(e) => CoreView { message: MessagePhase::Failed(spec_reason(e)), ..s },
                Ok(sig) => match msg_encoding_of(m) {
                    Err(e) => CoreView { message: MessagePhase::Failed(e), ..s },
                    Ok(mb) => if sig_verifies(k, mb, sig) {
                        CoreView { message: MessagePhase::Signed(m, sig), ..s }
                    } else {
                        CoreView {
                            message: MessagePhase::Failed("signature verification failed"@),
                            ..s
                        }
                    },
                },
            }
        },
        _ => CoreView { message: MessagePhase::Failed("no message available"@), ..s },
    }
}

/// A submission outcome for the transaction under `token`: stale tokens and
/// slots no longer `Signed` are ignored; success frees the slot, failure
/// records the endpoint's reason. There is no automatic retry.
pub open spec fn spec_submission_result(
    s: CoreView,
    token: nat,
    outcome: Result<(), Seq<char>>,
) -> CoreView {
    if token == s.tx_token && s.transaction is Signed {
        match outcome {
            Ok(_) => CoreView { transaction: TransactionPhase::Idle, ..s },
            Err(reason) => CoreView { transaction: TransactionPhase::Failed(reason), ..s },
        }
    } else {
        s
    }
}

/// Mathematical image of a submission outcome.
pub open spec fn outcome_view(r: Result<(), String>) -> Result<(), Seq<char>> {
    match r {
        Ok(_) => Ok(()),
        Err(e) => Err(e@),
    }
}

/// One consumer step: how any bridge event folds into the core. Device
/// lifecycle events carry no slot transition.
pub open spec fn spec_handle_event(s: CoreView, ev: EventView, token: nat) -> CoreView {
    match ev {
        EventView::Pubkey(t) => spec_connect(s, t),
        EventView::SignedTransaction(t) => spec_signed_transaction(s, token, t),
        EventView::SignedMessage(t) => spec_signed_message(s, token, t),
        _ => s,
    }
}

/// The submission that one consumer step spawns: exactly when a current
/// `SignedTransaction` result decodes, its bytes are broadcast.
pub open spec fn spec_submission_job(s: CoreView, ev: EventView, token: nat) -> Option<Seq<u8>> {
    match ev {
        EventView::SignedTransaction(t) => if token == s.tx_token {
            match spec_decode_transaction(t) {
                Ok(bytes) => Some(bytes),
                Err(_) => None,
            }
        } else {
            None
        },
        _ => None,
    }
}

// ---------------------------------------------------------------------------
// The executable core
// ---------------------------------------------------------------------------

/// The signing core's state: owned by the single consumer, read-mostly for
/// everyone else.
#[derive(Debug)]
pub struct WalletCore {
    wallet: WalletState,
    transaction: TransactionState,
    message: MessageState,
    tx_token: u64,
    msg_token: u64,
    settle_delay_ms: u64,
}

impl View for WalletCore {
    type V = CoreView;

    closed spec fn view(&self) -> CoreView {
        CoreView {
            wallet: self.wallet@,
            transaction: self.transaction@,
            message: self.message@,
            tx_token: self.tx_token as nat,
            msg_token: self.msg_token as nat,
            settle_delay_ms: self.settle_delay_ms as nat,
        }
    }
}

impl WalletCore {
    /// A fresh core with the given settle pause before broadcasts.
    pub fn new(settle_delay_ms: u64) -> (r: WalletCore)
        ensures
            r@ == spec_initial(settle_delay_ms as nat),
    {
        WalletCore {
            wallet: WalletState::Disconnected,
            transaction: TransactionState::Idle,
            message: MessageState::Idle,
            tx_token: 0,
            msg_token: 0,
            settle_delay_ms,
        }
    }

    /// Folds an `Identity` event: a decodable key connects the wallet,
    /// anything else is ignored.
    pub fn handle_identity(&mut self, text: &str)
        ensures
            final(self)@ == spec_connect(old(self)@, text@),
    {
        match PublicKey::from_base58(text) {
            Some(k) => {
                self.wallet = WalletState::Pubkey(k);
            },
            None => {},
        }
    }

    /// Clears the wallet identity.
    pub fn disconnect_wallet(&mut self)
        ensures
            final(self)@ == spec_disconnect(old(self)@),
    {
        self.wallet = WalletState::Disconnected;
    }

    /// Issues a transaction-signing request over the given payload bytes,
    /// superseding any prior transaction request; returns the request to hand
    /// to a signer.
    pub fn request_sign_transaction(&mut self, payload: Vec<u8>) -> (req: SigningRequest<Vec<u8>>)
        requires
            old(self)@.tx_token < u64::MAX as nat,
        ensures
            final(self)@ == spec_request_transaction(old(self)@),
            req.payload@ == payload@,
            req.correlation as nat == old(self)@.tx_token + 1,
    {
        self.tx_token = self.tx_token + 1;
        self.transaction = TransactionState::WaitingForSignature;
        SigningRequest { payload, correlation: self.tx_token }
    }

    /// The transfer to prepare for the connected account: a self-transfer of
    /// the fixed amount, paid by the account itself; none without an
    /// identity.
    pub fn plan_transfer(&self) -> (r: Option<TransferPlan>)
        ensures
            match r {
                Some(p) => self@.wallet == Some(p.from@) && p.to@ == p.from@ && p.payer@
                    == p.from@ && p.lamports == SELF_TRANSFER_LAMPORTS,
                None => self@.wallet is None,
            },
    {
        match &self.wallet {
            WalletState::Pubkey(k) => Some(
                TransferPlan {
                    from: k.clone(),
                    to: k.clone(),
                    lamports: SELF_TRANSFER_LAMPORTS,
                    payer: k.clone(),
                },
            ),
            WalletState::Disconnected => None,
        }
    }

    /// Folds a failure to prepare a transaction for signing into the slot:
    /// the slot records the reason, and nothing is dispatched.
    pub fn fail_transaction(&mut self, reason: String)
        ensures
            final(self)@ == spec_fail_transaction(old(self)@, reason@),
    {
        self.transaction = TransactionState::Error(reason);
    }

    /// The whole dispatch step for an in-memory transaction: serialize it,
    /// and either issue the signing request over exactly those bytes —
    /// leaving the slot awaiting a signature — or fold the serializer's
    /// reason into the slot and dispatch nothing.
    pub fn dispatch_sign_transaction(
        &mut self,
        tx: &solana_transaction::versioned::VersionedTransaction,
    ) -> (r: Option<SigningRequest<Vec<u8>>>)
        requires
            old(self)@.tx_token < u64::MAX as nat,
        ensures
            match r {
                Some(req) => tx_encoding_of(*tx) == Ok::<Seq<u8>, Seq<char>>(req.payload@)
                    && final(self)@ == spec_request_transaction(old(self)@)
                    && req.correlation as nat == old(self)@.tx_token + 1,
                None => (match tx_encoding_of(*tx) {
                    Ok(_) => false,
                    Err(e) => final(self)@ == spec_fail_transaction(old(self)@, e),
                }),
            },
    {
        match codec::encode_transaction(tx) {
            Ok(bytes) => Some(self.request_sign_transaction(bytes)),
            Err(e) => {
                self.fail_transaction(e);
                None
            },
        }
    }

    /// Issues a message-signing request, superseding any prior message
    /// request; the returned request carries the exact bytes a signer must
    /// sign. When the text has no byte encoding, nothing changes and the
    /// serializer's reason is returned.
    pub fn request_sign_message(&mut self, text: String) -> (r: Result<
        SigningRequest<Vec<u8>>,
        String,
    >)
        requires
            old(self)@.msg_token < u64::MAX as nat,
        ensures
            final(self)@ == spec_request_message(old(self)@, text@),
            match r {
                Ok(req) => msg_encoding_of(text@) == Ok::<Seq<u8>, Seq<char>>(req.payload@)
                    && req.correlation as nat == old(self)@.msg_token + 1,
                Err(e) => msg_encoding_of(text@) == Err::<Seq<u8>, Seq<char>>(e@),
            },
    {
        match codec::message_signing_bytes(text.as_str()) {
            Ok(bytes) => {
                self.msg_token = self.msg_token + 1;
                self.message = MessageState::WaitingForSignature(text);
                Ok(SigningRequest { payload: bytes, correlation: self.msg_token })
            },
            Err(e) => Err(e),
        }
    }

    /// Folds a `SignedTransaction` result correlated to `token`. A stale
    /// token is discarded. A current result decodes into the `Signed` slot
    /// and yields the submission to broadcast, or fails the slot with the
    /// decoder's reason.
    pub fn handle_signed_transaction(&mut self, token: u64, text: &str) -> (job: Option<
        SigningRequest<Vec<u8>>,
    >)
        ensures
            final(self)@ == spec_signed_transaction(old(self)@, token as nat, text@),
            match job {
                Some(j) => token as nat == old(self)@.tx_token && spec_decode_transaction(text@)
                    == Ok::<Seq<u8>, DecodeErrorView>(j.payload@) && j.correlation == token,
                None => token as nat != old(self)@.tx_token || spec_decode_transaction(text@)
                    is Err,
            },
    {
        if token != self.tx_token {
            return None;
        }
        match codec::decode_transaction(text) {
            Ok(tx) => {
                let bytes = tx.bytes().clone();
                assert(bytes@ =~= tx@);
                self.transaction = TransactionState::Signed(tx);
                Some(SigningRequest { payload: bytes, correlation: token })
            },
            Err(e) => {
                self.transaction = TransactionState::Error(e.reason());
                None
            },
        }
    }

    /// Folds a `SignedMessage` result correlated to `token`, per
    /// `spec_signed_message`: without a waiting message and a wallet identity
    /// the slot fails with "no message available"; a stale token is
    /// discarded; otherwise the signature is decoded and verified against the
    /// wallet identity over the exact dispatched bytes, and the slot is
    /// signed or explicitly failed.
    pub fn handle_signed_message(&mut self, token: u64, text: &str)
        ensures
            final(self)@ == spec_signed_message(old(self)@, token as nat, text@),
    {
        let meaningful = match (&self.message, &self.wallet) {
            (MessageState::WaitingForSignature(_), WalletState::Pubkey(_)) => true,
            _ => false,
        };
        if !meaningful {
            self.message = MessageState::Error(String::from_str("no message available"));
            return ;
        }
        if token != self.msg_token {
            return ;
        }
        let m: String = match &self.message {
            MessageState::WaitingForSignature(t) => t.clone(),
            _ => {
                return ;
            },
        };
        let sig: Vec<u8> = match codec::decode_signature(text) {
            Err(e) => {
                self.message = MessageState::Error(e.reason());
                return ;
            },
            Ok(s) => s,
        };
        let bytes: Vec<u8> = match codec::message_signing_bytes(m.as_str()) {
            Err(e) => {
                self.message = MessageState::Error(e);
                return ;
            },
            Ok(b) => b,
        };
        let verified = match &self.wallet {
            WalletState::Pubkey(k) => crypto::verify_signature(
                k.as_bytes().as_slice(),
                bytes.as_slice(),
                sig.as_slice(),
            ),
            _ => {
                return ;
            },
        };
        if verified {
            self.message = MessageState::Signed(m, sig);
        } else {
            self.message = MessageState::Error(
                String::from_str("signature verification failed"),
            );
        }
    }

    /// Folds the submission outcome for the transaction under `token`: stale
    /// tokens and slots no longer `Signed` are ignored; success frees the
    /// slot, failure records the endpoint's reason.
    pub fn apply_submission_result(&mut self, token: u64, outcome: Result<(), String>)
        ensures
            final(self)@ == spec_submission_result(old(self)@, token as nat, outcome_view(
                outcome,
            )),
    {
        if token != self.tx_token {
            return ;
        }
        let signed = match &self.transaction {
            TransactionState::Signed(_) => true,
            _ => false,
        };
        if !signed {
            return ;
        }
        match outcome {
            Ok(_) => {
                self.transaction = TransactionState::Idle;
            },
            Err(reason) => {
                self.transaction = TransactionState::Error(reason);
            },
        }
    }

    /// One consumer step: folds any bridge event into the core and returns
    /// the submission it spawns, if any. `token` attributes result events to
    /// the request they answer; events that carry no result ignore it.
    pub fn handle_event(&mut self, event: MsgFromKotlin, token: u64) -> (job: Option<
        SigningRequest<Vec<u8>>,
    >)
        ensures
            final(self)@ == spec_handle_event(old(self)@, event@, token as nat),
            match job {
                Some(j) => spec_submission_job(old(self)@, event@, token as nat) == Some(
                    j.payload@,
                ) && j.correlation == token,
                None => spec_submission_job(old(self)@, event@, token as nat) is None,
            },
    {
        match event {
            MsgFromKotlin::Pubkey(t) => {
                self.handle_identity(t.as_str());
                None
            },
            MsgFromKotlin::SignedTransaction(t) => self.handle_signed_transaction(
                token,
                t.as_str(),
            ),
            MsgFromKotlin::SignedMessage(t) => {
                self.handle_signed_message(token, t.as_str());
                None
            },
            _ => None,
        }
    }

    // -----------------------------------------------------------------------
    // Read-mostly accessors for the UI
    // -----------------------------------------------------------------------

    /// The connected identity slot.
    pub fn wallet_state(&self) -> (r: &WalletState)
        ensures
            r@ == self@.wallet,
    {
        &self.wallet
    }

    /// The pending-transaction slot.
    pub fn transaction_state(&self) -> (r: &TransactionState)
        ensures
            r@ == self@.transaction,
    {
        &self.transaction
    }

    /// The pending-message slot.
    pub fn message_state(&self) -> (r: &MessageState)
        ensures
            r@ == self@.message,
    {
        &self.message
    }

    /// The correlation token of the current transaction request.
    pub fn transaction_token(&self) -> (r: u64)
        ensures
            r as nat == self@.tx_token,
    {
        self.tx_token
    }

    /// The correlation token of the current message request.
    pub fn message_token(&self) -> (r: u64)
        ensures
            r as nat == self@.msg_token,
    {
        self.msg_token
    }

    /// The configured settle pause before broadcasts, in milliseconds.
    pub fn settle_delay_ms(&self) -> (r: u64)
        ensures
            r as nat == self@.settle_delay_ms,
    {
        self.settle_delay_ms
    }
}

} // verus!
