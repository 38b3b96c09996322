//! The core's stated guarantees, each proved once over the abstract model.
//!
//! The wire-codec guarantees stand beside the codec itself
//! (`codec::wire_round_trip`, `codec::decode_signature_rejects_bad_length`);
//! this module states what the request state machine and the signer
//! capability promise.

use vstd::prelude::*;

verus! {

use crate::codec::{msg_encoding_of, spec_decode_signature, DecodeErrorView};
use crate::crypto::{ed25519_pub_of, ed25519_sign_of, sig_verifies};
use crate::mwa::MwaWallet;
use crate::signer::{HardwareSigner, SoftwareSigner, TransactionSigner};
use crate::state::{
    spec_request_transaction,
    spec_signed_message,
    spec_signed_transaction,
    spec_submission_result,
    CoreView,
    MessagePhase,
    TransactionPhase,
};

/// Law: while the wallet identity is set and a message awaits its signature,
/// a current result whose signature decodes and verifies against that
/// identity over the dispatched bytes signs the message slot.
pub proof fn verified_signature_is_accepted(
    s: CoreView,
    text: Seq<char>,
    m: Seq<char>,
    k: Seq<u8>,
    sig: Seq<u8>,
    mb: Seq<u8>,
)
    requires
        s.wallet == Some(k),
        s.message == MessagePhase::Awaiting(m),
        spec_decode_signature(text) == Ok::<Seq<u8>, DecodeErrorView>(sig),
        msg_encoding_of(m) == Ok::<Seq<u8>, Seq<char>>(mb),
        sig_verifies(k, mb, sig),
    ensures
        spec_signed_message(s, s.msg_token, text) == (CoreView {
            message: MessagePhase::Signed(m, sig),
            ..s
        }),
{
}

/// Law: the same arrival whose signature does not verify never signs the
/// slot — it fails it explicitly instead.
pub proof fn forged_signature_is_rejected(
    s: CoreView,
    text: Seq<char>,
    m: Seq<char>,
    k: Seq<u8>,
    sig: Seq<u8>,
    mb: Seq<u8>,
)
    requires
        s.wallet == Some(k),
        s.message == MessagePhase::Awaiting(m),
        spec_decode_signature(text) == Ok::<Seq<u8>, DecodeErrorView>(sig),
        msg_encoding_of(m) == Ok::<Seq<u8>, Seq<char>>(mb),
        !sig_verifies(k, mb, sig),
    ensures
        spec_signed_message(s, s.msg_token, text) == (CoreView {
            message: MessagePhase::Failed("signature verification failed"@),
            ..s
        }),
        !(spec_signed_message(s, s.msg_token, text).message is Signed),
{
}

/// Law: a signed-message arrival while no message awaits one, or while no
/// wallet identity is set, fails the slot with "no message available" and
/// changes nothing else.
pub proof fn unsolicited_message_result(s: CoreView, token: nat, text: Seq<char>)
    requires
        !(s.message is Awaiting) || s.wallet is None,
    ensures
        spec_signed_message(s, token, text) == (CoreView {
            message: MessagePhase::Failed("no message available"@),
            ..s
        }),
{
}

/// Law: a transaction result correlated to anything but the slot's current
/// request is discarded outright.
pub proof fn stale_transaction_result_ignored(s: CoreView, token: nat, text: Seq<char>)
    requires
        token != s.tx_token,
    ensures
        spec_signed_transaction(s, token, text) == s,
{
}

/// Law: issue request A, then request B before A's result arrives — the late
/// result correlated to A leaves the state that B produced untouched.
pub proof fn superseded_request_result_ignored(s: CoreView, text: Seq<char>)
    ensures
        ({
            let after_a = spec_request_transaction(s);
            let token_a = after_a.tx_token;
            let after_b = spec_request_transaction(after_a);
            spec_signed_transaction(after_b, token_a, text) == after_b
        }),
{
}

/// Law: a successful submission of the currently signed transaction frees
/// the slot for reuse.
pub proof fn submission_success_frees_slot(s: CoreView, token: nat)
    requires
        s.transaction is Signed,
        token == s.tx_token,
    ensures
        spec_submission_result(s, token, Ok(())) == (CoreView {
            transaction: TransactionPhase::Idle,
            ..s
        }),
{
}

/// Law: a rejected submission is terminal for the request — the slot records
/// the endpoint's reason, and only a fresh request leaves that state.
pub proof fn submission_failure_is_terminal(s: CoreView, token: nat, reason: Seq<char>)
    requires
        s.transaction is Signed,
        token == s.tx_token,
    ensures
        spec_submission_result(s, token, Err(reason)) == (CoreView {
            transaction: TransactionPhase::Failed(reason),
            ..s
        }),
{
}

/// Law: the local software key completes every signing request
/// synchronously — with the deterministic signature over the message, which
/// verifies against the identity the signer reports — and its state never
/// changes.
pub proof fn software_signer_completes(s: &SoftwareSigner, message: Seq<u8>)
    ensures
        s.sign_result(message) == Ok::<Seq<u8>, Seq<char>>(ed25519_sign_of(s@, message)),
        s.signer_identity() == Some(ed25519_pub_of(s@)),
        s.after_sign(message) == s@,
{
}

/// Law: the host-delegated backend never completes a signature
/// synchronously — a request only records the out-of-band exchange to
/// perform, leaving the session itself untouched, and the result can arrive
/// only through the bridge.
pub proof fn host_delegated_signing_is_two_phase(w: &MwaWallet, message: Seq<u8>)
    ensures
        w.sign_result(message) is Err,
        w.after_sign(message) == (crate::mwa::MwaWalletView {
            pending: Some(crate::signer::HostRequestView::SignMessage(message)),
            ..w@
        }),
{
}

/// Law: a hardware device serializes access — while one exchange is in
/// flight, a further signing request is rejected as busy and changes
/// nothing.
pub proof fn hardware_device_exclusive(h: &HardwareSigner, message: Seq<u8>)
    requires
        h@.open,
        h@.in_flight is Some,
    ensures
        h.sign_result(message) == Err::<Seq<u8>, Seq<char>>("device busy"@),
        h.after_sign(message) == h@,
{
}

} // verus!
