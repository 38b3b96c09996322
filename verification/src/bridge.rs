//! Bridge ingress protocol: the notifications that the host boundary posts
//! into the core's single consumer.
//!
//! Producers may run on any thread the host chooses; each event is immutable
//! once constructed and is consumed exactly once, in arrival order. The queue
//! itself lives at the process edge; this module defines the events and how a
//! raw device `operation -> result` pair is classified into one.

use vstd::prelude::*;
use vstd::string::StringExecFns;

verus! {

/// A wire-level notification received from the host boundary.
#[derive(Debug, PartialEq, Eq)]
pub enum MsgFromKotlin {
    /// The account connected or changed; carries a base58 public key.
    Pubkey(String),
    /// Result of a dispatched transaction-signing request; carries base58
    /// bytes of a binary-serialized signed transaction.
    SignedTransaction(String),
    /// Result of a dispatched message-signing request; carries a base58
    /// 64-byte signature.
    SignedMessage(String),
    /// The host's listing of attached devices.
    UsbDeviceList(String),
    /// Outcome of a device permission request.
    UsbPermissionResult(String),
    /// A device session was opened.
    UsbDeviceOpened(String),
    /// A device session was closed.
    UsbDeviceClosed(String),
    /// Raw bytes were written to a device.
    UsbDataWritten(String),
    /// Raw bytes were read from a device.
    UsbDataRead(String),
    /// A device operation failed or was not understood.
    UsbError(String),
}

/// Mathematical image of a bridge event.
#[verifier::ext_equal]
pub enum EventView {
    Pubkey(Seq<char>),
    SignedTransaction(Seq<char>),
    SignedMessage(Seq<char>),
    UsbDeviceList(Seq<char>),
    UsbPermissionResult(Seq<char>),
    UsbDeviceOpened(Seq<char>),
    UsbDeviceClosed(Seq<char>),
    UsbDataWritten(Seq<char>),
    UsbDataRead(Seq<char>),
    UsbError(Seq<char>),
}

impl View for MsgFromKotlin {
    type V = EventView;

    open spec fn view(&self) -> EventView {
        match self {
            MsgFromKotlin::Pubkey(t) => EventView::Pubkey(t@),
            MsgFromKotlin::SignedTransaction(t) => EventView::SignedTransaction(t@),
            MsgFromKotlin::SignedMessage(t) => EventView::SignedMessage(t@),
            MsgFromKotlin::UsbDeviceList(t) => EventView::UsbDeviceList(t@),
            MsgFromKotlin::UsbPermissionResult(t) => EventView::UsbPermissionResult(t@),
            MsgFromKotlin::UsbDeviceOpened(t) => EventView::UsbDeviceOpened(t@),
            MsgFromKotlin::UsbDeviceClosed(t) => EventView::UsbDeviceClosed(t@),
            MsgFromKotlin::UsbDataWritten(t) => EventView::UsbDataWritten(t@),
            MsgFromKotlin::UsbDataRead(t) => EventView::UsbDataRead(t@),
            MsgFromKotlin::UsbError(t) => EventView::UsbError(t@),
        }
    }
}

/// How a raw host `operation -> result` pair is classified into a device
/// event: the four known operations map to their events, anything else is a
/// device error naming both parts.
pub open spec fn spec_classify_usb_operation(op: Seq<char>, res: Seq<char>) -> EventView {
    if op == "open"@ {
        EventView::UsbDeviceOpened(res)
    } else if op == "close"@ {
        EventView::UsbDeviceClosed(res)
    } else if op == "write"@ {
        EventView::UsbDataWritten(res)
    } else if op == "read"@ {
        EventView::UsbDataRead(res)
    } else {
        EventView::UsbError("Unknown operation: "@ + op + " -> "@ + res)
    }
}

/// Classifies a device operation result reported by the host into the bridge
/// event it stands for.
pub fn classify_usb_operation(operation: String, result: String) -> (ev: MsgFromKotlin)
    ensures
        ev@ == spec_classify_usb_operation(operation@, result@),
{
    if operation == String::from_str("open") {
        MsgFromKotlin::UsbDeviceOpened(result)
    } else if operation == String::from_str("close") {
        MsgFromKotlin::UsbDeviceClosed(result)
    } else if operation == String::from_str("write") {
        MsgFromKotlin::UsbDataWritten(result)
    } else if operation == String::from_str("read") {
        MsgFromKotlin::UsbDataRead(result)
    } else {
        let mut text = String::from_str("Unknown operation: ");
        text.append(operation.as_str());
        text.append(" -> ");
        text.append(result.as_str());
        MsgFromKotlin::UsbError(text)
    }
}

} // verus!
