//! Model of class control requests and the response this class owes each one.
//!
//! The host stack hands the handler the fields it read from a SETUP packet;
//! the handler answers a request addressed to its own interface and leaves
//! every other request untouched, so that another class, or the stack's
//! default behaviour, can deal with it.

use vstd::prelude::*;

verus! {

/// Class request code for Bulk-Only Mass Storage Reset.
pub const BULK_ONLY_MASS_STORAGE_RESET: u8 = 0xff;

/// Class request code for Get Max LUN.
pub const GET_MAX_LUN: u8 = 0xfe;

/// Recipient of a control request, as the low five bits of bmRequestType name it.
#[derive(Clone, Copy, Debug, PartialEq, Eq, Structural)]
pub enum Recipient {
    /// The request is addressed to the device as a whole.
    Device,
    /// The request is addressed to one interface; `index` carries its number.
    Interface,
    /// The request is addressed to one endpoint; `index` carries its address.
    Endpoint,
    /// The request is addressed to none of the above.
    Other,
    /// A reserved recipient value.
    Reserved,
}

/// The fields of a control request that this handler reads: who the request is
/// addressed to, the target index, and the 8-bit request code.
#[derive(Clone, Copy, Debug, PartialEq, Eq, Structural)]
pub struct ControlRequest {
    /// Recipient of the request.
    pub recipient: Recipient,
    /// Target index; for an interface recipient, the interface number.
    pub index: u16,
    /// Request code.
    pub request: u8,
}

/// What the handler does with a control-in transfer: leave it for another
/// handler, or accept it with the given payload.
#[derive(Debug, PartialEq, Eq)]
pub enum ControlInResponse {
    /// The transfer is not consumed; the stack's default behaviour applies.
    Ignore,
    /// The transfer is accepted, answering the host with this payload.
    Accept(Vec<u8>),
}

impl View for ControlInResponse {
    type V = Option<Seq<u8>>;

    open spec fn view(&self) -> Option<Seq<u8>> {
        match self {
            ControlInResponse::Ignore => None,
            ControlInResponse::Accept(payload) => Some(payload@),
        }
    }
}

/// The payload, if any, owed to a control-in request by the handler assigned
/// interface number `if_num`: a zero-length accept for a bulk-only reset, one
/// byte 0 (a single logical unit, LUN 0) for Get Max LUN, and no answer at all
/// for every request that is misdirected or carries another code.
pub open spec fn control_in_response(if_num: u8, req: ControlRequest) -> Option<Seq<u8>> {
    if req.recipient != Recipient::Interface || req.index != if_num as u16 {
        None
    } else if req.request == BULK_ONLY_MASS_STORAGE_RESET {
        Some(Seq::<u8>::empty())
    } else if req.request == GET_MAX_LUN {
        Some(seq![0u8])
    } else {
        None
    }
}

/// A control-in request whose recipient is not this class's interface draws no
/// response: the handler accepts nothing and the transfer is left untouched.
pub proof fn lemma_foreign_recipient_ignored(if_num: u8, req: ControlRequest)
    requires
        req.recipient != Recipient::Interface,
    ensures
        control_in_response(if_num, req) is None,
{
}

/// A control-in request for some other interface draws no response, whatever
/// its request code.
pub proof fn lemma_other_interface_ignored(if_num: u8, req: ControlRequest)
    requires
        req.recipient == Recipient::Interface,
        req.index != if_num as u16,
    ensures
        control_in_response(if_num, req) is None,
{
}

/// A Bulk-Only Mass Storage Reset addressed to this interface is accepted with
/// an empty payload: the one response the handler gives it.
pub proof fn lemma_reset_accepted_empty(if_num: u8, req: ControlRequest)
    requires
        req.recipient == Recipient::Interface,
        req.index == if_num as u16,
        req.request == BULK_ONLY_MASS_STORAGE_RESET,
    ensures
        control_in_response(if_num, req) == Some(Seq::<u8>::empty()),
{
}

/// A Get Max LUN request addressed to this interface is accepted with the
/// single byte 0: the handler reports exactly one logical unit, LUN 0.
pub proof fn lemma_get_max_lun_reports_lun_zero(if_num: u8, req: ControlRequest)
    requires
        req.recipient == Recipient::Interface,
        req.index == if_num as u16,
        req.request == GET_MAX_LUN,
    ensures
        control_in_response(if_num, req) == Some(seq![0u8]),
{
}

/// Any other request code on this interface draws no response: the handler
/// neither accepts nor stalls, and the stack's default behaviour applies.
pub proof fn lemma_unknown_request_ignored(if_num: u8, req: ControlRequest)
    requires
        req.recipient == Recipient::Interface,
        req.index == if_num as u16,
        req.request != BULK_ONLY_MASS_STORAGE_RESET,
        req.request != GET_MAX_LUN,
    ensures
        control_in_response(if_num, req) is None,
{
}

} // verus!
