//! A USB Mass Storage (Bulk-Only Transport) class skeleton.
//!
//! The handler declares one mass-storage interface with a bulk OUT / bulk IN
//! endpoint pair, answers the two class control requests (bulk-only reset and
//! Get Max LUN) on its own interface, and ignores every other request. The
//! data-transfer and bus-event hooks are deliberate no-ops, reserved for a
//! future Bulk-Only Transport state machine; each is proved to leave the
//! handler unchanged.
//!
//! The host USB stack owns enumeration, endpoint buffering and control
//! dispatch. It hands this crate plain values (interface number, endpoint
//! addresses, the fields of a SETUP packet) and carries out the response the
//! handler decides on.

use vstd::prelude::*;

pub mod control;
pub mod descriptor;
pub mod usb;

verus! {

use crate::control::ControlInResponse;
use crate::control::ControlRequest;
use crate::control::Recipient;
use crate::control::BULK_ONLY_MASS_STORAGE_RESET;
use crate::control::GET_MAX_LUN;
use crate::control::control_in_response;
use crate::descriptor::DescriptorError;
use crate::descriptor::ENDPOINT_DESCRIPTOR_TYPE;
use crate::descriptor::INTERFACE_DESCRIPTOR_TYPE;
use crate::descriptor::configuration_descriptors;
use crate::descriptor::endpoint_descriptor;
use crate::descriptor::endpoint_descriptor_body_vec;
use crate::descriptor::interface_descriptor;
use crate::descriptor::interface_descriptor_body_vec;
use crate::usb::write_descriptor;
use crate::usb::writer_bytes;
use crate::usb::writer_capacity;

/// A USB mass-storage class handler: the interface number and the two bulk
/// endpoint addresses its instance was assigned, all allocated once by the
/// host stack and never reassigned.
#[derive(Clone, Copy, Debug, PartialEq, Eq, Structural)]
pub struct UMSClass {
    /// Interface number assigned at construction.
    pub if_num: u8,
    /// Address of the bulk OUT endpoint (direction bit clear).
    pub out_ep_address: u8,
    /// Address of the bulk IN endpoint (direction bit set).
    pub in_ep_address: u8,
}

impl UMSClass {
    /// The endpoint pair is well formed: the OUT address has the direction bit
    /// clear and the IN address has it set.
    pub open spec fn wf(self) -> bool {
        self.out_ep_address < 0x80 && 0x80 <= self.in_ep_address
    }

    /// Builds the handler from the resources the stack's allocator assigned:
    /// one interface number and the addresses of a bulk OUT / bulk IN pair.
    pub fn new(if_num: u8, out_ep_address: u8, in_ep_address: u8) -> (r: UMSClass)
        requires
            out_ep_address < 0x80,
            0x80 <= in_ep_address,
        ensures
            r == (UMSClass { if_num, out_ep_address, in_ep_address }),
            r.wf(),
    {
        UMSClass { if_num, out_ep_address, in_ep_address }
    }

    /// Decides the answer to a control-in transfer. A request that is not
    /// addressed to this instance's interface is left untouched; on its own
    /// interface the handler accepts a bulk-only reset with an empty payload,
    /// answers Get Max LUN with the single byte 0, and ignores every other
    /// request code. The handler itself never changes.
    pub fn control_in(&mut self, req: &ControlRequest) -> (r: ControlInResponse)
        ensures
            *final(self) == *old(self),
            r@ == control_in_response(old(self).if_num, *req),
    {
        if !(req.recipient == Recipient::Interface && req.index == self.if_num as u16) {
            return ControlInResponse::Ignore;
        }

        if req.request == BULK_ONLY_MASS_STORAGE_RESET {
            ControlInResponse::Accept(Vec::new())
        } else if req.request == GET_MAX_LUN {
            let mut payload: Vec<u8> = Vec::new();
            payload.push(0u8);
            proof {
                assert(payload@ =~= seq![0u8]);
            }
            ControlInResponse::Accept(payload)
        } else {
            ControlInResponse::Ignore
        }
    }

    /// Host-to-device class control writes are ignored: the transfer is left
    /// for other handlers and the handler itself never changes.
    pub fn control_out(&mut self, _req: &ControlRequest)
        ensures
            *final(self) == *old(self),
    {
    }

    /// Bus-reset hook: reserved for clearing a future transport state, of
    /// which none exists yet, so the handler is left unchanged.
    pub fn reset(&mut self)
        ensures
            *final(self) == *old(self),
    {
    }

    /// Periodic hook: reserved for driving a future transport state machine,
    /// of which none exists yet, so the handler is left unchanged.
    pub fn poll(&mut self)
        ensures
            *final(self) == *old(self),
    {
    }

    /// Emits this class's configuration descriptors through the stack's
    /// writer: the interface descriptor, then one descriptor per bulk
    /// endpoint. Succeeds exactly when the buffer has room for all 23 bytes;
    /// a full buffer surfaces `BufferExhausted` unchanged, leaving exactly
    /// the descriptors that fit before it in place.
    pub fn get_configuration_descriptors(
        &self,
        writer: &mut usb_device::descriptor::DescriptorWriter,
    ) -> (r: Result<(), DescriptorError>)
        ensures
            writer_capacity(*final(writer)) == writer_capacity(*old(writer)),
            ({
                let p = writer_bytes(*old(writer)).len();
                let c = writer_capacity(*old(writer));
                &&& (r matches Ok(()) <==> p + 23 <= c)
                &&& (r matches Err(e) ==> e == DescriptorError::BufferExhausted)
                &&& (p + 23 <= c ==> writer_bytes(*final(writer)) == writer_bytes(*old(writer))
                    + configuration_descriptors(self.if_num, self.out_ep_address, self.in_ep_address))
                &&& (p + 9 > c ==> writer_bytes(*final(writer)) == writer_bytes(*old(writer)))
                &&& (p + 9 <= c && p + 16 > c ==> writer_bytes(*final(writer))
                    == writer_bytes(*old(writer)) + interface_descriptor(self.if_num))
                &&& (p + 16 <= c && p + 23 > c ==> writer_bytes(*final(writer))
                    == writer_bytes(*old(writer)) + interface_descriptor(self.if_num)
                        + endpoint_descriptor(self.out_ep_address))
            }),
    {
        let ghost start = writer_bytes(*writer);

        let iface_body = interface_descriptor_body_vec(self.if_num);
        match write_descriptor(writer, INTERFACE_DESCRIPTOR_TYPE, iface_body.as_slice()) {
            Err(e) => {
                return Err(e);
            }
            Ok(()) => {}
        }
        proof {
            assert(writer_bytes(*writer) =~= start + interface_descriptor(self.if_num));
        }

        let out_body = endpoint_descriptor_body_vec(self.out_ep_address);
        match write_descriptor(writer, ENDPOINT_DESCRIPTOR_TYPE, out_body.as_slice()) {
            Err(e) => {
                return Err(e);
            }
            Ok(()) => {}
        }
        proof {
            assert(writer_bytes(*writer) =~= start + interface_descriptor(self.if_num)
                + endpoint_descriptor(self.out_ep_address));
        }

        let in_body = endpoint_descriptor_body_vec(self.in_ep_address);
        match write_descriptor(writer, ENDPOINT_DESCRIPTOR_TYPE, in_body.as_slice()) {
            Err(e) => {
                return Err(e);
            }
            Ok(()) => {}
        }
        proof {
            assert(writer_bytes(*writer) =~= start
                + configuration_descriptors(self.if_num, self.out_ep_address, self.in_ep_address));
        }

        Ok(())
    }

    /// Builds the same 23 bytes of configuration descriptors as a value, for
    /// a caller that frames the configuration itself.
    pub fn configuration_descriptor_bytes(&self) -> (r: Vec<u8>)
        ensures
            r@ == configuration_descriptors(self.if_num, self.out_ep_address, self.in_ep_address),
    {
        let mut bytes: Vec<u8> = Vec::new();
        bytes.push(9u8);
        bytes.push(INTERFACE_DESCRIPTOR_TYPE);
        let mut iface_body = interface_descriptor_body_vec(self.if_num);
        bytes.append(&mut iface_body);
        bytes.push(7u8);
        bytes.push(ENDPOINT_DESCRIPTOR_TYPE);
        let mut out_body = endpoint_descriptor_body_vec(self.out_ep_address);
        bytes.append(&mut out_body);
        bytes.push(7u8);
        bytes.push(ENDPOINT_DESCRIPTOR_TYPE);
        let mut in_body = endpoint_descriptor_body_vec(self.in_ep_address);
        bytes.append(&mut in_body);
        proof {
            assert(bytes@ =~= configuration_descriptors(
                self.if_num,
                self.out_ep_address,
                self.in_ep_address,
            ));
        }
        bytes
    }

    /// This class contributes no Binary device Object Store capabilities: the
    /// writer is left untouched and the emission succeeds.
    pub fn get_bos_descriptors(
        &self,
        writer: &mut usb_device::descriptor::BosWriter,
    ) -> (r: Result<(), DescriptorError>)
        ensures
            r matches Ok(()),
            *final(writer) == *old(writer),
    {
        Ok(())
    }

    /// This class defines no custom string descriptors: every index, in every
    /// language, has no string available.
    pub fn get_string(&self, _index: u8, _lang_id: u16) -> (r: Option<&'static str>)
        ensures
            r is None,
    {
        None
    }

    /// Endpoint SETUP hook: reserved for a future transport data phase, so
    /// the handler is left unchanged.
    pub fn endpoint_setup(&mut self, _addr: usb_device::endpoint::EndpointAddress)
        ensures
            *final(self) == *old(self),
    {
    }

    /// Endpoint OUT completion hook: reserved for a future transport data
    /// phase, so the handler is left unchanged.
    pub fn endpoint_out(&mut self, _addr: usb_device::endpoint::EndpointAddress)
        ensures
            *final(self) == *old(self),
    {
    }

    /// Endpoint IN completion hook: reserved for a future transport data
    /// phase, so the handler is left unchanged.
    pub fn endpoint_in_complete(&mut self, _addr: usb_device::endpoint::EndpointAddress)
        ensures
            *final(self) == *old(self),
    {
    }
}

} // verus!
