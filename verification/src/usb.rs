//! The trusted boundary to the usb-device stack.
//!
//! The host stack hands the handler its descriptor writer, string indices and
//! endpoint addresses as values of its own types; they are declared here so
//! the verified code can carry them, and the one call the library makes into
//! the stack — writing a descriptor — stands behind a contract stating what
//! the stack's own source shows of it.

use vstd::prelude::*;

verus! {

use crate::descriptor::DescriptorError;

/// The descriptor writer the stack supplies during enumeration: a byte buffer
/// of fixed size, filled from the front.
#[verifier::external_type_specification]
#[verifier::external_body]
pub struct ExDescriptorWriter<'a>(usb_device::descriptor::DescriptorWriter<'a>);

/// The writer the stack supplies for Binary device Object Store capabilities;
/// this class never writes to it.
#[verifier::external_type_specification]
#[verifier::external_body]
pub struct ExBosWriter<'w, 'a: 'w>(usb_device::descriptor::BosWriter<'w, 'a>);

/// An endpoint address — endpoint number plus direction bit — as the stack
/// encodes it.
#[verifier::external_type_specification]
#[verifier::external_body]
pub struct ExEndpointAddress(usb_device::endpoint::EndpointAddress);

/// The bytes written into the writer's buffer so far.
pub uninterp spec fn writer_bytes(w: usb_device::descriptor::DescriptorWriter) -> Seq<u8>;

/// The size of the writer's buffer, fixed for the writer's lifetime.
pub uninterp spec fn writer_capacity(w: usb_device::descriptor::DescriptorWriter) -> nat;

/// Relies on DescriptorWriter::write: when the buffer has room for the two
/// header bytes and the body, it appends bLength (body length plus two) and
/// bDescriptorType followed by the body; otherwise it reports a full buffer
/// and leaves the contents untouched.
#[verifier::external_body]
pub fn write_descriptor(
    w: &mut usb_device::descriptor::DescriptorWriter,
    descriptor_type: u8,
    body: &[u8],
) -> (r: Result<(), DescriptorError>)
    requires
        body@.len() <= 253,
    ensures
        writer_capacity(*final(w)) == writer_capacity(*old(w)),
        r matches Ok(()) <==> writer_bytes(*old(w)).len() + 2 + body@.len()
            <= writer_capacity(*old(w)),
        r matches Ok(()) ==> writer_bytes(*final(w)) == writer_bytes(*old(w))
            + seq![(body@.len() + 2) as u8, descriptor_type] + body@,
        r matches Err(e) ==> e == DescriptorError::BufferExhausted
            && writer_bytes(*final(w)) == writer_bytes(*old(w)),
{
    match w.write(descriptor_type, body) {
        Ok(()) => Ok(()),
        Err(_) => Err(DescriptorError::BufferExhausted),
    }
}

} // verus!
