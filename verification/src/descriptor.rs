//! The configuration descriptors this class contributes, laid out bit-exactly.
//!
//! During enumeration the class emits one interface descriptor tagged with the
//! mass-storage class triple and one endpoint descriptor for each of its two
//! bulk endpoints. Each descriptor starts with its own length (bLength) and
//! type code (bDescriptorType), so a reader can split an emission back into
//! descriptors by walking the length bytes.

use vstd::prelude::*;

verus! {

/// Error from descriptor emission: the writer's buffer has no room left.
/// It is surfaced to the caller unchanged, fatal to the enumeration attempt.
#[derive(Clone, Copy, Debug, PartialEq, Eq, Structural)]
pub enum DescriptorError {
    /// The descriptor writer's buffer is exhausted.
    BufferExhausted,
}

/// Descriptor type code of an interface descriptor (bDescriptorType).
pub const INTERFACE_DESCRIPTOR_TYPE: u8 = 4;

/// Descriptor type code of an endpoint descriptor (bDescriptorType).
pub const ENDPOINT_DESCRIPTOR_TYPE: u8 = 5;

/// Interface class code: mass storage.
pub const USB_CLASS_MASS_STORAGE: u8 = 0x08;

/// Interface subclass code: SCSI transparent command set.
pub const USB_SUBCLASS_SCSI: u8 = 0x06;

/// Interface protocol code: Bulk-Only Transport.
pub const USB_PROTOCOL_BULK_ONLY: u8 = 0x50;

/// Transfer-type bits of bmAttributes for a bulk endpoint.
pub const BULK_ENDPOINT_ATTRIBUTES: u8 = 2;

/// Maximum packet size of each bulk endpoint, in bytes.
pub const BULK_MAX_PACKET_SIZE: u16 = 64;

/// The body of the interface descriptor (everything after bLength and
/// bDescriptorType): interface number, alternate setting 0, two endpoints,
/// the mass-storage class triple, and no interface string.
pub open spec fn interface_descriptor_body(if_num: u8) -> Seq<u8> {
    seq![
        if_num,
        0u8,
        2u8,
        USB_CLASS_MASS_STORAGE,
        USB_SUBCLASS_SCSI,
        USB_PROTOCOL_BULK_ONLY,
        0u8,
    ]
}

/// The full 9-byte interface descriptor: bLength and bDescriptorType, then
/// the body.
pub open spec fn interface_descriptor(if_num: u8) -> Seq<u8> {
    seq![9u8, INTERFACE_DESCRIPTOR_TYPE] + interface_descriptor_body(if_num)
}

/// The body of a bulk endpoint descriptor (everything after bLength and
/// bDescriptorType): endpoint address, bulk attributes, the 64-byte maximum
/// packet size little-endian, and a zero polling interval.
pub open spec fn endpoint_descriptor_body(address: u8) -> Seq<u8> {
    seq![address, BULK_ENDPOINT_ATTRIBUTES, 64u8, 0u8, 0u8]
}

/// The full 7-byte bulk endpoint descriptor: bLength and bDescriptorType,
/// then the body.
pub open spec fn endpoint_descriptor(address: u8) -> Seq<u8> {
    seq![7u8, ENDPOINT_DESCRIPTOR_TYPE] + endpoint_descriptor_body(address)
}

/// Everything this class emits into the configuration: its interface
/// descriptor followed by the descriptors of its OUT and IN bulk endpoints.
pub open spec fn configuration_descriptors(if_num: u8, out_ep_address: u8, in_ep_address: u8) -> Seq<u8> {
    interface_descriptor(if_num) + endpoint_descriptor(out_ep_address)
        + endpoint_descriptor(in_ep_address)
}

/// Builds the interface descriptor body as bytes.
pub fn interface_descriptor_body_vec(if_num: u8) -> (r: Vec<u8>)
    ensures
        r@ == interface_descriptor_body(if_num),
{
    let mut body: Vec<u8> = Vec::new();
    body.push(if_num);
    body.push(0u8);
    body.push(2u8);
    body.push(USB_CLASS_MASS_STORAGE);
    body.push(USB_SUBCLASS_SCSI);
    body.push(USB_PROTOCOL_BULK_ONLY);
    body.push(0u8);
    proof {
        assert(body@ =~= interface_descriptor_body(if_num));
    }
    body
}

/// Builds a bulk endpoint descriptor body as bytes.
pub fn endpoint_descriptor_body_vec(address: u8) -> (r: Vec<u8>)
    ensures
        r@ == endpoint_descriptor_body(address),
{
    let mut body: Vec<u8> = Vec::new();
    body.push(address);
    body.push(BULK_ENDPOINT_ATTRIBUTES);
    body.push(64u8);
    body.push(0u8);
    body.push(0u8);
    proof {
        assert(body@ =~= endpoint_descriptor_body(address));
    }
    body
}

/// Splits an emission back into descriptors by their leading length byte.
/// A length byte of zero, or one running past the end, leaves the remainder
/// as a single malformed piece.
pub open spec fn split_descriptors(bytes: Seq<u8>) -> Seq<Seq<u8>>
    decreases bytes.len(),
{
    if bytes.len() == 0 {
        Seq::<Seq<u8>>::empty()
    } else if bytes[0] == 0 || bytes[0] as int > bytes.len() {
        seq![bytes]
    } else {
        seq![bytes.take(bytes[0] as int)] + split_descriptors(bytes.skip(bytes[0] as int))
    }
}

/// The emission is exactly one interface descriptor carrying the mass-storage
/// class triple, followed by exactly two bulk endpoint descriptors with the
/// 64-byte maximum packet size, one per endpoint address, and nothing else.
pub proof fn lemma_configuration_descriptor_layout(if_num: u8, out_ep_address: u8, in_ep_address: u8)
    ensures
        split_descriptors(configuration_descriptors(if_num, out_ep_address, in_ep_address))
            == seq![
                interface_descriptor(if_num),
                endpoint_descriptor(out_ep_address),
                endpoint_descriptor(in_ep_address),
            ],
        interface_descriptor(if_num)[1] == INTERFACE_DESCRIPTOR_TYPE,
        interface_descriptor(if_num)[5] == USB_CLASS_MASS_STORAGE,
        interface_descriptor(if_num)[6] == USB_SUBCLASS_SCSI,
        interface_descriptor(if_num)[7] == USB_PROTOCOL_BULK_ONLY,
        endpoint_descriptor(out_ep_address)[1] == ENDPOINT_DESCRIPTOR_TYPE,
        endpoint_descriptor(out_ep_address)[3] == BULK_ENDPOINT_ATTRIBUTES,
        endpoint_descriptor(out_ep_address)[4] as u16
            + endpoint_descriptor(out_ep_address)[5] as u16 * 256 == BULK_MAX_PACKET_SIZE,
{
    let ifd = interface_descriptor(if_num);
    let epo = endpoint_descriptor(out_ep_address);
    let epi = endpoint_descriptor(in_ep_address);
    let all = configuration_descriptors(if_num, out_ep_address, in_ep_address);

    assert(ifd.len() == 9);
    assert(epo.len() == 7);
    assert(epi.len() == 7);
    assert(all.len() == 23);

    assert(split_descriptors(epi) == seq![epi.take(7)] + split_descriptors(epi.skip(7)));
    assert(epi.take(7) =~= epi);
    assert(epi.skip(7) =~= Seq::<u8>::empty());
    assert(split_descriptors(epi.skip(7)) =~= Seq::<Seq<u8>>::empty());
    assert(split_descriptors(epi) =~= seq![epi]);

    let tail = epo + epi;
    assert(tail[0] == 7);
    assert(split_descriptors(tail) == seq![tail.take(7)] + split_descriptors(tail.skip(7)));
    assert(tail.take(7) =~= epo);
    assert(tail.skip(7) =~= epi);
    assert(split_descriptors(tail) =~= seq![epo, epi]);

    assert(all[0] == 9);
    assert(split_descriptors(all) == seq![all.take(9)] + split_descriptors(all.skip(9)));
    assert(all.take(9) =~= ifd);
    assert(all.skip(9) =~= tail);
    assert(split_descriptors(all) =~= seq![ifd, epo, epi]);
}

} // verus!
