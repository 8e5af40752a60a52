use ums_class::descriptor::{endpoint_descriptor_body_vec, interface_descriptor_body_vec};
use ums_class::UMSClass;

#[test]
fn interface_descriptor_body_bytes() {
    assert_eq!(
        interface_descriptor_body_vec(3),
        vec![3, 0, 2, 0x08, 0x06, 0x50, 0]
    );
}

#[test]
fn endpoint_descriptor_body_bytes() {
    assert_eq!(endpoint_descriptor_body_vec(0x81), vec![0x81, 2, 64, 0, 0]);
}

#[test]
fn configuration_descriptors_exact_bytes() {
    let c = UMSClass::new(1, 0x02, 0x82);
    assert_eq!(
        c.configuration_descriptor_bytes(),
        vec![
            9, 4, 1, 0, 2, 0x08, 0x06, 0x50, 0, // interface descriptor
            7, 5, 0x02, 2, 64, 0, 0, // bulk OUT endpoint descriptor
            7, 5, 0x82, 2, 64, 0, 0, // bulk IN endpoint descriptor
        ]
    );
}

#[test]
fn configuration_descriptors_carry_the_assigned_numbers() {
    let c = UMSClass::new(5, 0x03, 0x84);
    let bytes = c.configuration_descriptor_bytes();
    assert_eq!(bytes.len(), 23);
    assert_eq!(bytes[2], 5);
    assert_eq!(bytes[11], 0x03);
    assert_eq!(bytes[18], 0x84);
}
