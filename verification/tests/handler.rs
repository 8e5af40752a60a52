use ums_class::control::{ControlInResponse, ControlRequest, Recipient};
use ums_class::UMSClass;

fn handler() -> UMSClass {
    UMSClass::new(1, 0x02, 0x82)
}

#[test]
fn foreign_recipient_ignored() {
    let mut c = handler();
    for recipient in [
        Recipient::Device,
        Recipient::Endpoint,
        Recipient::Other,
        Recipient::Reserved,
    ] {
        let req = ControlRequest {
            recipient,
            index: 1,
            request: 0xfe,
        };
        assert_eq!(c.control_in(&req), ControlInResponse::Ignore);
    }
}

#[test]
fn other_interface_ignored() {
    let mut c = handler();
    for index in [0u16, 2, 3, 0x100, 0xffff] {
        let req = ControlRequest {
            recipient: Recipient::Interface,
            index,
            request: 0xfe,
        };
        assert_eq!(c.control_in(&req), ControlInResponse::Ignore);
        let req = ControlRequest {
            recipient: Recipient::Interface,
            index,
            request: 0xff,
        };
        assert_eq!(c.control_in(&req), ControlInResponse::Ignore);
    }
}

#[test]
fn reset_accepted_with_empty_payload() {
    let mut c = handler();
    let req = ControlRequest {
        recipient: Recipient::Interface,
        index: 1,
        request: 0xff,
    };
    assert_eq!(c.control_in(&req), ControlInResponse::Accept(vec![]));
}

#[test]
fn get_max_lun_reports_lun_zero() {
    let mut c = handler();
    let req = ControlRequest {
        recipient: Recipient::Interface,
        index: 1,
        request: 0xfe,
    };
    assert_eq!(c.control_in(&req), ControlInResponse::Accept(vec![0x00]));
}

#[test]
fn unknown_request_codes_ignored() {
    let mut c = handler();
    for request in [0x00u8, 0x12, 0x42, 0xfd] {
        let req = ControlRequest {
            recipient: Recipient::Interface,
            index: 1,
            request,
        };
        assert_eq!(c.control_in(&req), ControlInResponse::Ignore);
    }
}

#[test]
fn get_max_lun_on_interface_three() {
    let mut c = UMSClass::new(3, 0x01, 0x81);
    let req = ControlRequest {
        recipient: Recipient::Interface,
        index: 3,
        request: 0xfe,
    };
    match c.control_in(&req) {
        ControlInResponse::Accept(payload) => assert_eq!(payload, vec![0x00]),
        ControlInResponse::Ignore => panic!("the request was not accepted"),
    }
}

#[test]
fn hooks_leave_handler_unchanged() {
    let mut c = handler();
    let before = c;
    c.reset();
    c.poll();
    let req = ControlRequest {
        recipient: Recipient::Interface,
        index: 1,
        request: 0x21,
    };
    c.control_out(&req);
    c.endpoint_setup(usb_device::endpoint::EndpointAddress::from(0x02));
    c.endpoint_out(usb_device::endpoint::EndpointAddress::from(0x02));
    c.endpoint_in_complete(usb_device::endpoint::EndpointAddress::from(0x82));
    assert_eq!(c, before);
}

#[test]
fn no_string_descriptors() {
    let c = handler();
    assert_eq!(c.get_string(4, 0x0409), None);
}
