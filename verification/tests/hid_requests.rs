//! HID request reinterpretation of setup packets.

use virtual_usb::usb::SetupRequest;
use virtual_usb::hid::{
    HidDescriptorType, HidGetDescriptorRequest, HidReportType, HidRequest, HidRequestType,
};
use virtual_usb::Error;

#[test]
fn hid_get_descriptor_request_splits_w_value() {
    let setup = SetupRequest::unpack(&[0x81, 0x06, 0x02, 0x22, 0x01, 0x00, 0x26, 0x00]).unwrap();
    let req = HidGetDescriptorRequest::from_setup(&setup).unwrap();
    assert_eq!(req.b_descriptor_type, HidDescriptorType::Report);
    assert_eq!(req.b_descriptor_index, 2);
    assert_eq!(req.w_interface_number, 1);
    assert_eq!(req.w_descriptor_length, 0x26);
}

#[test]
fn hid_get_descriptor_request_rejects_unknown_types() {
    let setup = SetupRequest::unpack(&[0x81, 0x06, 0x00, 0x01, 0x00, 0x00, 0x26, 0x00]).unwrap();
    assert_eq!(HidGetDescriptorRequest::from_setup(&setup).unwrap_err(), Error::InvalidEnum);
}

#[test]
fn set_idle_setup_becomes_a_set_idle_request() {
    let setup = SetupRequest::unpack(&[0x21, 0x0a, 0x01, 0x08, 0x02, 0x00, 0x00, 0x00]).unwrap();
    match HidRequest::from_setup(&setup).unwrap() {
        HidRequest::SetIdle(idle) => {
            assert_eq!(idle.b_request, HidRequestType::SetIdle);
            assert_eq!(idle.report_id, 1);
            assert_eq!(idle.duration, 8);
            assert_eq!(idle.interface, 2);
        }
        _ => panic!("expected a SET_IDLE request"),
    }
}

#[test]
fn get_report_setup_becomes_a_report_request() {
    let setup = SetupRequest::unpack(&[0xa1, 0x01, 0x00, 0x01, 0x02, 0x00, 0x40, 0x00]).unwrap();
    match HidRequest::from_setup(&setup).unwrap() {
        HidRequest::GetReport(rep) => {
            assert_eq!(rep.b_request, HidRequestType::GetReport);
            assert_eq!(rep.report_type, HidReportType::Input);
            assert_eq!(rep.interface, 2);
            assert_eq!(rep.report_length, 0x40);
        }
        _ => panic!("expected a GET_REPORT request"),
    }
}

#[test]
fn unimplemented_hid_requests_are_refused() {
    // GET_PROTOCOL carries request code 3.
    let setup = SetupRequest::unpack(&[0xa1, 0x03, 0x00, 0x00, 0x02, 0x00, 0x01, 0x00]).unwrap();
    assert_eq!(HidRequest::from_setup(&setup).unwrap_err(), Error::UnknownRequest);
}

#[test]
fn non_hid_request_codes_are_unknown() {
    // SYNCH_FRAME's code 12 is outside the HID request set.
    let setup = SetupRequest::unpack(&[0xa1, 0x0c, 0x00, 0x00, 0x02, 0x00, 0x01, 0x00]).unwrap();
    assert_eq!(HidRequest::from_setup(&setup).unwrap(), HidRequest::Unknown);
}

#[test]
fn report_request_announces_its_length() {
    let report = [0u8; 64];
    let req = virtual_usb::hid::HidReportRequest::new(&report);
    assert_eq!(req.report_length, 64);
    assert_eq!(req.report_type, HidReportType::Input);
    assert_eq!(req.b_request, HidRequestType::GetReport);
}
