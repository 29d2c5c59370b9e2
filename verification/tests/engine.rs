//! The protocol engine: endpoint-0 standard requests, delegation, and
//! unlink handling.

use virtual_usb::usb::{
    ConfigurationBuilder, Direction, EndpointBuilder, SetupRequest, SynchronizationType,
    TransferType, UsageType,
};
use virtual_usb::hid::HidInterfaceBuilder;
use virtual_usb::usbip::{
    USBIPCommandHeader, USBIPHeaderBasic, USBIPHeaderCmdSubmit, USBIPHeaderCmdUnlink,
    USBIPReplyHeader, UsbIpDirection,
};
use virtual_usb::virtual_usb::{Command, Reply, VirtualUSBDevice, VirtualUSBDeviceBuilder};
use virtual_usb::Error;

/// A submit command for endpoint `ep` carrying the given setup bytes.
fn submit(seqnum: u32, ep: u32, direction: UsbIpDirection, setup: [u8; 8], payload: Vec<u8>) -> Command {
    let header = USBIPHeaderCmdSubmit {
        base: USBIPHeaderBasic { command: 1, seqnum, devid: 2, direction, ep },
        transfer_flags: 0,
        transfer_buffer_length: payload.len() as i32,
        start_frame: 0,
        number_of_packets: 0,
        interval: 0,
        setup: SetupRequest::unpack(&setup).unwrap(),
    };
    Command::new(USBIPCommandHeader::CmdSubmit(header), payload)
}

/// A device with vendor 0x28de, product 0x1205 and one configuration of
/// one HID interface whose report descriptor is the 38 bytes 0..38.
fn deck_device() -> VirtualUSBDevice {
    let report: Vec<u8> = (0..38u8).collect();
    VirtualUSBDeviceBuilder::new(0x28de, 0x1205)
        .manufacturer("Example Works")
        .product("Example Pad")
        .configuration(
            ConfigurationBuilder::new()
                .max_power(500)
                .interface(
                    HidInterfaceBuilder::new()
                        .report_descriptor(report)
                        .endpoint_descriptor(
                            EndpointBuilder::new()
                                .address_num(3)
                                .direction(Direction::In)
                                .transfer_type(TransferType::Interrupt)
                                .sync_type(SynchronizationType::NoSynchronization)
                                .usage_type(UsageType::Data)
                                .max_packet_size(0x0040)
                                .build(),
                        )
                        .build(),
                )
                .build(),
        )
        .build()
}

fn ret_submit(reply: &Reply) -> virtual_usb::usbip::USBIPHeaderRetSubmit {
    match reply.header {
        USBIPReplyHeader::RetSubmit(h) => h,
        USBIPReplyHeader::RetUnlink(_) => panic!("expected RET_SUBMIT"),
    }
}

#[test]
fn get_descriptor_device_returns_device_descriptor() {
    let mut dev = deck_device();
    let cmd = submit(7, 0, UsbIpDirection::In, [0x80, 0x06, 0x00, 0x01, 0x00, 0x00, 0x12, 0x00], vec![]);
    let out = dev.handle_command(&cmd).unwrap();
    assert!(out.xfer.is_none());
    let reply = out.reply.unwrap();
    let h = ret_submit(&reply);
    assert_eq!(h.base.command, 3);
    assert_eq!(h.base.seqnum, 7);
    assert_eq!(h.status, 0);
    assert_eq!(h.actual_length, 18);
    assert_eq!(reply.payload.len(), 18);
    assert_eq!(&reply.payload[0..4], &[0x12, 0x01, 0x00, 0x02]);
    assert_eq!(&reply.payload[8..12], &[0xde, 0x28, 0x05, 0x12]);
}

#[test]
fn get_descriptor_configuration_truncates_to_w_length() {
    let mut dev = deck_device();
    let full = dev.info.configs[0].pack_to_vec().unwrap();
    let cmd = submit(8, 0, UsbIpDirection::In, [0x80, 0x06, 0x00, 0x02, 0x00, 0x00, 0x09, 0x00], vec![]);
    let out = dev.handle_command(&cmd).unwrap();
    let reply = out.reply.unwrap();
    let h = ret_submit(&reply);
    assert_eq!(h.actual_length, 9);
    assert_eq!(h.status, 0);
    assert_eq!(reply.payload, full[0..9].to_vec());
}

#[test]
fn get_descriptor_string_out_of_range_errs() {
    let mut dev = deck_device();
    let cmd = submit(9, 0, UsbIpDirection::In, [0x80, 0x06, 0x09, 0x03, 0x00, 0x00, 0xff, 0x00], vec![]);
    assert_eq!(dev.handle_command(&cmd).unwrap_err(), Error::UnknownDescriptor);
}

#[test]
fn set_configuration_selects_by_value() {
    let mut dev = deck_device();
    assert_eq!(dev.current_config, None);
    let cmd = submit(10, 0, UsbIpDirection::Out, [0x00, 0x09, 0x01, 0x00, 0x00, 0x00, 0x00, 0x00], vec![]);
    let out = dev.handle_command(&cmd).unwrap();
    let reply = out.reply.unwrap();
    let h = ret_submit(&reply);
    assert_eq!(h.status, 0);
    assert_eq!(h.actual_length, 0);
    assert!(reply.payload.is_empty());
    assert_eq!(dev.current_config, Some(0));
}

#[test]
fn set_configuration_with_unknown_value_errs() {
    let mut dev = deck_device();
    let cmd = submit(11, 0, UsbIpDirection::Out, [0x00, 0x09, 0x09, 0x00, 0x00, 0x00, 0x00, 0x00], vec![]);
    assert_eq!(dev.handle_command(&cmd).unwrap_err(), Error::InvalidConfigurationValue);
    assert_eq!(dev.current_config, None);
}

#[test]
fn get_status_reports_self_power() {
    let mut dev = deck_device();
    // Not configured yet: no status to report.
    let status_cmd = [0x80, 0x00, 0x00, 0x00, 0x00, 0x00, 0x04, 0x00];
    let cmd = submit(12, 0, UsbIpDirection::In, status_cmd, vec![]);
    assert_eq!(dev.handle_command(&cmd).unwrap_err(), Error::NoConfig);

    let set = submit(13, 0, UsbIpDirection::Out, [0x00, 0x09, 0x01, 0x00, 0x00, 0x00, 0x00, 0x00], vec![]);
    dev.handle_command(&set).unwrap();
    let cmd = submit(14, 0, UsbIpDirection::In, status_cmd, vec![]);
    let out = dev.handle_command(&cmd).unwrap();
    let reply = out.reply.unwrap();
    assert_eq!(reply.payload, vec![0, 0, 0, 0]);

    // The same request against a self-powered configuration.
    dev.info.configs[0].conf_desc.bm_attributes = 0x80 | 0x40;
    dev.handle_command(&set).unwrap();
    let cmd = submit(15, 0, UsbIpDirection::In, status_cmd, vec![]);
    let out = dev.handle_command(&cmd).unwrap();
    let reply = out.reply.unwrap();
    assert_eq!(reply.payload, vec![1, 0, 0, 0]);
}

#[test]
fn hid_get_descriptor_report_returns_it_verbatim() {
    let mut dev = deck_device();
    let set = submit(16, 0, UsbIpDirection::Out, [0x00, 0x09, 0x01, 0x00, 0x00, 0x00, 0x00, 0x00], vec![]);
    dev.handle_command(&set).unwrap();
    let cmd = submit(17, 0, UsbIpDirection::In, [0x81, 0x06, 0x00, 0x22, 0x00, 0x00, 0x26, 0x00], vec![]);
    let out = dev.handle_command(&cmd).unwrap();
    let reply = out.reply.unwrap();
    let h = ret_submit(&reply);
    assert_eq!(h.actual_length, 38);
    assert_eq!(h.status, 0);
    let expected: Vec<u8> = (0..38u8).collect();
    assert_eq!(reply.payload, expected);
}

#[test]
fn hid_get_descriptor_without_configuration_errs() {
    let mut dev = deck_device();
    let cmd = submit(18, 0, UsbIpDirection::In, [0x81, 0x06, 0x00, 0x22, 0x00, 0x00, 0x26, 0x00], vec![]);
    assert_eq!(dev.handle_command(&cmd).unwrap_err(), Error::NoConfig);
}

#[test]
fn hid_get_descriptor_of_hid_type_is_unsupported() {
    let mut dev = deck_device();
    let set = submit(19, 0, UsbIpDirection::Out, [0x00, 0x09, 0x01, 0x00, 0x00, 0x00, 0x00, 0x00], vec![]);
    dev.handle_command(&set).unwrap();
    let cmd = submit(20, 0, UsbIpDirection::In, [0x81, 0x06, 0x00, 0x21, 0x00, 0x00, 0x40, 0x00], vec![]);
    assert_eq!(dev.handle_command(&cmd).unwrap_err(), Error::UnsupportedStandardRequest);
}

#[test]
fn bulk_out_is_acknowledged_and_delegated() {
    let mut dev = deck_device();
    let payload: Vec<u8> = (0..64u8).collect();
    let cmd = submit(21, 3, UsbIpDirection::Out, [0; 8], payload.clone());
    let out = dev.handle_command(&cmd).unwrap();
    let reply = out.reply.unwrap();
    let h = ret_submit(&reply);
    assert_eq!(h.base.seqnum, 21);
    assert_eq!(h.actual_length, 64);
    assert_eq!(h.status, 0);
    assert!(reply.payload.is_empty());
    let xfer = out.xfer.unwrap();
    assert_eq!(xfer.ep, 3);
    assert_eq!(xfer.direction(), UsbIpDirection::Out);
    assert_eq!(xfer.data, payload);
    assert!(xfer.header().is_none());
}

#[test]
fn interrupt_in_is_delegated_without_reply() {
    let mut dev = deck_device();
    let cmd = submit(22, 3, UsbIpDirection::In, [0; 8], vec![]);
    let out = dev.handle_command(&cmd).unwrap();
    assert!(out.reply.is_none());
    let xfer = out.xfer.unwrap();
    assert_eq!(xfer.ep, 3);
    assert_eq!(xfer.direction(), UsbIpDirection::In);
    assert!(xfer.data.is_empty());
}

#[test]
fn endpoint_16_and_above_are_invalid() {
    let mut dev = deck_device();
    let cmd = submit(23, 16, UsbIpDirection::Out, [0; 8], vec![]);
    assert_eq!(dev.handle_command(&cmd).unwrap_err(), Error::InvalidEndpoint);
}

#[test]
fn class_request_on_ep0_is_delegated_with_setup() {
    let mut dev = deck_device();
    // SET_IDLE: class-typed, interface recipient, request 0x0a.
    let cmd = submit(24, 0, UsbIpDirection::Out, [0x21, 0x0a, 0x00, 0x00, 0x00, 0x00, 0x00, 0x00], vec![]);
    let out = dev.handle_command(&cmd).unwrap();
    // The OUT transfer is acknowledged at once.
    let reply = out.reply.unwrap();
    assert_eq!(ret_submit(&reply).actual_length, 0);
    let xfer = out.xfer.unwrap();
    assert_eq!(xfer.ep, 0);
    let setup = xfer.header().unwrap();
    assert_eq!(setup.b_request.code(), 0x0a);
}

#[test]
fn out_request_with_payload_on_ep0_is_malformed() {
    let mut dev = deck_device();
    let cmd = submit(25, 0, UsbIpDirection::Out, [0x00, 0x09, 0x01, 0x00, 0x00, 0x00, 0x01, 0x00], vec![0xaa]);
    assert_eq!(dev.handle_command(&cmd).unwrap_err(), Error::Malformed);
}

#[test]
fn endpoint_recipient_is_unknown() {
    let mut dev = deck_device();
    let cmd = submit(26, 0, UsbIpDirection::In, [0x82, 0x00, 0x00, 0x00, 0x00, 0x00, 0x02, 0x00], vec![]);
    assert_eq!(dev.handle_command(&cmd).unwrap_err(), Error::UnknownRequest);
}

#[test]
fn unsupported_standard_request_errs() {
    let mut dev = deck_device();
    // SET_FEATURE towards the device.
    let cmd = submit(27, 0, UsbIpDirection::In, [0x80, 0x03, 0x00, 0x00, 0x00, 0x00, 0x00, 0x00], vec![]);
    assert_eq!(dev.handle_command(&cmd).unwrap_err(), Error::UnsupportedStandardRequest);
}

#[test]
fn unlink_is_acknowledged_with_econnreset() {
    let mut dev = deck_device();
    let header = USBIPHeaderCmdUnlink {
        base: USBIPHeaderBasic {
            command: 2,
            seqnum: 99,
            devid: 2,
            direction: UsbIpDirection::Out,
            ep: 0,
        },
        seqnum: 42,
    };
    let cmd = Command::new(USBIPCommandHeader::CmdUnlink(header), vec![]);
    let out = dev.handle_command(&cmd).unwrap();
    assert!(out.xfer.is_none());
    let reply = out.reply.unwrap();
    match reply.header {
        USBIPReplyHeader::RetUnlink(h) => {
            assert_eq!(h.base.command, 4);
            assert_eq!(h.base.seqnum, 99);
            assert_eq!(h.status, -104);
        }
        USBIPReplyHeader::RetSubmit(_) => panic!("expected RET_UNLINK"),
    }
    assert!(reply.payload.is_empty());
}

#[test]
fn reply_from_xfer_carries_data_for_in_transfers() {
    let mut dev = deck_device();
    let cmd = submit(30, 3, UsbIpDirection::In, [0; 8], vec![]);
    let out = dev.handle_command(&cmd).unwrap();
    let xfer = out.xfer.unwrap();
    let reply = Reply::from_xfer(xfer, &[5, 6, 7]);
    let h = ret_submit(&reply);
    assert_eq!(h.base.seqnum, 30);
    assert_eq!(h.actual_length, 3);
    assert_eq!(h.status, 0);
    assert_eq!(reply.payload, vec![5, 6, 7]);
}

#[test]
fn reply_from_xfer_sends_no_data_for_out_transfers() {
    let mut dev = deck_device();
    let cmd = submit(31, 3, UsbIpDirection::Out, [0; 8], vec![1, 2]);
    let out = dev.handle_command(&cmd).unwrap();
    let xfer = out.xfer.unwrap();
    let reply = Reply::from_xfer(xfer, &[1, 2]);
    let h = ret_submit(&reply);
    assert_eq!(h.actual_length, 2);
    assert!(reply.payload.is_empty());
}

#[test]
fn speed_follows_bcd_usb() {
    assert_eq!(VirtualUSBDevice::speed_from_bcd_usb(0x0110), 2);
    assert_eq!(VirtualUSBDevice::speed_from_bcd_usb(0x0200), 3);
    assert_eq!(VirtualUSBDevice::speed_from_bcd_usb(0x0300), 5);
    assert_eq!(VirtualUSBDevice::speed_from_bcd_usb(0x9999), 0);
}

#[test]
fn builder_assigns_string_indices() {
    let dev = VirtualUSBDeviceBuilder::new(0x28de, 0x1205)
        .supported_langs(vec![virtual_usb::usb::LangId::EnglishUnitedStates])
        .manufacturer("Example Works")
        .product("Example Pad")
        .serial("0001")
        .build();
    assert_eq!(dev.info.string_descs.len(), 4);
    assert_eq!(dev.info.device_desc.i_manufacturer, 1);
    assert_eq!(dev.info.device_desc.i_product, 2);
    assert_eq!(dev.info.device_desc.i_serial_number, 3);
    assert_eq!(dev.info.string_descs[0].data, vec![0x09, 0x04]);
    assert_eq!(dev.info.string_descs[1].data, b"Example Works".to_vec());
    assert_eq!(dev.info.device_desc.b_num_configurations, 1);
}

#[test]
fn get_descriptor_debug_is_empty_with_status_1() {
    let mut dev = deck_device();
    let cmd = submit(32, 0, UsbIpDirection::In, [0x80, 0x06, 0x00, 0x0a, 0x00, 0x00, 0x40, 0x00], vec![]);
    let out = dev.handle_command(&cmd).unwrap();
    let reply = out.reply.unwrap();
    let h = ret_submit(&reply);
    assert_eq!(h.status, 1);
    assert_eq!(h.actual_length, 0);
    assert!(reply.payload.is_empty());
}

#[test]
fn get_descriptor_device_qualifier_returns_10_bytes() {
    let mut dev = deck_device();
    let cmd = submit(33, 0, UsbIpDirection::In, [0x80, 0x06, 0x00, 0x06, 0x00, 0x00, 0x0a, 0x00], vec![]);
    let out = dev.handle_command(&cmd).unwrap();
    let reply = out.reply.unwrap();
    assert_eq!(ret_submit(&reply).actual_length, 10);
    assert_eq!(reply.payload[1], 0x06);
}

#[test]
fn get_descriptor_string_returns_packed_text() {
    let mut dev = deck_device();
    // With no language array, the manufacturer sits at index 0 and the
    // product string at index 1.
    let cmd = submit(34, 0, UsbIpDirection::In, [0x80, 0x06, 0x01, 0x03, 0x00, 0x00, 0xff, 0x00], vec![]);
    let out = dev.handle_command(&cmd).unwrap();
    let reply = out.reply.unwrap();
    let text = b"Example Pad";
    assert_eq!(ret_submit(&reply).actual_length as usize, text.len() + 2);
    assert_eq!(reply.payload[0] as usize, text.len() + 2);
    assert_eq!(reply.payload[1], 3);
    assert_eq!(&reply.payload[2..], text);
}

#[test]
fn get_descriptor_of_unknown_type_errs() {
    let mut dev = deck_device();
    // Descriptor type 4 (interface) cannot be requested alone.
    let cmd = submit(35, 0, UsbIpDirection::In, [0x80, 0x06, 0x00, 0x04, 0x00, 0x00, 0x09, 0x00], vec![]);
    assert_eq!(dev.handle_command(&cmd).unwrap_err(), Error::UnknownDescriptor);
}

#[test]
fn set_configuration_keeps_the_last_matching_configuration() {
    let report: Vec<u8> = (0..38u8).collect();
    let mut first = ConfigurationBuilder::new().build();
    first.conf_desc.b_configuration_value = 1;
    let mut second = ConfigurationBuilder::new()
        .interface(HidInterfaceBuilder::new().report_descriptor(report).build())
        .build();
    second.conf_desc.b_configuration_value = 1;
    let mut dev = VirtualUSBDeviceBuilder::new(0x28de, 0x1205)
        .configuration(first)
        .configuration(second)
        .build();
    let cmd = submit(36, 0, UsbIpDirection::Out, [0x00, 0x09, 0x01, 0x00, 0x00, 0x00, 0x00, 0x00], vec![]);
    dev.handle_command(&cmd).unwrap();
    assert_eq!(dev.current_config, Some(1));
}

#[test]
fn get_descriptor_of_an_oversize_string_is_too_long() {
    let mut dev = deck_device();
    dev.info.string_descs[0] = virtual_usb::usb::StringDescriptor::new(vec![0x41; 127]);
    let cmd = submit(37, 0, UsbIpDirection::In, [0x80, 0x06, 0x00, 0x03, 0x00, 0x00, 0xff, 0x00], vec![]);
    assert_eq!(dev.handle_command(&cmd).unwrap_err(), Error::TooLong);
}
