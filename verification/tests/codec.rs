//! Byte-exact packing and unpacking of descriptors and setup packets.

use virtual_usb::usb::{
    Configuration, ConfigurationBuilder, ConfigurationDescriptor, Direction, DeviceDescriptor,
    DeviceQualifierDescriptor, EndpointBuilder, EndpointDescriptor, Interface, LangId, Recipient,
    SetupRequest, StandardRequest, StringDescriptor, SynchronizationType, TransferType, Type,
    UsageType,
};
use virtual_usb::hid::{HidDescriptor, HidInterfaceBuilder, HidReportDescriptorInfo};
use virtual_usb::usb::InterfaceDescriptor;
use virtual_usb::Error;

#[test]
fn device_descriptor_packs_to_18_bytes() {
    let desc = DeviceDescriptor::new(0x28de, 0x1205);
    let bytes = desc.pack_to_vec();
    assert_eq!(
        bytes,
        vec![
            0x12, 0x01, 0x00, 0x02, 0x00, 0x00, 0x00, 0x10, 0xde, 0x28, 0x05, 0x12, 0x00, 0x01,
            0x01, 0x02, 0x00, 0x01,
        ]
    );
}

#[test]
fn device_qualifier_packs_to_10_bytes() {
    let desc = DeviceQualifierDescriptor::new();
    let bytes = desc.pack_to_vec();
    assert_eq!(bytes, vec![0x0a, 0x06, 0x00, 0x02, 0x03, 0x00, 0x00, 0x10, 0x01, 0x00]);
}

#[test]
fn setup_request_packs_little_endian() {
    let setup = SetupRequest {
        bm_request_type_direction: Direction::In,
        bm_request_type_kind: Type::Standard,
        bm_request_type_recipient: Recipient::Device,
        b_request: StandardRequest::GetDescriptor,
        w_value: 0x0100,
        w_index: 0,
        w_length: 18,
    };
    assert_eq!(setup.pack_to_vec(), vec![0x80, 0x06, 0x00, 0x01, 0x00, 0x00, 0x12, 0x00]);
}

#[test]
fn setup_request_round_trips() {
    let setup = SetupRequest {
        bm_request_type_direction: Direction::Out,
        bm_request_type_kind: Type::Class,
        bm_request_type_recipient: Recipient::Interface,
        b_request: StandardRequest::SetConfiguration,
        w_value: 0x1234,
        w_index: 2,
        w_length: 64,
    };
    let bytes = setup.pack_to_vec();
    assert_eq!(SetupRequest::unpack(&bytes), Ok(setup));
}

#[test]
fn setup_request_unpack_rejects_short_buffers() {
    assert_eq!(SetupRequest::unpack(&[0x80, 0x06]), Err(Error::Malformed));
}

#[test]
fn setup_request_unpack_rejects_bad_recipient() {
    // Recipient bits hold 4, outside the range this library interprets.
    assert_eq!(
        SetupRequest::unpack(&[0x84, 0x06, 0x00, 0x01, 0x00, 0x00, 0x12, 0x00]),
        Err(Error::InvalidEnum)
    );
}

#[test]
fn setup_request_unpack_rejects_bad_request_code() {
    assert_eq!(
        SetupRequest::unpack(&[0x80, 0x42, 0x00, 0x01, 0x00, 0x00, 0x12, 0x00]),
        Err(Error::InvalidEnum)
    );
}

#[test]
fn endpoint_descriptor_packs_bit_fields() {
    let desc = EndpointBuilder::new()
        .address_num(3)
        .direction(Direction::In)
        .transfer_type(TransferType::Interrupt)
        .sync_type(SynchronizationType::NoSynchronization)
        .usage_type(UsageType::Data)
        .max_packet_size(0x0040)
        .interval(4)
        .build();
    // Address byte: direction bit 7 set, number 3; attributes: interrupt.
    assert_eq!(desc.pack_to_vec(), vec![0x07, 0x05, 0x83, 0x03, 0x40, 0x00, 0x04]);
}

#[test]
fn endpoint_descriptor_round_trips() {
    let desc = EndpointBuilder::new()
        .address_num(5)
        .direction(Direction::Out)
        .transfer_type(TransferType::Bulk)
        .sync_type(SynchronizationType::Adaptive)
        .usage_type(UsageType::Feedback)
        .max_packet_size(512)
        .interval(1)
        .build();
    let bytes = desc.pack_to_vec();
    assert_eq!(EndpointDescriptor::unpack(&bytes), Ok(desc));
}

#[test]
fn endpoint_descriptor_unpack_rejects_bad_type() {
    assert_eq!(
        EndpointDescriptor::unpack(&[0x07, 0x99, 0x81, 0x03, 0x08, 0x00, 0x0a]),
        Err(Error::InvalidEnum)
    );
}

#[test]
fn endpoint_descriptor_unpack_rejects_short_buffers() {
    assert_eq!(EndpointDescriptor::unpack(&[0x07, 0x05, 0x81]), Err(Error::Malformed));
}

#[test]
fn string_descriptor_packs_length_and_type() {
    let desc = StringDescriptor::from_text("abc");
    assert_eq!(desc.pack_to_vec(), Ok(vec![5, 3, 97, 98, 99]));
}

#[test]
fn string_descriptor_rejects_bodies_over_126_bytes() {
    let desc = StringDescriptor::new(vec![0x41; 127]);
    assert_eq!(desc.pack_to_vec(), Err(Error::TooLong));
}

#[test]
fn string_descriptor_accepts_bodies_of_126_bytes() {
    let desc = StringDescriptor::new(vec![0x41; 126]);
    let bytes = desc.pack_to_vec().unwrap();
    assert_eq!(bytes.len(), 128);
    assert_eq!(bytes[0], 128);
    assert_eq!(bytes[1], 3);
}

#[test]
fn lang_id_array_packs_little_endian() {
    let desc = StringDescriptor::from_lang_ids(&vec![LangId::EnglishUnitedStates]);
    assert_eq!(desc.data, vec![0x09, 0x04]);
    assert_eq!(desc.pack_to_vec(), Ok(vec![4, 3, 0x09, 0x04]));
}

#[test]
fn hid_descriptor_packs_to_6_bytes() {
    let desc = HidDescriptor::new();
    assert_eq!(desc.pack_to_vec(), vec![0x06, 0x21, 0x10, 0x01, 0x00, 0x00]);
}

#[test]
fn hid_report_descriptor_info_packs_to_3_bytes() {
    let mut info = HidReportDescriptorInfo::new();
    info.w_descriptor_length = 38;
    assert_eq!(info.pack_to_vec(), vec![0x22, 38, 0]);
}

#[test]
fn configuration_header_declares_its_own_length() {
    let config = ConfigurationBuilder::new()
        .max_power(500)
        .interface(
            HidInterfaceBuilder::new()
                .report_descriptor((0..38u8).collect())
                .endpoint_descriptor(
                    EndpointBuilder::new()
                        .address_num(3)
                        .direction(Direction::In)
                        .transfer_type(TransferType::Interrupt)
                        .max_packet_size(0x0040)
                        .build(),
                )
                .build(),
        )
        .build();
    let bytes = config.pack_to_vec().unwrap();
    let total = bytes[2] as usize + 256 * bytes[3] as usize;
    assert_eq!(total, bytes.len());
    assert_eq!(bytes[4], 1);
    // 9-byte header, 9-byte interface, 6-byte HID descriptor, 3-byte report
    // header, 7-byte endpoint.
    assert_eq!(bytes.len(), 34);
    assert_eq!(bytes[8], 250); // 500 mA in 2 mA units
}

#[test]
fn configuration_numbers_interfaces_densely() {
    let config = ConfigurationBuilder::new()
        .interface(HidInterfaceBuilder::new().build())
        .interface(HidInterfaceBuilder::new().build())
        .interface(HidInterfaceBuilder::new().build())
        .build();
    assert_eq!(config.conf_desc.b_num_interfaces, 3);
    for (num, iface) in config.interfaces.iter().enumerate() {
        match iface {
            Interface::Hid(h) => assert_eq!(h.iface.b_interface_number as usize, num),
            Interface::Raw(_) => panic!("built interfaces are HID"),
        }
    }
}

#[test]
fn raw_interface_packs_verbatim() {
    let iface = Interface::Raw(vec![1, 2, 3]);
    assert_eq!(iface.get_size(), 3);
    assert_eq!(iface.pack_to_vec(), Ok(vec![1, 2, 3]));
}

#[test]
fn configuration_descriptor_defaults() {
    let desc = ConfigurationDescriptor::new();
    assert_eq!(desc.b_configuration_value, 1);
    assert_eq!(desc.bm_attributes, 0x80);
    assert_eq!(desc.pack_to_vec(), vec![9, 2, 0, 0, 0, 1, 0, 0x80, 0]);
}

#[test]
fn configuration_get_size_counts_header_and_interfaces() {
    let config = Configuration::new(
        ConfigurationDescriptor::new(),
        vec![Interface::Raw(vec![0; 25]), Interface::Raw(vec![0; 7])],
    );
    assert_eq!(config.get_size(), 41);
}

#[test]
fn device_descriptor_round_trips() {
    let desc = DeviceDescriptor::new(0x28de, 0x1205);
    assert_eq!(DeviceDescriptor::unpack(&desc.pack_to_vec()), Ok(desc));
    assert_eq!(DeviceDescriptor::unpack(&[0x12, 0x01]), Err(Error::Malformed));
}

#[test]
fn device_qualifier_round_trips() {
    let desc = DeviceQualifierDescriptor::new();
    assert_eq!(DeviceQualifierDescriptor::unpack(&desc.pack_to_vec()), Ok(desc));
}

#[test]
fn configuration_descriptor_round_trips() {
    let mut desc = ConfigurationDescriptor::new();
    desc.w_total_length = 41;
    desc.b_num_interfaces = 3;
    assert_eq!(ConfigurationDescriptor::unpack(&desc.pack_to_vec()), Ok(desc));
}

#[test]
fn interface_descriptor_round_trips() {
    let desc = InterfaceDescriptor::new();
    assert_eq!(InterfaceDescriptor::unpack(&desc.pack_to_vec()), Ok(desc));
    // Class byte 4 names no interface class.
    assert_eq!(
        InterfaceDescriptor::unpack(&[9, 4, 0, 0, 1, 0x04, 0, 0, 0]),
        Err(Error::InvalidEnum)
    );
}

#[test]
fn hid_descriptor_round_trips() {
    let desc = HidDescriptor::new();
    assert_eq!(HidDescriptor::unpack(&desc.pack_to_vec()), Ok(desc));
}

#[test]
fn hid_report_descriptor_info_round_trips() {
    let mut info = HidReportDescriptorInfo::new();
    info.w_descriptor_length = 65;
    assert_eq!(HidReportDescriptorInfo::unpack(&info.pack_to_vec()), Ok(info));
    assert_eq!(HidReportDescriptorInfo::unpack(&[0x21, 65, 0]), Err(Error::InvalidEnum));
}
