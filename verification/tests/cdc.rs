//! CDC functional descriptor packing.

use virtual_usb::cdc::{
    AbstractControlManagementFunctionalDescriptor, CallManagementFunctionalDescriptor,
    CdcSubclass, HeaderFunctionalDescriptor, LineCoding, UnionFunctionalDescriptor,
};

#[test]
fn header_functional_descriptor_packs_bcd_little_endian() {
    let desc = HeaderFunctionalDescriptor {
        b_function_length: 5,
        b_descriptor_type: 0x24,
        b_descriptor_subtype: 0x00,
        bcd_cdc: 0x0110,
    };
    assert_eq!(desc.pack_to_vec(), vec![5, 0x24, 0x00, 0x10, 0x01]);
}

#[test]
fn acm_functional_descriptor_packs_to_4_bytes() {
    let desc = AbstractControlManagementFunctionalDescriptor {
        b_function_length: 4,
        b_descriptor_type: 0x24,
        b_descriptor_subtype: 0x02,
        bm_capabilities: 0x06,
    };
    assert_eq!(desc.pack_to_vec(), vec![4, 0x24, 0x02, 0x06]);
}

#[test]
fn union_functional_descriptor_packs_to_5_bytes() {
    let desc = UnionFunctionalDescriptor {
        b_function_length: 5,
        b_descriptor_type: 0x24,
        b_descriptor_subtype: 0x06,
        b_master_interface: 0,
        b_slave_interface0: 1,
    };
    assert_eq!(desc.pack_to_vec(), vec![5, 0x24, 0x06, 0, 1]);
}

#[test]
fn call_management_descriptor_packs_to_5_bytes() {
    let desc = CallManagementFunctionalDescriptor {
        b_function_length: 5,
        b_descriptor_type: 0x24,
        b_descriptor_subtype: 0x01,
        bm_capabilities: 0x03,
        b_data_interface: 1,
    };
    assert_eq!(desc.pack_to_vec(), vec![5, 0x24, 0x01, 0x03, 1]);
}

#[test]
fn line_coding_packs_rate_little_endian() {
    let coding = LineCoding {
        dw_dte_rate: 115200,
        b_char_format: 0,
        b_parity_type: 0,
        b_data_bits: 8,
    };
    assert_eq!(coding.pack_to_vec(), vec![0x00, 0xc2, 0x01, 0x00, 0, 0, 8]);
}

#[test]
fn cdc_subclass_codes() {
    assert_eq!(CdcSubclass::NoSubclass.code(), 0x00);
    assert_eq!(CdcSubclass::DirectLineControlModel.code(), 0x01);
}
