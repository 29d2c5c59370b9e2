//! CDC (Communication Device Class) functional descriptors.

use vstd::prelude::*;

use crate::bytes::{spec_le16, push_le16, spec_le32, push_le32};

verus! {

/// Subclass codes for CDC interfaces.
#[derive(Debug, Copy, Clone, PartialEq, Eq, Structural)]
pub enum CdcSubclass {
    NoSubclass,
    DirectLineControlModel,
}

impl CdcSubclass {
    /// Wire code of this subclass.
    pub open spec fn spec_code(self) -> u8 {
        match self {
            CdcSubclass::NoSubclass => 0x00,
            CdcSubclass::DirectLineControlModel => 0x01,
        }
    }

    /// Wire code of this subclass.
    #[verifier::when_used_as_spec(spec_code)]
    pub fn code(self) -> (r: u8)
        ensures
            r == self.spec_code(),
    {
        match self {
            CdcSubclass::NoSubclass => 0x00,
            CdcSubclass::DirectLineControlModel => 0x01,
        }
    }
}

/// The 5-byte CDC header functional descriptor.
#[derive(Debug, Copy, Clone, PartialEq, Eq, Structural)]
pub struct HeaderFunctionalDescriptor {
    /// Size of this descriptor in bytes.
    pub b_function_length: u8,
    /// CS_INTERFACE descriptor type.
    pub b_descriptor_type: u8,
    /// Header functional descriptor subtype.
    pub b_descriptor_subtype: u8,
    /// CDC specification release, binary-coded decimal.
    pub bcd_cdc: u16,
}

impl HeaderFunctionalDescriptor {
    /// The packed 5-byte form.
    pub open spec fn spec_pack(self) -> Seq<u8> {
        seq![self.b_function_length, self.b_descriptor_type, self.b_descriptor_subtype]
            + spec_le16(self.bcd_cdc)
    }

    /// Pack the descriptor into its 5-byte wire form.
    pub fn pack_to_vec(&self) -> (r: Vec<u8>)
        ensures
            r@ == self.spec_pack(),
            r@.len() == 5,
    {
        let mut out: Vec<u8> = Vec::new();
        out.push(self.b_function_length);
        out.push(self.b_descriptor_type);
        out.push(self.b_descriptor_subtype);
        push_le16(&mut out, self.bcd_cdc);
        proof {
            assert(out@ =~= self.spec_pack());
        }
        out
    }
}

/// The 4-byte abstract control management functional descriptor.
#[derive(Debug, Copy, Clone, PartialEq, Eq, Structural)]
pub struct AbstractControlManagementFunctionalDescriptor {
    /// Size of this descriptor in bytes.
    pub b_function_length: u8,
    /// CS_INTERFACE descriptor type.
    pub b_descriptor_type: u8,
    /// Abstract control management descriptor subtype.
    pub b_descriptor_subtype: u8,
    /// The requests and notifications the device supports.
    pub bm_capabilities: u8,
}

impl AbstractControlManagementFunctionalDescriptor {
    /// The packed 4-byte form.
    pub open spec fn spec_pack(self) -> Seq<u8> {
        seq![
            self.b_function_length,
            self.b_descriptor_type,
            self.b_descriptor_subtype,
            self.bm_capabilities,
        ]
    }

    /// Pack the descriptor into its 4-byte wire form.
    pub fn pack_to_vec(&self) -> (r: Vec<u8>)
        ensures
            r@ == self.spec_pack(),
            r@.len() == 4,
    {
        let mut out: Vec<u8> = Vec::new();
        out.push(self.b_function_length);
        out.push(self.b_descriptor_type);
        out.push(self.b_descriptor_subtype);
        out.push(self.bm_capabilities);
        proof {
            assert(out@ =~= self.spec_pack());
        }
        out
    }
}

/// The 5-byte union functional descriptor tying a controlling interface
/// to a subordinate one.
#[derive(Debug, Copy, Clone, PartialEq, Eq, Structural)]
pub struct UnionFunctionalDescriptor {
    /// Size of this descriptor in bytes.
    pub b_function_length: u8,
    /// CS_INTERFACE descriptor type.
    pub b_descriptor_type: u8,
    /// Union functional descriptor subtype.
    pub b_descriptor_subtype: u8,
    /// The controlling interface.
    pub b_master_interface: u8,
    /// The first subordinate interface.
    pub b_slave_interface0: u8,
}

impl UnionFunctionalDescriptor {
    /// The packed 5-byte form.
    pub open spec fn spec_pack(self) -> Seq<u8> {
        seq![
            self.b_function_length,
            self.b_descriptor_type,
            self.b_descriptor_subtype,
            self.b_master_interface,
            self.b_slave_interface0,
        ]
    }

    /// Pack the descriptor into its 5-byte wire form.
    pub fn pack_to_vec(&self) -> (r: Vec<u8>)
        ensures
            r@ == self.spec_pack(),
            r@.len() == 5,
    {
        let mut out: Vec<u8> = Vec::new();
        out.push(self.b_function_length);
        out.push(self.b_descriptor_type);
        out.push(self.b_descriptor_subtype);
        out.push(self.b_master_interface);
        out.push(self.b_slave_interface0);
        proof {
            assert(out@ =~= self.spec_pack());
        }
        out
    }
}

/// The 5-byte call management functional descriptor.
#[derive(Debug, Copy, Clone, PartialEq, Eq, Structural)]
pub struct CallManagementFunctionalDescriptor {
    /// Size of this descriptor in bytes.
    pub b_function_length: u8,
    /// CS_INTERFACE descriptor type.
    pub b_descriptor_type: u8,
    /// Call management descriptor subtype.
    pub b_descriptor_subtype: u8,
    /// How the device handles call management.
    pub bm_capabilities: u8,
    /// The data interface used for call management.
    pub b_data_interface: u8,
}

impl CallManagementFunctionalDescriptor {
    /// The packed 5-byte form.
    pub open spec fn spec_pack(self) -> Seq<u8> {
        seq![
            self.b_function_length,
            self.b_descriptor_type,
            self.b_descriptor_subtype,
            self.bm_capabilities,
            self.b_data_interface,
        ]
    }

    /// Pack the descriptor into its 5-byte wire form.
    pub fn pack_to_vec(&self) -> (r: Vec<u8>)
        ensures
            r@ == self.spec_pack(),
            r@.len() == 5,
    {
        let mut out: Vec<u8> = Vec::new();
        out.push(self.b_function_length);
        out.push(self.b_descriptor_type);
        out.push(self.b_descriptor_subtype);
        out.push(self.bm_capabilities);
        out.push(self.b_data_interface);
        proof {
            assert(out@ =~= self.spec_pack());
        }
        out
    }
}

/// The 7-byte line coding record: rate, stop bits, parity and data bits.
#[derive(Debug, Copy, Clone, PartialEq, Eq, Structural)]
pub struct LineCoding {
    /// Data terminal rate in bits per second.
    pub dw_dte_rate: u32,
    /// Stop bits.
    pub b_char_format: u8,
    /// Parity.
    pub b_parity_type: u8,
    /// Data bits.
    pub b_data_bits: u8,
}

impl LineCoding {
    /// The packed 7-byte form.
    pub open spec fn spec_pack(self) -> Seq<u8> {
        spec_le32(self.dw_dte_rate) + seq![self.b_char_format, self.b_parity_type, self.b_data_bits]
    }

    /// Pack the record into its 7-byte wire form.
    pub fn pack_to_vec(&self) -> (r: Vec<u8>)
        ensures
            r@ == self.spec_pack(),
            r@.len() == 7,
    {
        let mut out: Vec<u8> = Vec::new();
        push_le32(&mut out, self.dw_dte_rate);
        out.push(self.b_char_format);
        out.push(self.b_parity_type);
        out.push(self.b_data_bits);
        proof {
            assert(out@ =~= self.spec_pack());
        }
        out
    }
}

} // verus!
