//! HID (Human Interface Device) class descriptors and requests.

use vstd::prelude::*;

use crate::Error;
use crate::bytes::{spec_le16, push_le16};
use crate::usb::{
    Direction, EndpointDescriptor, Interface, InterfaceClass, InterfaceDescriptor, Recipient,
    SetupRequest, StandardRequest, Type,
};

verus! {

/// HID class-specific descriptor type (high byte of wValue).
#[derive(Debug, Copy, Clone, PartialEq, Eq, Structural)]
pub enum HidDescriptorType {
    Hid,
    Report,
    Physical,
}

impl HidDescriptorType {
    /// Wire code of this value.
    pub open spec fn spec_code(self) -> u8 {
        match self {
            HidDescriptorType::Hid => 0x21,
            HidDescriptorType::Report => 0x22,
            HidDescriptorType::Physical => 0x23,
        }
    }

    /// Wire code of this value.
    #[verifier::when_used_as_spec(spec_code)]
    pub fn code(self) -> (r: u8)
        ensures
            r == self.spec_code(),
    {
        match self {
            HidDescriptorType::Hid => 0x21,
            HidDescriptorType::Report => 0x22,
            HidDescriptorType::Physical => 0x23,
        }
    }

    /// The value a wire code stands for, if any.
    pub open spec fn spec_from_code(c: u8) -> Option<HidDescriptorType> {
        if c == 0x21 {
            Some(HidDescriptorType::Hid)
        } else if c == 0x22 {
            Some(HidDescriptorType::Report)
        } else if c == 0x23 {
            Some(HidDescriptorType::Physical)
        } else {
            None
        }
    }

    /// The value a wire code stands for, if any.
    pub fn from_code(c: u8) -> (r: Option<HidDescriptorType>)
        ensures
            r == HidDescriptorType::spec_from_code(c),
    {
        if c == 0x21 {
            Some(HidDescriptorType::Hid)
        } else if c == 0x22 {
            Some(HidDescriptorType::Report)
        } else if c == 0x23 {
            Some(HidDescriptorType::Physical)
        } else {
            None
        }
    }
}

/// HID class-specific request type (bRequest).
#[derive(Debug, Copy, Clone, PartialEq, Eq, Structural)]
pub enum HidRequestType {
    Unknown,
    GetReport,
    GetIdle,
    GetProtocol,
    _Reverved0,
    _Reverved1,
    _Reverved2,
    _Reverved3,
    _Reverved4,
    SetReport,
    SetIdle,
    SetProtocol,
}

impl HidRequestType {
    /// Wire code of this value.
    pub open spec fn spec_code(self) -> u8 {
        match self {
            HidRequestType::Unknown => 0x00,
            HidRequestType::GetReport => 0x01,
            HidRequestType::GetIdle => 0x02,
            HidRequestType::GetProtocol => 0x03,
            HidRequestType::_Reverved0 => 0x04,
            HidRequestType::_Reverved1 => 0x05,
            HidRequestType::_Reverved2 => 0x06,
            HidRequestType::_Reverved3 => 0x07,
            HidRequestType::_Reverved4 => 0x08,
            HidRequestType::SetReport => 0x09,
            HidRequestType::SetIdle => 0x0a,
            HidRequestType::SetProtocol => 0x0b,
        }
    }

    /// Wire code of this value.
    #[verifier::when_used_as_spec(spec_code)]
    pub fn code(self) -> (r: u8)
        ensures
            r == self.spec_code(),
    {
        match self {
            HidRequestType::Unknown => 0x00,
            HidRequestType::GetReport => 0x01,
            HidRequestType::GetIdle => 0x02,
            HidRequestType::GetProtocol => 0x03,
            HidRequestType::_Reverved0 => 0x04,
            HidRequestType::_Reverved1 => 0x05,
            HidRequestType::_Reverved2 => 0x06,
            HidRequestType::_Reverved3 => 0x07,
            HidRequestType::_Reverved4 => 0x08,
            HidRequestType::SetReport => 0x09,
            HidRequestType::SetIdle => 0x0a,
            HidRequestType::SetProtocol => 0x0b,
        }
    }

    /// The value a wire code stands for, if any.
    pub open spec fn spec_from_code(c: u8) -> Option<HidRequestType> {
        if c == 0x00 {
            Some(HidRequestType::Unknown)
        } else if c == 0x01 {
            Some(HidRequestType::GetReport)
        } else if c == 0x02 {
            Some(HidRequestType::GetIdle)
        } else if c == 0x03 {
            Some(HidRequestType::GetProtocol)
        } else if c == 0x04 {
            Some(HidRequestType::_Reverved0)
        } else if c == 0x05 {
            Some(HidRequestType::_Reverved1)
        } else if c == 0x06 {
            Some(HidRequestType::_Reverved2)
        } else if c == 0x07 {
            Some(HidRequestType::_Reverved3)
        } else if c == 0x08 {
            Some(HidRequestType::_Reverved4)
        } else if c == 0x09 {
            Some(HidRequestType::SetReport)
        } else if c == 0x0a {
            Some(HidRequestType::SetIdle)
        } else if c == 0x0b {
            Some(HidRequestType::SetProtocol)
        } else {
            None
        }
    }

    /// The value a wire code stands for, if any.
    pub fn from_code(c: u8) -> (r: Option<HidRequestType>)
        ensures
            r == HidRequestType::spec_from_code(c),
    {
        if c == 0x00 {
            Some(HidRequestType::Unknown)
        } else if c == 0x01 {
            Some(HidRequestType::GetReport)
        } else if c == 0x02 {
            Some(HidRequestType::GetIdle)
        } else if c == 0x03 {
            Some(HidRequestType::GetProtocol)
        } else if c == 0x04 {
            Some(HidRequestType::_Reverved0)
        } else if c == 0x05 {
            Some(HidRequestType::_Reverved1)
        } else if c == 0x06 {
            Some(HidRequestType::_Reverved2)
        } else if c == 0x07 {
            Some(HidRequestType::_Reverved3)
        } else if c == 0x08 {
            Some(HidRequestType::_Reverved4)
        } else if c == 0x09 {
            Some(HidRequestType::SetReport)
        } else if c == 0x0a {
            Some(HidRequestType::SetIdle)
        } else if c == 0x0b {
            Some(HidRequestType::SetProtocol)
        } else {
            None
        }
    }
}

/// HID report type (high byte of wValue).
#[derive(Debug, Copy, Clone, PartialEq, Eq, Structural)]
pub enum HidReportType {
    Input,
    Output,
    Feature,
}

impl HidReportType {
    /// Wire code of this value.
    pub open spec fn spec_code(self) -> u8 {
        match self {
            HidReportType::Input => 0x01,
            HidReportType::Output => 0x02,
            HidReportType::Feature => 0x03,
        }
    }

    /// Wire code of this value.
    #[verifier::when_used_as_spec(spec_code)]
    pub fn code(self) -> (r: u8)
        ensures
            r == self.spec_code(),
    {
        match self {
            HidReportType::Input => 0x01,
            HidReportType::Output => 0x02,
            HidReportType::Feature => 0x03,
        }
    }

    /// The value a wire code stands for, if any.
    pub open spec fn spec_from_code(c: u8) -> Option<HidReportType> {
        if c == 0x01 {
            Some(HidReportType::Input)
        } else if c == 0x02 {
            Some(HidReportType::Output)
        } else if c == 0x03 {
            Some(HidReportType::Feature)
        } else {
            None
        }
    }

    /// The value a wire code stands for, if any.
    pub fn from_code(c: u8) -> (r: Option<HidReportType>)
        ensures
            r == HidReportType::spec_from_code(c),
    {
        if c == 0x01 {
            Some(HidReportType::Input)
        } else if c == 0x02 {
            Some(HidReportType::Output)
        } else if c == 0x03 {
            Some(HidReportType::Feature)
        } else {
            None
        }
    }
}

/// Subclass codes for HID interfaces.
#[derive(Debug, Copy, Clone, PartialEq, Eq, Structural)]
pub enum HidSubclass {
    NoSubclass,
    Boot,
}

impl HidSubclass {
    /// Wire code of this value.
    pub open spec fn spec_code(self) -> u8 {
        match self {
            HidSubclass::NoSubclass => 0x00,
            HidSubclass::Boot => 0x01,
        }
    }

    /// Wire code of this value.
    #[verifier::when_used_as_spec(spec_code)]
    pub fn code(self) -> (r: u8)
        ensures
            r == self.spec_code(),
    {
        match self {
            HidSubclass::NoSubclass => 0x00,
            HidSubclass::Boot => 0x01,
        }
    }
}

/// Boot-interface protocols; meaningful only with the boot subclass.
#[derive(Debug, Copy, Clone, PartialEq, Eq, Structural)]
pub enum InterfaceProtocol {
    NoProtocol,
    Keyboard,
    Mouse,
}

impl InterfaceProtocol {
    /// Wire code of this value.
    pub open spec fn spec_code(self) -> u8 {
        match self {
            InterfaceProtocol::NoProtocol => 0x00,
            InterfaceProtocol::Keyboard => 0x01,
            InterfaceProtocol::Mouse => 0x02,
        }
    }

    /// Wire code of this value.
    #[verifier::when_used_as_spec(spec_code)]
    pub fn code(self) -> (r: u8)
        ensures
            r == self.spec_code(),
    {
        match self {
            InterfaceProtocol::NoProtocol => 0x00,
            InterfaceProtocol::Keyboard => 0x01,
            InterfaceProtocol::Mouse => 0x02,
        }
    }
}

/// HID class descriptor types listed in an HID descriptor.
#[derive(Debug, Copy, Clone, PartialEq, Eq, Structural)]
pub enum DescriptorType {
    Report,
}

impl DescriptorType {
    /// Wire code of this value.
    pub open spec fn spec_code(self) -> u8 {
        match self {
            DescriptorType::Report => 34,
        }
    }

    /// Wire code of this value.
    #[verifier::when_used_as_spec(spec_code)]
    pub fn code(self) -> (r: u8)
        ensures
            r == self.spec_code(),
    {
        match self {
            DescriptorType::Report => 34,
        }
    }

    /// The value a wire code stands for, if any.
    pub open spec fn spec_from_code(c: u8) -> Option<DescriptorType> {
        if c == 34 {
            Some(DescriptorType::Report)
        } else {
            None
        }
    }

    /// The value a wire code stands for, if any.
    pub fn from_code(c: u8) -> (r: Option<DescriptorType>)
        ensures
            r == DescriptorType::spec_from_code(c),
    {
        if c == 34 {
            Some(DescriptorType::Report)
        } else {
            None
        }
    }
}

/// The 6-byte HID descriptor that follows an interface descriptor.
#[derive(Debug, Copy, Clone, PartialEq, Eq, Structural)]
pub struct HidDescriptor {
    /// Total size of the HID descriptor.
    pub b_length: u8,
    /// HID descriptor type, always 33.
    pub b_descriptor_type: u8,
    /// HID class specification release, binary-coded decimal.
    pub bcd_hid: u16,
    /// Country code of the localized hardware.
    pub b_country_code: u8,
    /// Number of class descriptors that follow; at least the report descriptor.
    pub b_num_descriptors: u8,
}

impl HidDescriptor {
    /// The packed 6-byte form.
    pub open spec fn spec_pack(self) -> Seq<u8> {
        seq![self.b_length, self.b_descriptor_type] + spec_le16(self.bcd_hid)
            + seq![self.b_country_code, self.b_num_descriptors]
    }

    /// An HID 1.10 descriptor announcing no class descriptors yet.
    pub fn new() -> (r: Self)
        ensures
            r == (HidDescriptor {
                b_length: 6u8,
                b_descriptor_type: 33u8,
                bcd_hid: 0x0110u16,
                b_country_code: 0u8,
                b_num_descriptors: 0u8,
            }),
    {
        HidDescriptor {
            b_length: 6,
            b_descriptor_type: 33,
            bcd_hid: 0x0110,
            b_country_code: 0,
            b_num_descriptors: 0,
        }
    }


    /// The descriptor read back from exactly 6 bytes; `Malformed` on any
    /// other length.
    pub open spec fn spec_unpack(b: Seq<u8>) -> Result<HidDescriptor, Error> {
        if b.len() != 6 {
            Err(Error::Malformed)
        } else {
            Ok(HidDescriptor {
                b_length: b[0],
                b_descriptor_type: b[1],
                bcd_hid: crate::bytes::spec_u16_of_le(b[2], b[3]),
                b_country_code: b[4],
                b_num_descriptors: b[5],
            })
        }
    }

    /// Read an HID descriptor back from its wire form.
    pub fn unpack(b: &[u8]) -> (r: Result<HidDescriptor, Error>)
        ensures
            r == HidDescriptor::spec_unpack(b@),
    {
        if b.len() != 6 {
            return Err(Error::Malformed);
        }
        Ok(HidDescriptor {
            b_length: b[0],
            b_descriptor_type: b[1],
            bcd_hid: crate::bytes::u16_of_le(b[2], b[3]),
            b_country_code: b[4],
            b_num_descriptors: b[5],
        })
    }

    /// Pack the descriptor into its 6-byte wire form.
    pub fn pack_to_vec(&self) -> (r: Vec<u8>)
        ensures
            r@ == self.spec_pack(),
            r@.len() == 6,
    {
        let mut out: Vec<u8> = Vec::new();
        out.push(self.b_length);
        out.push(self.b_descriptor_type);
        push_le16(&mut out, self.bcd_hid);
        out.push(self.b_country_code);
        out.push(self.b_num_descriptors);
        proof {
            assert(out@ =~= self.spec_pack());
        }
        out
    }
}

/// The 3-byte header that announces one class descriptor inside an HID
/// descriptor.
#[derive(Debug, Copy, Clone, PartialEq, Eq, Structural)]
pub struct HidReportDescriptorInfo {
    /// The class descriptor type announced.
    pub b_descriptor_type: DescriptorType,
    /// Length of the announced descriptor.
    pub w_descriptor_length: u16,
}

impl HidReportDescriptorInfo {
    /// The packed 3-byte form.
    pub open spec fn spec_pack(self) -> Seq<u8> {
        seq![self.b_descriptor_type.spec_code()] + spec_le16(self.w_descriptor_length)
    }

    /// A report descriptor header of length zero.
    pub fn new() -> (r: Self)
        ensures
            r == (HidReportDescriptorInfo {
                b_descriptor_type: DescriptorType::Report,
                w_descriptor_length: 0u16,
            }),
    {
        HidReportDescriptorInfo { b_descriptor_type: DescriptorType::Report, w_descriptor_length: 0 }
    }


    /// The header read back from exactly 3 bytes; `Malformed` on any
    /// other length, `InvalidEnum` when the type byte is no HID class
    /// descriptor type.
    pub open spec fn spec_unpack(b: Seq<u8>) -> Result<HidReportDescriptorInfo, Error> {
        if b.len() != 3 {
            Err(Error::Malformed)
        } else {
            match DescriptorType::spec_from_code(b[0]) {
                None => Err(Error::InvalidEnum),
                Some(t) => Ok(HidReportDescriptorInfo {
                    b_descriptor_type: t,
                    w_descriptor_length: crate::bytes::spec_u16_of_le(b[1], b[2]),
                }),
            }
        }
    }

    /// Read a report descriptor header back from its wire form.
    pub fn unpack(b: &[u8]) -> (r: Result<HidReportDescriptorInfo, Error>)
        ensures
            r == HidReportDescriptorInfo::spec_unpack(b@),
    {
        if b.len() != 3 {
            return Err(Error::Malformed);
        }
        let t = match DescriptorType::from_code(b[0]) {
            Some(t) => t,
            None => {
                return Err(Error::InvalidEnum);
            },
        };
        Ok(HidReportDescriptorInfo {
            b_descriptor_type: t,
            w_descriptor_length: crate::bytes::u16_of_le(b[1], b[2]),
        })
    }

    /// Pack the header into its 3-byte wire form.
    pub fn pack_to_vec(&self) -> (r: Vec<u8>)
        ensures
            r@ == self.spec_pack(),
            r@.len() == 3,
    {
        let mut out: Vec<u8> = Vec::new();
        out.push(self.b_descriptor_type.code());
        push_le16(&mut out, self.w_descriptor_length);
        proof {
            assert(out@ =~= self.spec_pack());
        }
        out
    }
}

/// The report descriptor headers as bytes, in order.
pub open spec fn spec_pack_report_infos(s: Seq<HidReportDescriptorInfo>) -> Seq<u8>
    decreases s.len(),
{
    if s.len() == 0 {
        Seq::empty()
    } else {
        spec_pack_report_infos(s.drop_last()) + s.last().spec_pack()
    }
}

/// The endpoint descriptors as bytes, in order.
pub open spec fn spec_pack_endpoints(s: Seq<EndpointDescriptor>) -> Seq<u8>
    decreases s.len(),
{
    if s.len() == 0 {
        Seq::empty()
    } else {
        spec_pack_endpoints(s.drop_last()) + s.last().spec_pack()
    }
}

/// An HID interface: its interface descriptor, HID descriptor, report
/// descriptor bodies with their headers, and endpoint descriptors.
#[derive(Debug, Clone)]
pub struct HidInterface {
    /// The 9-byte interface descriptor.
    pub iface: InterfaceDescriptor,
    /// The 6-byte HID descriptor.
    pub descriptor: HidDescriptor,
    /// Report descriptor bodies, returned verbatim on HID GET_DESCRIPTOR.
    pub report_descriptors: Vec<Vec<u8>>,
    /// One 3-byte header per report descriptor body.
    pub report_descriptor_info: Vec<HidReportDescriptorInfo>,
    /// Endpoint descriptors of this interface.
    pub endpoint_descriptors: Vec<EndpointDescriptor>,
}

impl HidInterface {
    /// The packed size: interface descriptor, HID descriptor, one header
    /// per report descriptor, one descriptor per endpoint.
    pub open spec fn spec_size(self) -> int {
        15 + 3 * self.report_descriptor_info@.len() as int + 7 * self.endpoint_descriptors@.len() as int
    }

    /// The packed form: interface descriptor, HID descriptor, report
    /// descriptor headers, endpoint descriptors.
    pub open spec fn spec_pack(self) -> Seq<u8> {
        self.iface.spec_pack() + self.descriptor.spec_pack() + spec_pack_report_infos(
            self.report_descriptor_info@,
        ) + spec_pack_endpoints(self.endpoint_descriptors@)
    }

    /// An HID interface with no report descriptors or endpoints yet.
    pub fn new() -> (r: Self)
        ensures
            r.iface == (InterfaceDescriptor {
                b_length: 9u8,
                b_descriptor_type: 4u8,
                b_interface_number: 0u8,
                b_alternate_setting: 0u8,
                b_num_endpoints: 1u8,
                b_interface_class: InterfaceClass::Hid,
                b_interface_subclass: 0u8,
                b_interface_protocol: 0u8,
                i_interface: 0u8,
            }),
            r.descriptor == (HidDescriptor {
                b_length: 6u8,
                b_descriptor_type: 33u8,
                bcd_hid: 0x0110u16,
                b_country_code: 0u8,
                b_num_descriptors: 0u8,
            }),
            r.report_descriptors@ == Seq::<Vec<u8>>::empty(),
            r.report_descriptor_info@ == Seq::<HidReportDescriptorInfo>::empty(),
            r.endpoint_descriptors@ == Seq::<EndpointDescriptor>::empty(),
    {
        HidInterface {
            iface: InterfaceDescriptor::new(),
            descriptor: HidDescriptor::new(),
            report_descriptors: Vec::new(),
            report_descriptor_info: Vec::new(),
            endpoint_descriptors: Vec::new(),
        }
    }

    /// Pack the interface into its wire form.
    pub fn pack_to_vec(&self) -> (r: Result<Vec<u8>, Error>)
        ensures
            r matches Ok(v) && v@ == self.spec_pack(),
    {
        let mut out = self.iface.pack_to_vec();
        let mut part = self.descriptor.pack_to_vec();
        out.append(&mut part);
        let mut i: usize = 0;
        while i < self.report_descriptor_info.len()
            invariant
                i <= self.report_descriptor_info@.len(),
                out@ == self.iface.spec_pack() + self.descriptor.spec_pack()
                    + spec_pack_report_infos(self.report_descriptor_info@.take(i as int)),
            decreases self.report_descriptor_info@.len() - i,
        {
            let mut part = self.report_descriptor_info[i].pack_to_vec();
            out.append(&mut part);
            proof {
                let s = self.report_descriptor_info@;
                assert(s.take(i + 1 as int).drop_last() =~= s.take(i as int));
                assert(s.take(i + 1 as int).last() == s[i as int]);
            }
            i = i + 1;
        }
        proof {
            let s = self.report_descriptor_info@;
            assert(s.take(s.len() as int) =~= s);
        }
        let mut j: usize = 0;
        while j < self.endpoint_descriptors.len()
            invariant
                j <= self.endpoint_descriptors@.len(),
                out@ == self.iface.spec_pack() + self.descriptor.spec_pack()
                    + spec_pack_report_infos(self.report_descriptor_info@)
                    + spec_pack_endpoints(self.endpoint_descriptors@.take(j as int)),
            decreases self.endpoint_descriptors@.len() - j,
        {
            let mut part = self.endpoint_descriptors[j].pack_to_vec();
            out.append(&mut part);
            proof {
                let s = self.endpoint_descriptors@;
                assert(s.take(j + 1 as int).drop_last() =~= s.take(j as int));
                assert(s.take(j + 1 as int).last() == s[j as int]);
            }
            j = j + 1;
        }
        proof {
            let s = self.endpoint_descriptors@;
            assert(s.take(s.len() as int) =~= s);
        }
        Ok(out)
    }

    /// The packed size of the interface.
    pub fn get_size(&self) -> (r: usize)
        requires
            self.spec_size() <= usize::MAX,
        ensures
            r == self.spec_size(),
    {
        9 + 6 + (3 * self.report_descriptor_info.len()) + (7 * self.endpoint_descriptors.len())
    }

    /// The interface class.
    pub fn get_class(&self) -> (r: InterfaceClass)
        ensures
            r == self.iface.b_interface_class,
    {
        self.iface.b_interface_class
    }

    /// Set the interface number of this interface.
    pub fn set_interface_number(&mut self, num: u8)
        ensures
            final(self).iface == (InterfaceDescriptor {
                b_interface_number: num,
                ..old(self).iface
            }),
            final(self).descriptor == old(self).descriptor,
            final(self).report_descriptors == old(self).report_descriptors,
            final(self).report_descriptor_info == old(self).report_descriptor_info,
            final(self).endpoint_descriptors == old(self).endpoint_descriptors,
    {
        self.iface.b_interface_number = num;
    }
}

/// Builder for an HID [`Interface`].
pub struct HidInterfaceBuilder {
    /// The interface built so far.
    pub iface: HidInterface,
}

impl HidInterfaceBuilder {
    /// Start from the empty HID interface.
    pub fn new() -> (r: Self)
        ensures
            r.iface.iface == (InterfaceDescriptor {
                b_length: 9u8,
                b_descriptor_type: 4u8,
                b_interface_number: 0u8,
                b_alternate_setting: 0u8,
                b_num_endpoints: 1u8,
                b_interface_class: InterfaceClass::Hid,
                b_interface_subclass: 0u8,
                b_interface_protocol: 0u8,
                i_interface: 0u8,
            }),
            r.iface.descriptor == (HidDescriptor {
                b_length: 6u8,
                b_descriptor_type: 33u8,
                bcd_hid: 0x0110u16,
                b_country_code: 0u8,
                b_num_descriptors: 0u8,
            }),
            r.iface.report_descriptors@ == Seq::<Vec<u8>>::empty(),
            r.iface.report_descriptor_info@ == Seq::<HidReportDescriptorInfo>::empty(),
            r.iface.endpoint_descriptors@ == Seq::<EndpointDescriptor>::empty(),
    {
        HidInterfaceBuilder { iface: HidInterface::new() }
    }

    /// The built interface.
    pub fn build(self) -> (r: Interface)
        ensures
            r == Interface::Hid(self.iface),
    {
        Interface::Hid(self.iface)
    }

    /// Set the interface subclass.
    pub fn subclass(self, subclass: HidSubclass) -> (r: Self)
        ensures
            r.iface.iface == (InterfaceDescriptor {
                b_interface_subclass: subclass.spec_code(),
                ..self.iface.iface
            }),
            r.iface.descriptor == self.iface.descriptor,
            r.iface.report_descriptors == self.iface.report_descriptors,
            r.iface.report_descriptor_info == self.iface.report_descriptor_info,
            r.iface.endpoint_descriptors == self.iface.endpoint_descriptors,
    {
        let mut iface = self.iface;
        iface.iface.b_interface_subclass = subclass.code();
        HidInterfaceBuilder { iface }
    }

    /// Set the interface protocol.
    pub fn protocol(self, protocol: InterfaceProtocol) -> (r: Self)
        ensures
            r.iface.iface == (InterfaceDescriptor {
                b_interface_protocol: protocol.spec_code(),
                ..self.iface.iface
            }),
            r.iface.descriptor == self.iface.descriptor,
            r.iface.report_descriptors == self.iface.report_descriptors,
            r.iface.report_descriptor_info == self.iface.report_descriptor_info,
            r.iface.endpoint_descriptors == self.iface.endpoint_descriptors,
    {
        let mut iface = self.iface;
        iface.iface.b_interface_protocol = protocol.code();
        HidInterfaceBuilder { iface }
    }

    /// Set the country code of the localized hardware.
    pub fn country_code(self, code: u8) -> (r: Self)
        ensures
            r.iface.descriptor == (HidDescriptor { b_country_code: code, ..self.iface.descriptor }),
            r.iface.iface == self.iface.iface,
            r.iface.report_descriptors == self.iface.report_descriptors,
            r.iface.report_descriptor_info == self.iface.report_descriptor_info,
            r.iface.endpoint_descriptors == self.iface.endpoint_descriptors,
    {
        let mut iface = self.iface;
        iface.descriptor.b_country_code = code;
        HidInterfaceBuilder { iface }
    }

    /// Add a report descriptor body: records the body, announces it with a
    /// 3-byte header, and grows the HID descriptor accordingly.
    pub fn report_descriptor(self, report_desc: Vec<u8>) -> (r: Self)
        requires
            report_desc@.len() <= 0xFFFF,
            self.iface.descriptor.b_length + 3 <= 255,
            self.iface.descriptor.b_num_descriptors + 1 <= 255,
        ensures
            r.iface.report_descriptors@ == self.iface.report_descriptors@.push(report_desc),
            r.iface.report_descriptor_info@ == self.iface.report_descriptor_info@.push(
                HidReportDescriptorInfo {
                    b_descriptor_type: DescriptorType::Report,
                    w_descriptor_length: report_desc@.len() as u16,
                },
            ),
            r.iface.descriptor == (HidDescriptor {
                b_length: (self.iface.descriptor.b_length + 3) as u8,
                b_num_descriptors: (self.iface.descriptor.b_num_descriptors + 1) as u8,
                ..self.iface.descriptor
            }),
            r.iface.iface == self.iface.iface,
            r.iface.endpoint_descriptors == self.iface.endpoint_descriptors,
    {
        let mut iface = self.iface;
        let len = report_desc.len();
        let info = HidReportDescriptorInfo {
            b_descriptor_type: DescriptorType::Report,
            w_descriptor_length: len as u16,
        };
        iface.report_descriptors.push(report_desc);
        iface.report_descriptor_info.push(info);
        iface.descriptor.b_num_descriptors = iface.descriptor.b_num_descriptors + 1;
        iface.descriptor.b_length = iface.descriptor.b_length + 3;
        HidInterfaceBuilder { iface }
    }

    /// Add an endpoint descriptor and keep the endpoint count current.
    pub fn endpoint_descriptor(self, descriptor: EndpointDescriptor) -> (r: Self)
        requires
            self.iface.endpoint_descriptors@.len() + 1 <= 255,
        ensures
            r.iface.endpoint_descriptors@ == self.iface.endpoint_descriptors@.push(descriptor),
            r.iface.iface == (InterfaceDescriptor {
                b_num_endpoints: (self.iface.endpoint_descriptors@.len() + 1) as u8,
                ..self.iface.iface
            }),
            r.iface.descriptor == self.iface.descriptor,
            r.iface.report_descriptors == self.iface.report_descriptors,
            r.iface.report_descriptor_info == self.iface.report_descriptor_info,
    {
        let mut iface = self.iface;
        iface.endpoint_descriptors.push(descriptor);
        iface.iface.b_num_endpoints = iface.endpoint_descriptors.len() as u8;
        HidInterfaceBuilder { iface }
    }
}


/// A GET_DESCRIPTOR setup packet reinterpreted for an HID interface:
/// wValue splits into an HID descriptor type and an index, wIndex selects
/// the interface, wLength bounds the returned descriptor.
#[derive(Debug, Copy, Clone, PartialEq, Eq, Structural)]
pub struct HidGetDescriptorRequest {
    pub bm_request_type_direction: Direction,
    pub bm_request_type_kind: Type,
    pub bm_request_type_recipient: Recipient,
    pub b_request: StandardRequest,
    /// Low byte of wValue: index of the descriptor asked for.
    pub b_descriptor_index: u8,
    /// High byte of wValue: the HID descriptor type asked for.
    pub b_descriptor_type: HidDescriptorType,
    /// wIndex: the interface the request addresses.
    pub w_interface_number: u16,
    /// wLength: most bytes the host will take.
    pub w_descriptor_length: u16,
}

impl HidGetDescriptorRequest {
    /// The reinterpretation of a setup packet; `InvalidEnum` when the high
    /// byte of wValue is no HID descriptor type.
    pub open spec fn spec_from_setup(req: SetupRequest) -> Result<HidGetDescriptorRequest, Error> {
        match HidDescriptorType::spec_from_code((req.w_value as int / 256) as u8) {
            None => Err(Error::InvalidEnum),
            Some(t) => Ok(HidGetDescriptorRequest {
                bm_request_type_direction: req.bm_request_type_direction,
                bm_request_type_kind: req.bm_request_type_kind,
                bm_request_type_recipient: req.bm_request_type_recipient,
                b_request: req.b_request,
                b_descriptor_index: (req.w_value as int % 256) as u8,
                b_descriptor_type: t,
                w_interface_number: req.w_index,
                w_descriptor_length: req.w_length,
            }),
        }
    }

    /// Reinterpret a setup packet as an HID GET_DESCRIPTOR request.
    pub fn from_setup(req: &SetupRequest) -> (r: Result<HidGetDescriptorRequest, Error>)
        ensures
            r == HidGetDescriptorRequest::spec_from_setup(*req),
    {
        let t = match HidDescriptorType::from_code((req.w_value / 256) as u8) {
            Some(t) => t,
            None => {
                return Err(Error::InvalidEnum);
            },
        };
        Ok(HidGetDescriptorRequest {
            bm_request_type_direction: req.bm_request_type_direction,
            bm_request_type_kind: req.bm_request_type_kind,
            bm_request_type_recipient: req.bm_request_type_recipient,
            b_request: req.b_request,
            b_descriptor_index: (req.w_value % 256) as u8,
            b_descriptor_type: t,
            w_interface_number: req.w_index,
            w_descriptor_length: req.w_length,
        })
    }
}

impl HidRequestType {
    /// The HID request a standard request code stands for; `Unknown` for
    /// codes no HID request uses.
    pub open spec fn spec_from_standard(req: StandardRequest) -> HidRequestType {
        match HidRequestType::spec_from_code(req.spec_code()) {
            Some(t) => t,
            None => HidRequestType::Unknown,
        }
    }

    /// The HID request a standard request code stands for.
    pub fn from_standard(req: StandardRequest) -> (r: HidRequestType)
        ensures
            r == HidRequestType::spec_from_standard(req),
    {
        match HidRequestType::from_code(req.code()) {
            Some(t) => t,
            None => HidRequestType::Unknown,
        }
    }
}

/// A setup packet reinterpreted as a SET_IDLE request: wValue splits into
/// a report identifier and a duration, wIndex selects the interface.
#[derive(Debug, Copy, Clone, PartialEq, Eq, Structural)]
pub struct HidSetIdleRequest {
    pub bm_request_type_direction: Direction,
    pub bm_request_type_kind: Type,
    pub bm_request_type_recipient: Recipient,
    pub b_request: HidRequestType,
    /// Low byte of wValue: the report silenced, 0 for all.
    pub report_id: u8,
    /// High byte of wValue: how long to stay idle.
    pub duration: u8,
    /// wIndex: the interface the request addresses.
    pub interface: u16,
    /// wLength, unused by SET_IDLE.
    pub _unused: u16,
}

impl HidSetIdleRequest {
    /// The reinterpretation of a setup packet.
    pub open spec fn spec_from_setup(req: SetupRequest) -> HidSetIdleRequest {
        HidSetIdleRequest {
            bm_request_type_direction: req.bm_request_type_direction,
            bm_request_type_kind: req.bm_request_type_kind,
            bm_request_type_recipient: req.bm_request_type_recipient,
            b_request: HidRequestType::spec_from_standard(req.b_request),
            report_id: (req.w_value as int % 256) as u8,
            duration: (req.w_value as int / 256) as u8,
            interface: req.w_index,
            _unused: req.w_length,
        }
    }

    /// Reinterpret a setup packet as a SET_IDLE request.
    pub fn from_setup(req: &SetupRequest) -> (r: HidSetIdleRequest)
        ensures
            r == HidSetIdleRequest::spec_from_setup(*req),
    {
        HidSetIdleRequest {
            bm_request_type_direction: req.bm_request_type_direction,
            bm_request_type_kind: req.bm_request_type_kind,
            bm_request_type_recipient: req.bm_request_type_recipient,
            b_request: HidRequestType::from_standard(req.b_request),
            report_id: (req.w_value % 256) as u8,
            duration: (req.w_value / 256) as u8,
            interface: req.w_index,
            _unused: req.w_length,
        }
    }
}

/// A setup packet reinterpreted as a GET_REPORT or SET_REPORT request:
/// wValue splits into a report identifier and a report type.
#[derive(Debug, Copy, Clone, PartialEq, Eq, Structural)]
pub struct HidReportRequest {
    pub bm_request_type_direction: Direction,
    pub bm_request_type_kind: Type,
    pub bm_request_type_recipient: Recipient,
    pub b_request: HidRequestType,
    /// Low byte of wValue: the report asked for, 0 for the only one.
    pub report_id: u8,
    /// High byte of wValue: input, output or feature report.
    pub report_type: HidReportType,
    /// wIndex: the interface the request addresses.
    pub interface: u16,
    /// wLength: length of the report.
    pub report_length: u16,
}

impl HidReportRequest {
    /// The reinterpretation of a setup packet; `InvalidEnum` when the high
    /// byte of wValue is no HID report type.
    pub open spec fn spec_from_setup(req: SetupRequest) -> Result<HidReportRequest, Error> {
        match HidReportType::spec_from_code((req.w_value as int / 256) as u8) {
            None => Err(Error::InvalidEnum),
            Some(t) => Ok(HidReportRequest {
                bm_request_type_direction: req.bm_request_type_direction,
                bm_request_type_kind: req.bm_request_type_kind,
                bm_request_type_recipient: req.bm_request_type_recipient,
                b_request: HidRequestType::spec_from_standard(req.b_request),
                report_id: (req.w_value as int % 256) as u8,
                report_type: t,
                interface: req.w_index,
                report_length: req.w_length,
            }),
        }
    }

    /// Reinterpret a setup packet as a report request.
    pub fn from_setup(req: &SetupRequest) -> (r: Result<HidReportRequest, Error>)
        ensures
            r == HidReportRequest::spec_from_setup(*req),
    {
        let t = match HidReportType::from_code((req.w_value / 256) as u8) {
            Some(t) => t,
            None => {
                return Err(Error::InvalidEnum);
            },
        };
        Ok(HidReportRequest {
            bm_request_type_direction: req.bm_request_type_direction,
            bm_request_type_kind: req.bm_request_type_kind,
            bm_request_type_recipient: req.bm_request_type_recipient,
            b_request: HidRequestType::from_standard(req.b_request),
            report_id: (req.w_value % 256) as u8,
            report_type: t,
            interface: req.w_index,
            report_length: req.w_length,
        })
    }

    /// The GET_REPORT request announcing one input report of the given
    /// bytes on interface 2.
    pub fn new(report: &[u8]) -> (r: Self)
        requires
            report@.len() <= 0xFFFF,
        ensures
            r == (HidReportRequest {
                bm_request_type_direction: Direction::In,
                bm_request_type_kind: Type::Class,
                bm_request_type_recipient: Recipient::Interface,
                b_request: HidRequestType::GetReport,
                report_id: 0u8,
                report_type: HidReportType::Input,
                interface: 2u16,
                report_length: report@.len() as u16,
            }),
    {
        HidReportRequest {
            bm_request_type_direction: Direction::In,
            bm_request_type_kind: Type::Class,
            bm_request_type_recipient: Recipient::Interface,
            b_request: HidRequestType::GetReport,
            report_id: 0,
            report_type: HidReportType::Input,
            interface: 2,
            report_length: report.len() as u16,
        }
    }
}

/// A Human Interface Device request, as far as this library interprets
/// them.
#[derive(Debug, Copy, Clone, PartialEq, Eq, Structural)]
pub enum HidRequest {
    Unknown,
    GetReport(HidReportRequest),
    SetReport(HidReportRequest),
    SetIdle(HidSetIdleRequest),
}

impl HidRequest {
    /// The interpretation of a setup packet: report and idle requests are
    /// decoded, the reserved and unimplemented request codes are refused
    /// with `UnknownRequest`, and codes outside the HID set are `Unknown`.
    pub open spec fn spec_from_setup(req: SetupRequest) -> Result<HidRequest, Error> {
        match HidRequestType::spec_from_standard(req.b_request) {
            HidRequestType::GetReport => match HidReportRequest::spec_from_setup(req) {
                Ok(r) => Ok(HidRequest::GetReport(r)),
                Err(e) => Err(e),
            },
            HidRequestType::SetReport => match HidReportRequest::spec_from_setup(req) {
                Ok(r) => Ok(HidRequest::SetReport(r)),
                Err(e) => Err(e),
            },
            HidRequestType::SetIdle => Ok(HidRequest::SetIdle(HidSetIdleRequest::spec_from_setup(req))),
            HidRequestType::GetIdle => Err(Error::UnknownRequest),
            HidRequestType::GetProtocol => Err(Error::UnknownRequest),
            HidRequestType::SetProtocol => Err(Error::UnknownRequest),
            _ => Ok(HidRequest::Unknown),
        }
    }

    /// Interpret a setup packet as an HID request.
    pub fn from_setup(req: &SetupRequest) -> (r: Result<HidRequest, Error>)
        ensures
            r == HidRequest::spec_from_setup(*req),
    {
        match HidRequestType::from_standard(req.b_request) {
            HidRequestType::GetReport => match HidReportRequest::from_setup(req) {
                Ok(r) => Ok(HidRequest::GetReport(r)),
                Err(e) => Err(e),
            },
            HidRequestType::SetReport => match HidReportRequest::from_setup(req) {
                Ok(r) => Ok(HidRequest::SetReport(r)),
                Err(e) => Err(e),
            },
            HidRequestType::SetIdle => Ok(HidRequest::SetIdle(HidSetIdleRequest::from_setup(req))),
            HidRequestType::GetIdle => Err(Error::UnknownRequest),
            HidRequestType::GetProtocol => Err(Error::UnknownRequest),
            HidRequestType::SetProtocol => Err(Error::UnknownRequest),
            _ => Ok(HidRequest::Unknown),
        }
    }
}


/// Unpacking a packed HID descriptor yields the descriptor itself.
pub proof fn lemma_hid_descriptor_roundtrip(d: HidDescriptor)
    ensures
        HidDescriptor::spec_unpack(d.spec_pack()) == Ok::<HidDescriptor, Error>(d),
{
    crate::bytes::lemma_le16_roundtrip(d.bcd_hid);
}

/// Unpacking a packed report descriptor header yields the header itself.
pub proof fn lemma_report_descriptor_info_roundtrip(d: HidReportDescriptorInfo)
    ensures
        HidReportDescriptorInfo::spec_unpack(d.spec_pack()) == Ok::<
            HidReportDescriptorInfo,
            Error,
        >(d),
{
    crate::bytes::lemma_le16_roundtrip(d.w_descriptor_length);
}

} // verus!
