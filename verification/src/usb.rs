//! USB standard descriptors and their byte-exact codec.
//!
//! Multi-byte descriptor fields are little-endian on the wire.  Packing
//! produces the byte stream the USB host expects; unpacking validates the
//! length and reads the fields back.

use vstd::prelude::*;

use crate::Error;
use crate::bytes::{lo16, hi16, spec_le16, push_le16, spec_u16_of_le, u16_of_le};
use vstd::string::StringSliceAdditionalSpecFns;
use vstd::string::StrSliceExecFns;

verus! {

/// Number of OUT endpoints a device can have.
pub const ENDPOINT_MAX_COUNT_OUT: u8 = 16;

/// Number of IN endpoints a device can have.
pub const ENDPOINT_MAX_COUNT_IN: u8 = 16;

/// Number of endpoints a device can have.
pub const ENDPOINT_MAX_COUNT: u8 = 32;

/// Set in bmAttributes of a configuration that supports remote wakeup.
pub const REMOTE_WAKEUP: u8 = 0x20;

/// Set in bmAttributes of a self-powered configuration.
pub const SELF_POWERED: u8 = 0x40;

/// Request type (bRequest)
#[derive(Debug, Copy, Clone, PartialEq, Eq, Structural)]
pub enum StandardRequest {
    GetStatus,
    ClearFeature,
    _Reserved0,
    SetFeature,
    _Reserved1,
    SetAddress,
    GetDescriptor,
    SetDescriptor,
    GetConfiguration,
    SetConfiguration,
    GetInterface,
    SetInterface,
    SynchFrame,
}

impl StandardRequest {
    /// Wire code of this value.
    pub open spec fn spec_code(self) -> u8 {
        match self {
            StandardRequest::GetStatus => 0,
            StandardRequest::ClearFeature => 1,
            StandardRequest::_Reserved0 => 2,
            StandardRequest::SetFeature => 3,
            StandardRequest::_Reserved1 => 4,
            StandardRequest::SetAddress => 5,
            StandardRequest::GetDescriptor => 6,
            StandardRequest::SetDescriptor => 7,
            StandardRequest::GetConfiguration => 8,
            StandardRequest::SetConfiguration => 9,
            StandardRequest::GetInterface => 10,
            StandardRequest::SetInterface => 11,
            StandardRequest::SynchFrame => 12,
        }
    }

    /// Wire code of this value.
    #[verifier::when_used_as_spec(spec_code)]
    pub fn code(self) -> (r: u8)
        ensures
            r == self.spec_code(),
    {
        match self {
            StandardRequest::GetStatus => 0,
            StandardRequest::ClearFeature => 1,
            StandardRequest::_Reserved0 => 2,
            StandardRequest::SetFeature => 3,
            StandardRequest::_Reserved1 => 4,
            StandardRequest::SetAddress => 5,
            StandardRequest::GetDescriptor => 6,
            StandardRequest::SetDescriptor => 7,
            StandardRequest::GetConfiguration => 8,
            StandardRequest::SetConfiguration => 9,
            StandardRequest::GetInterface => 10,
            StandardRequest::SetInterface => 11,
            StandardRequest::SynchFrame => 12,
        }
    }

    /// The value a wire code stands for, if any.
    pub open spec fn spec_from_code(c: u8) -> Option<StandardRequest> {
        if c == 0 {
            Some(StandardRequest::GetStatus)
        } else if c == 1 {
            Some(StandardRequest::ClearFeature)
        } else if c == 2 {
            Some(StandardRequest::_Reserved0)
        } else if c == 3 {
            Some(StandardRequest::SetFeature)
        } else if c == 4 {
            Some(StandardRequest::_Reserved1)
        } else if c == 5 {
            Some(StandardRequest::SetAddress)
        } else if c == 6 {
            Some(StandardRequest::GetDescriptor)
        } else if c == 7 {
            Some(StandardRequest::SetDescriptor)
        } else if c == 8 {
            Some(StandardRequest::GetConfiguration)
        } else if c == 9 {
            Some(StandardRequest::SetConfiguration)
        } else if c == 10 {
            Some(StandardRequest::GetInterface)
        } else if c == 11 {
            Some(StandardRequest::SetInterface)
        } else if c == 12 {
            Some(StandardRequest::SynchFrame)
        } else {
            None
        }
    }

    /// The value a wire code stands for, if any.
    pub fn from_code(c: u8) -> (r: Option<StandardRequest>)
        ensures
            r == StandardRequest::spec_from_code(c),
    {
        if c == 0 {
            Some(StandardRequest::GetStatus)
        } else if c == 1 {
            Some(StandardRequest::ClearFeature)
        } else if c == 2 {
            Some(StandardRequest::_Reserved0)
        } else if c == 3 {
            Some(StandardRequest::SetFeature)
        } else if c == 4 {
            Some(StandardRequest::_Reserved1)
        } else if c == 5 {
            Some(StandardRequest::SetAddress)
        } else if c == 6 {
            Some(StandardRequest::GetDescriptor)
        } else if c == 7 {
            Some(StandardRequest::SetDescriptor)
        } else if c == 8 {
            Some(StandardRequest::GetConfiguration)
        } else if c == 9 {
            Some(StandardRequest::SetConfiguration)
        } else if c == 10 {
            Some(StandardRequest::GetInterface)
        } else if c == 11 {
            Some(StandardRequest::SetInterface)
        } else if c == 12 {
            Some(StandardRequest::SynchFrame)
        } else {
            None
        }
    }
}

/// Request direction, always from the perspective of the host.
#[derive(Debug, Copy, Clone, PartialEq, Eq, Structural)]
pub enum Direction {
    Out,
    In,
}

impl Direction {
    /// Wire code of this value.
    pub open spec fn spec_code(self) -> u8 {
        match self {
            Direction::Out => 0,
            Direction::In => 1,
        }
    }

    /// Wire code of this value.
    #[verifier::when_used_as_spec(spec_code)]
    pub fn code(self) -> (r: u8)
        ensures
            r == self.spec_code(),
    {
        match self {
            Direction::Out => 0,
            Direction::In => 1,
        }
    }

    /// The value a wire code stands for, if any.
    pub open spec fn spec_from_code(c: u8) -> Option<Direction> {
        if c == 0 {
            Some(Direction::Out)
        } else if c == 1 {
            Some(Direction::In)
        } else {
            None
        }
    }

    /// The value a wire code stands for, if any.
    pub fn from_code(c: u8) -> (r: Option<Direction>)
        ensures
            r == Direction::spec_from_code(c),
    {
        if c == 0 {
            Some(Direction::Out)
        } else if c == 1 {
            Some(Direction::In)
        } else {
            None
        }
    }
}

/// Request type held in bits 5..6 of bmRequestType.
#[derive(Debug, Copy, Clone, PartialEq, Eq, Structural)]
pub enum Type {
    Standard,
    Class,
    Vendor,
    Reserved,
}

impl Type {
    /// Wire code of this value.
    pub open spec fn spec_code(self) -> u8 {
        match self {
            Type::Standard => 0,
            Type::Class => 1,
            Type::Vendor => 2,
            Type::Reserved => 3,
        }
    }

    /// Wire code of this value.
    #[verifier::when_used_as_spec(spec_code)]
    pub fn code(self) -> (r: u8)
        ensures
            r == self.spec_code(),
    {
        match self {
            Type::Standard => 0,
            Type::Class => 1,
            Type::Vendor => 2,
            Type::Reserved => 3,
        }
    }

    /// The value a wire code stands for, if any.
    pub open spec fn spec_from_code(c: u8) -> Option<Type> {
        if c == 0 {
            Some(Type::Standard)
        } else if c == 1 {
            Some(Type::Class)
        } else if c == 2 {
            Some(Type::Vendor)
        } else if c == 3 {
            Some(Type::Reserved)
        } else {
            None
        }
    }

    /// The value a wire code stands for, if any.
    pub fn from_code(c: u8) -> (r: Option<Type>)
        ensures
            r == Type::spec_from_code(c),
    {
        if c == 0 {
            Some(Type::Standard)
        } else if c == 1 {
            Some(Type::Class)
        } else if c == 2 {
            Some(Type::Vendor)
        } else if c == 3 {
            Some(Type::Reserved)
        } else {
            None
        }
    }
}

/// Request recipient held in the low five bits of bmRequestType.
#[derive(Debug, Copy, Clone, PartialEq, Eq, Structural)]
pub enum Recipient {
    Device,
    Interface,
    Endpoint,
    Other,
}

impl Recipient {
    /// Wire code of this value.
    pub open spec fn spec_code(self) -> u8 {
        match self {
            Recipient::Device => 0x00,
            Recipient::Interface => 0x01,
            Recipient::Endpoint => 0x02,
            Recipient::Other => 0x03,
        }
    }

    /// Wire code of this value.
    #[verifier::when_used_as_spec(spec_code)]
    pub fn code(self) -> (r: u8)
        ensures
            r == self.spec_code(),
    {
        match self {
            Recipient::Device => 0x00,
            Recipient::Interface => 0x01,
            Recipient::Endpoint => 0x02,
            Recipient::Other => 0x03,
        }
    }

    /// The value a wire code stands for, if any.
    pub open spec fn spec_from_code(c: u8) -> Option<Recipient> {
        if c == 0x00 {
            Some(Recipient::Device)
        } else if c == 0x01 {
            Some(Recipient::Interface)
        } else if c == 0x02 {
            Some(Recipient::Endpoint)
        } else if c == 0x03 {
            Some(Recipient::Other)
        } else {
            None
        }
    }

    /// The value a wire code stands for, if any.
    pub fn from_code(c: u8) -> (r: Option<Recipient>)
        ensures
            r == Recipient::spec_from_code(c),
    {
        if c == 0x00 {
            Some(Recipient::Device)
        } else if c == 0x01 {
            Some(Recipient::Interface)
        } else if c == 0x02 {
            Some(Recipient::Endpoint)
        } else if c == 0x03 {
            Some(Recipient::Other)
        } else {
            None
        }
    }
}

/// Descriptor type (bDescriptorType, and the high byte of wValue).
#[derive(Debug, Copy, Clone, PartialEq, Eq, Structural)]
pub enum DescriptorType {
    Device,
    Configuration,
    String,
    Interface,
    Endpoint,
    DeviceQualifier,
    OtherSpeedConfiguration,
    InterfacePower,
    Debug,
}

impl DescriptorType {
    /// Wire code of this value.
    pub open spec fn spec_code(self) -> u8 {
        match self {
            DescriptorType::Device => 1,
            DescriptorType::Configuration => 2,
            DescriptorType::String => 3,
            DescriptorType::Interface => 4,
            DescriptorType::Endpoint => 5,
            DescriptorType::DeviceQualifier => 6,
            DescriptorType::OtherSpeedConfiguration => 7,
            DescriptorType::InterfacePower => 8,
            DescriptorType::Debug => 10,
        }
    }

    /// Wire code of this value.
    #[verifier::when_used_as_spec(spec_code)]
    pub fn code(self) -> (r: u8)
        ensures
            r == self.spec_code(),
    {
        match self {
            DescriptorType::Device => 1,
            DescriptorType::Configuration => 2,
            DescriptorType::String => 3,
            DescriptorType::Interface => 4,
            DescriptorType::Endpoint => 5,
            DescriptorType::DeviceQualifier => 6,
            DescriptorType::OtherSpeedConfiguration => 7,
            DescriptorType::InterfacePower => 8,
            DescriptorType::Debug => 10,
        }
    }

    /// The value a wire code stands for, if any.
    pub open spec fn spec_from_code(c: u8) -> Option<DescriptorType> {
        if c == 1 {
            Some(DescriptorType::Device)
        } else if c == 2 {
            Some(DescriptorType::Configuration)
        } else if c == 3 {
            Some(DescriptorType::String)
        } else if c == 4 {
            Some(DescriptorType::Interface)
        } else if c == 5 {
            Some(DescriptorType::Endpoint)
        } else if c == 6 {
            Some(DescriptorType::DeviceQualifier)
        } else if c == 7 {
            Some(DescriptorType::OtherSpeedConfiguration)
        } else if c == 8 {
            Some(DescriptorType::InterfacePower)
        } else if c == 10 {
            Some(DescriptorType::Debug)
        } else {
            None
        }
    }

    /// The value a wire code stands for, if any.
    pub fn from_code(c: u8) -> (r: Option<DescriptorType>)
        ensures
            r == DescriptorType::spec_from_code(c),
    {
        if c == 1 {
            Some(DescriptorType::Device)
        } else if c == 2 {
            Some(DescriptorType::Configuration)
        } else if c == 3 {
            Some(DescriptorType::String)
        } else if c == 4 {
            Some(DescriptorType::Interface)
        } else if c == 5 {
            Some(DescriptorType::Endpoint)
        } else if c == 6 {
            Some(DescriptorType::DeviceQualifier)
        } else if c == 7 {
            Some(DescriptorType::OtherSpeedConfiguration)
        } else if c == 8 {
            Some(DescriptorType::InterfacePower)
        } else if c == 10 {
            Some(DescriptorType::Debug)
        } else {
            None
        }
    }
}

/// Class code assigned by the USB-IF.
#[derive(Debug, Copy, Clone, PartialEq, Eq, Structural)]
pub enum DeviceClass {
    UseInterface,
    Cdc,
    Hub,
    Billboard,
    Diagnostic,
    Miscellaneous,
    VendorSpecific,
}

impl DeviceClass {
    /// Wire code of this value.
    pub open spec fn spec_code(self) -> u8 {
        match self {
            DeviceClass::UseInterface => 0x00,
            DeviceClass::Cdc => 0x02,
            DeviceClass::Hub => 0x09,
            DeviceClass::Billboard => 0x11,
            DeviceClass::Diagnostic => 0xdc,
            DeviceClass::Miscellaneous => 0xef,
            DeviceClass::VendorSpecific => 0xff,
        }
    }

    /// Wire code of this value.
    #[verifier::when_used_as_spec(spec_code)]
    pub fn code(self) -> (r: u8)
        ensures
            r == self.spec_code(),
    {
        match self {
            DeviceClass::UseInterface => 0x00,
            DeviceClass::Cdc => 0x02,
            DeviceClass::Hub => 0x09,
            DeviceClass::Billboard => 0x11,
            DeviceClass::Diagnostic => 0xdc,
            DeviceClass::Miscellaneous => 0xef,
            DeviceClass::VendorSpecific => 0xff,
        }
    }
}

/// Interface class code assigned by the USB-IF.
#[derive(Debug, Copy, Clone, PartialEq, Eq, Structural)]
pub enum InterfaceClass {
    Audio,
    Cdc,
    Hid,
    Physical,
    Image,
    Printer,
    MassStorage,
    CdcData,
    SmartCard,
    ContentSecurity,
    Video,
    PersonalHealthcare,
    AudioVideo,
    UsbTypeCBridge,
    UsbBulkDisplayProtocol,
    MctpOverUsbProtocol,
    I3C,
    Diagnostic,
    WirelessController,
    Miscellaneous,
    ApplicationSpecific,
    VendorSpecific,
}

impl InterfaceClass {
    /// Wire code of this value.
    pub open spec fn spec_code(self) -> u8 {
        match self {
            InterfaceClass::Audio => 0x01,
            InterfaceClass::Cdc => 0x02,
            InterfaceClass::Hid => 0x03,
            InterfaceClass::Physical => 0x05,
            InterfaceClass::Image => 0x06,
            InterfaceClass::Printer => 0x07,
            InterfaceClass::MassStorage => 0x08,
            InterfaceClass::CdcData => 0x0a,
            InterfaceClass::SmartCard => 0x0b,
            InterfaceClass::ContentSecurity => 0x0d,
            InterfaceClass::Video => 0x0e,
            InterfaceClass::PersonalHealthcare => 0x0f,
            InterfaceClass::AudioVideo => 0x10,
            InterfaceClass::UsbTypeCBridge => 0x12,
            InterfaceClass::UsbBulkDisplayProtocol => 0x13,
            InterfaceClass::MctpOverUsbProtocol => 0x14,
            InterfaceClass::I3C => 0x3c,
            InterfaceClass::Diagnostic => 0xdc,
            InterfaceClass::WirelessController => 0xe0,
            InterfaceClass::Miscellaneous => 0xef,
            InterfaceClass::ApplicationSpecific => 0xfe,
            InterfaceClass::VendorSpecific => 0xff,
        }
    }

    /// Wire code of this value.
    #[verifier::when_used_as_spec(spec_code)]
    pub fn code(self) -> (r: u8)
        ensures
            r == self.spec_code(),
    {
        match self {
            InterfaceClass::Audio => 0x01,
            InterfaceClass::Cdc => 0x02,
            InterfaceClass::Hid => 0x03,
            InterfaceClass::Physical => 0x05,
            InterfaceClass::Image => 0x06,
            InterfaceClass::Printer => 0x07,
            InterfaceClass::MassStorage => 0x08,
            InterfaceClass::CdcData => 0x0a,
            InterfaceClass::SmartCard => 0x0b,
            InterfaceClass::ContentSecurity => 0x0d,
            InterfaceClass::Video => 0x0e,
            InterfaceClass::PersonalHealthcare => 0x0f,
            InterfaceClass::AudioVideo => 0x10,
            InterfaceClass::UsbTypeCBridge => 0x12,
            InterfaceClass::UsbBulkDisplayProtocol => 0x13,
            InterfaceClass::MctpOverUsbProtocol => 0x14,
            InterfaceClass::I3C => 0x3c,
            InterfaceClass::Diagnostic => 0xdc,
            InterfaceClass::WirelessController => 0xe0,
            InterfaceClass::Miscellaneous => 0xef,
            InterfaceClass::ApplicationSpecific => 0xfe,
            InterfaceClass::VendorSpecific => 0xff,
        }
    }

    /// The value a wire code stands for, if any.
    pub open spec fn spec_from_code(c: u8) -> Option<InterfaceClass> {
        if c == 0x01 {
            Some(InterfaceClass::Audio)
        } else if c == 0x02 {
            Some(InterfaceClass::Cdc)
        } else if c == 0x03 {
            Some(InterfaceClass::Hid)
        } else if c == 0x05 {
            Some(InterfaceClass::Physical)
        } else if c == 0x06 {
            Some(InterfaceClass::Image)
        } else if c == 0x07 {
            Some(InterfaceClass::Printer)
        } else if c == 0x08 {
            Some(InterfaceClass::MassStorage)
        } else if c == 0x0a {
            Some(InterfaceClass::CdcData)
        } else if c == 0x0b {
            Some(InterfaceClass::SmartCard)
        } else if c == 0x0d {
            Some(InterfaceClass::ContentSecurity)
        } else if c == 0x0e {
            Some(InterfaceClass::Video)
        } else if c == 0x0f {
            Some(InterfaceClass::PersonalHealthcare)
        } else if c == 0x10 {
            Some(InterfaceClass::AudioVideo)
        } else if c == 0x12 {
            Some(InterfaceClass::UsbTypeCBridge)
        } else if c == 0x13 {
            Some(InterfaceClass::UsbBulkDisplayProtocol)
        } else if c == 0x14 {
            Some(InterfaceClass::MctpOverUsbProtocol)
        } else if c == 0x3c {
            Some(InterfaceClass::I3C)
        } else if c == 0xdc {
            Some(InterfaceClass::Diagnostic)
        } else if c == 0xe0 {
            Some(InterfaceClass::WirelessController)
        } else if c == 0xef {
            Some(InterfaceClass::Miscellaneous)
        } else if c == 0xfe {
            Some(InterfaceClass::ApplicationSpecific)
        } else if c == 0xff {
            Some(InterfaceClass::VendorSpecific)
        } else {
            None
        }
    }

    /// The value a wire code stands for, if any.
    pub fn from_code(c: u8) -> (r: Option<InterfaceClass>)
        ensures
            r == InterfaceClass::spec_from_code(c),
    {
        if c == 0x01 {
            Some(InterfaceClass::Audio)
        } else if c == 0x02 {
            Some(InterfaceClass::Cdc)
        } else if c == 0x03 {
            Some(InterfaceClass::Hid)
        } else if c == 0x05 {
            Some(InterfaceClass::Physical)
        } else if c == 0x06 {
            Some(InterfaceClass::Image)
        } else if c == 0x07 {
            Some(InterfaceClass::Printer)
        } else if c == 0x08 {
            Some(InterfaceClass::MassStorage)
        } else if c == 0x0a {
            Some(InterfaceClass::CdcData)
        } else if c == 0x0b {
            Some(InterfaceClass::SmartCard)
        } else if c == 0x0d {
            Some(InterfaceClass::ContentSecurity)
        } else if c == 0x0e {
            Some(InterfaceClass::Video)
        } else if c == 0x0f {
            Some(InterfaceClass::PersonalHealthcare)
        } else if c == 0x10 {
            Some(InterfaceClass::AudioVideo)
        } else if c == 0x12 {
            Some(InterfaceClass::UsbTypeCBridge)
        } else if c == 0x13 {
            Some(InterfaceClass::UsbBulkDisplayProtocol)
        } else if c == 0x14 {
            Some(InterfaceClass::MctpOverUsbProtocol)
        } else if c == 0x3c {
            Some(InterfaceClass::I3C)
        } else if c == 0xdc {
            Some(InterfaceClass::Diagnostic)
        } else if c == 0xe0 {
            Some(InterfaceClass::WirelessController)
        } else if c == 0xef {
            Some(InterfaceClass::Miscellaneous)
        } else if c == 0xfe {
            Some(InterfaceClass::ApplicationSpecific)
        } else if c == 0xff {
            Some(InterfaceClass::VendorSpecific)
        } else {
            None
        }
    }
}

/// Endpoint transfer type.
#[derive(Debug, Copy, Clone, PartialEq, Eq, Structural)]
pub enum TransferType {
    Control,
    Isochronous,
    Bulk,
    Interrupt,
}

impl TransferType {
    /// Wire code of this value.
    pub open spec fn spec_code(self) -> u8 {
        match self {
            TransferType::Control => 0,
            TransferType::Isochronous => 1,
            TransferType::Bulk => 2,
            TransferType::Interrupt => 3,
        }
    }

    /// Wire code of this value.
    #[verifier::when_used_as_spec(spec_code)]
    pub fn code(self) -> (r: u8)
        ensures
            r == self.spec_code(),
    {
        match self {
            TransferType::Control => 0,
            TransferType::Isochronous => 1,
            TransferType::Bulk => 2,
            TransferType::Interrupt => 3,
        }
    }

    /// The value a wire code stands for, if any.
    pub open spec fn spec_from_code(c: u8) -> Option<TransferType> {
        if c == 0 {
            Some(TransferType::Control)
        } else if c == 1 {
            Some(TransferType::Isochronous)
        } else if c == 2 {
            Some(TransferType::Bulk)
        } else if c == 3 {
            Some(TransferType::Interrupt)
        } else {
            None
        }
    }

    /// The value a wire code stands for, if any.
    pub fn from_code(c: u8) -> (r: Option<TransferType>)
        ensures
            r == TransferType::spec_from_code(c),
    {
        if c == 0 {
            Some(TransferType::Control)
        } else if c == 1 {
            Some(TransferType::Isochronous)
        } else if c == 2 {
            Some(TransferType::Bulk)
        } else if c == 3 {
            Some(TransferType::Interrupt)
        } else {
            None
        }
    }
}

/// Endpoint synchronization type.
#[derive(Debug, Copy, Clone, PartialEq, Eq, Structural)]
pub enum SynchronizationType {
    NoSynchronization,
    Asynchronous,
    Adaptive,
    Synchronous,
}

impl SynchronizationType {
    /// Wire code of this value.
    pub open spec fn spec_code(self) -> u8 {
        match self {
            SynchronizationType::NoSynchronization => 0,
            SynchronizationType::Asynchronous => 1,
            SynchronizationType::Adaptive => 2,
            SynchronizationType::Synchronous => 3,
        }
    }

    /// Wire code of this value.
    #[verifier::when_used_as_spec(spec_code)]
    pub fn code(self) -> (r: u8)
        ensures
            r == self.spec_code(),
    {
        match self {
            SynchronizationType::NoSynchronization => 0,
            SynchronizationType::Asynchronous => 1,
            SynchronizationType::Adaptive => 2,
            SynchronizationType::Synchronous => 3,
        }
    }

    /// The value a wire code stands for, if any.
    pub open spec fn spec_from_code(c: u8) -> Option<SynchronizationType> {
        if c == 0 {
            Some(SynchronizationType::NoSynchronization)
        } else if c == 1 {
            Some(SynchronizationType::Asynchronous)
        } else if c == 2 {
            Some(SynchronizationType::Adaptive)
        } else if c == 3 {
            Some(SynchronizationType::Synchronous)
        } else {
            None
        }
    }

    /// The value a wire code stands for, if any.
    pub fn from_code(c: u8) -> (r: Option<SynchronizationType>)
        ensures
            r == SynchronizationType::spec_from_code(c),
    {
        if c == 0 {
            Some(SynchronizationType::NoSynchronization)
        } else if c == 1 {
            Some(SynchronizationType::Asynchronous)
        } else if c == 2 {
            Some(SynchronizationType::Adaptive)
        } else if c == 3 {
            Some(SynchronizationType::Synchronous)
        } else {
            None
        }
    }
}

/// Endpoint usage type.
#[derive(Debug, Copy, Clone, PartialEq, Eq, Structural)]
pub enum UsageType {
    Data,
    Feedback,
    ImplicitFeedback,
    Reserved,
}

impl UsageType {
    /// Wire code of this value.
    pub open spec fn spec_code(self) -> u8 {
        match self {
            UsageType::Data => 0,
            UsageType::Feedback => 1,
            UsageType::ImplicitFeedback => 2,
            UsageType::Reserved => 3,
        }
    }

    /// Wire code of this value.
    #[verifier::when_used_as_spec(spec_code)]
    pub fn code(self) -> (r: u8)
        ensures
            r == self.spec_code(),
    {
        match self {
            UsageType::Data => 0,
            UsageType::Feedback => 1,
            UsageType::ImplicitFeedback => 2,
            UsageType::Reserved => 3,
        }
    }

    /// The value a wire code stands for, if any.
    pub open spec fn spec_from_code(c: u8) -> Option<UsageType> {
        if c == 0 {
            Some(UsageType::Data)
        } else if c == 1 {
            Some(UsageType::Feedback)
        } else if c == 2 {
            Some(UsageType::ImplicitFeedback)
        } else if c == 3 {
            Some(UsageType::Reserved)
        } else {
            None
        }
    }

    /// The value a wire code stands for, if any.
    pub fn from_code(c: u8) -> (r: Option<UsageType>)
        ensures
            r == UsageType::spec_from_code(c),
    {
        if c == 0 {
            Some(UsageType::Data)
        } else if c == 1 {
            Some(UsageType::Feedback)
        } else if c == 2 {
            Some(UsageType::ImplicitFeedback)
        } else if c == 3 {
            Some(UsageType::Reserved)
        } else {
            None
        }
    }
}

/// 16-bit language identifier (LANGID) defined by the USB-IF.
#[derive(Debug, Copy, Clone, PartialEq, Eq, Structural)]
pub enum LangId {
    Afrikaans,
    Albanian,
    ArabicSaudiArabia,
    ArabicIraq,
    ArabicEgypt,
    ArabicLibya,
    ArabicAlgeria,
    ArabicMorocco,
    ArabicTunisia,
    ArabicOman,
    ArabicYemen,
    ArabicSyria,
    ArabicJordan,
    ArabicLebanon,
    ArabicKuwait,
    ArabicUAE,
    ArabicBahrain,
    ArabicQatar,
    Armenian,
    Assamese,
    AzeriLatin,
    AzeriCyrillic,
    Basque,
    Belarussian,
    Bengali,
    Bulgarian,
    Burmese,
    Catalan,
    ChineseTaiwan,
    ChinesePRC,
    ChineseHongKongSARPRC,
    ChineseSingapore,
    ChineseMacauSAR,
    Croatian,
    Czech,
    Danish,
    DutchNetherlands,
    DutchBelgium,
    EnglishUnitedStates,
    EnglishUnitedKingdom,
    EnglishAustralian,
    EnglishCanadian,
    EnglishNewZealand,
    EnglishIreland,
    EnglishSouthAfrica,
    EnglishJamaica,
    EnglishCaribbean,
    EnglishBelize,
    EnglishTrinidad,
    EnglishZimbabwe,
    EnglishPhilippines,
    Estonian,
    Faeroese,
    Farsi,
    Finnish,
    FrenchStandard,
    FrenchBelgian,
    FrenchCanadian,
    FrenchSwitzerland,
    FrenchLuxembourg,
    FrenchMonaco,
    Georgian,
    GermanStandard,
    GermanSwitzerland,
    GermanAustria,
    GermanLuxembourg,
    GermanLiechtenstein,
    Greek,
    Gujarati,
    Hebrew,
    Hindi,
    Hungarian,
    Icelandic,
    Indonesian,
    ItalianStandard,
    ItalianSwitzerland,
    Japanese,
    Kannada,
    KashmiriIndia,
    Kazakh,
    Konkani,
    Korean,
    KoreanJohab,
    Latvian,
    Lithuanian,
    LithuanianClassic,
    Macedonian,
    MalayMalaysian,
    MalayBruneiDarussalam,
    Malayalam,
    Manipuri,
    Marathi,
    NepaliIndia,
    NorwegianBokmal,
    NorwegianNynorsk,
    Oriya,
    Polish,
    PortugueseBrazil,
    PortugueseStandard,
    Punjabi,
    Romanian,
    Russian,
    Sanskrit,
    SerbianCyrillic,
    SerbianLatin,
    Sindhi,
    Slovak,
    Slovenian,
    SpanishTraditionalSort,
    SpanishMexican,
    SpanishModernSort,
    SpanishGuatemala,
    SpanishCostaRica,
    SpanishPanama,
    SpanishDominicanRepublic,
    SpanishVenezuela,
    SpanishColombia,
    SpanishPeru,
    SpanishArgentina,
    SpanishEcuador,
    SpanishChile,
    SpanishUruguay,
    SpanishParaguay,
    SpanishBolivia,
    SpanishElSalvador,
    SpanishHonduras,
    SpanishNicaragua,
    SpanishPuertoRico,
    Sutu,
    SwahiliKenya,
    Swedish,
    SwedishFinland,
    Tamil,
    TatarTatarstan,
    Telugu,
    Thai,
    Turkish,
    Ukrainian,
    UrduPakistan,
    UrduIndia,
    UzbekLatin,
    UzbekCyrillic,
    Vietnamese,
    HIDUsageDataDescriptor,
    HIDVendorDefined1,
    HIDVendorDefined2,
    HIDVendorDefined3,
    HIDVendorDefined4,
}

impl LangId {
    /// Wire code of this value.
    pub open spec fn spec_code(self) -> u16 {
        match self {
            LangId::Afrikaans => 0x0436,
            LangId::Albanian => 0x041c,
            LangId::ArabicSaudiArabia => 0x0401,
            LangId::ArabicIraq => 0x0801,
            LangId::ArabicEgypt => 0x0c01,
            LangId::ArabicLibya => 0x1001,
            LangId::ArabicAlgeria => 0x1401,
            LangId::ArabicMorocco => 0x1801,
            LangId::ArabicTunisia => 0x1c01,
            LangId::ArabicOman => 0x2001,
            LangId::ArabicYemen => 0x2401,
            LangId::ArabicSyria => 0x2801,
            LangId::ArabicJordan => 0x2c01,
            LangId::ArabicLebanon => 0x3001,
            LangId::ArabicKuwait => 0x3401,
            LangId::ArabicUAE => 0x3801,
            LangId::ArabicBahrain => 0x3c01,
            LangId::ArabicQatar => 0x4001,
            LangId::Armenian => 0x042b,
            LangId::Assamese => 0x044d,
            LangId::AzeriLatin => 0x042c,
            LangId::AzeriCyrillic => 0x082c,
            LangId::Basque => 0x042d,
            LangId::Belarussian => 0x0423,
            LangId::Bengali => 0x0445,
            LangId::Bulgarian => 0x0402,
            LangId::Burmese => 0x0455,
            LangId::Catalan => 0x0403,
            LangId::ChineseTaiwan => 0x0404,
            LangId::ChinesePRC => 0x0804,
            LangId::ChineseHongKongSARPRC => 0x0c04,
            LangId::ChineseSingapore => 0x1004,
            LangId::ChineseMacauSAR => 0x1404,
            LangId::Croatian => 0x041a,
            LangId::Czech => 0x0405,
            LangId::Danish => 0x0406,
            LangId::DutchNetherlands => 0x0413,
            LangId::DutchBelgium => 0x0813,
            LangId::EnglishUnitedStates => 0x0409,
            LangId::EnglishUnitedKingdom => 0x0809,
            LangId::EnglishAustralian => 0x0c09,
            LangId::EnglishCanadian => 0x1009,
            LangId::EnglishNewZealand => 0x1409,
            LangId::EnglishIreland => 0x1809,
            LangId::EnglishSouthAfrica => 0x1c09,
            LangId::EnglishJamaica => 0x2009,
            LangId::EnglishCaribbean => 0x2409,
            LangId::EnglishBelize => 0x2809,
            LangId::EnglishTrinidad => 0x2c09,
            LangId::EnglishZimbabwe => 0x3009,
            LangId::EnglishPhilippines => 0x3409,
            LangId::Estonian => 0x0425,
            LangId::Faeroese => 0x0438,
            LangId::Farsi => 0x0429,
            LangId::Finnish => 0x040b,
            LangId::FrenchStandard => 0x040c,
            LangId::FrenchBelgian => 0x080c,
            LangId::FrenchCanadian => 0x0c0c,
            LangId::FrenchSwitzerland => 0x100c,
            LangId::FrenchLuxembourg => 0x140c,
            LangId::FrenchMonaco => 0x180c,
            LangId::Georgian => 0x0437,
            LangId::GermanStandard => 0x0407,
            LangId::GermanSwitzerland => 0x0807,
            LangId::GermanAustria => 0x0c07,
            LangId::GermanLuxembourg => 0x1007,
            LangId::GermanLiechtenstein => 0x1407,
            LangId::Greek => 0x0408,
            LangId::Gujarati => 0x0447,
            LangId::Hebrew => 0x040d,
            LangId::Hindi => 0x0439,
            LangId::Hungarian => 0x040e,
            LangId::Icelandic => 0x040f,
            LangId::Indonesian => 0x0421,
            LangId::ItalianStandard => 0x0410,
            LangId::ItalianSwitzerland => 0x0810,
            LangId::Japanese => 0x0411,
            LangId::Kannada => 0x044b,
            LangId::KashmiriIndia => 0x0860,
            LangId::Kazakh => 0x043f,
            LangId::Konkani => 0x0457,
            LangId::Korean => 0x0412,
            LangId::KoreanJohab => 0x0812,
            LangId::Latvian => 0x0426,
            LangId::Lithuanian => 0x0427,
            LangId::LithuanianClassic => 0x0827,
            LangId::Macedonian => 0x042f,
            LangId::MalayMalaysian => 0x043e,
            LangId::MalayBruneiDarussalam => 0x083e,
            LangId::Malayalam => 0x044c,
            LangId::Manipuri => 0x0458,
            LangId::Marathi => 0x044e,
            LangId::NepaliIndia => 0x0861,
            LangId::NorwegianBokmal => 0x0414,
            LangId::NorwegianNynorsk => 0x0814,
            LangId::Oriya => 0x0448,
            LangId::Polish => 0x0415,
            LangId::PortugueseBrazil => 0x0416,
            LangId::PortugueseStandard => 0x0816,
            LangId::Punjabi => 0x0446,
            LangId::Romanian => 0x0418,
            LangId::Russian => 0x0419,
            LangId::Sanskrit => 0x044f,
            LangId::SerbianCyrillic => 0x0c1a,
            LangId::SerbianLatin => 0x081a,
            LangId::Sindhi => 0x0459,
            LangId::Slovak => 0x041b,
            LangId::Slovenian => 0x0424,
            LangId::SpanishTraditionalSort => 0x040a,
            LangId::SpanishMexican => 0x080a,
            LangId::SpanishModernSort => 0x0c0a,
            LangId::SpanishGuatemala => 0x100a,
            LangId::SpanishCostaRica => 0x140a,
            LangId::SpanishPanama => 0x180a,
            LangId::SpanishDominicanRepublic => 0x1c0a,
            LangId::SpanishVenezuela => 0x200a,
            LangId::SpanishColombia => 0x240a,
            LangId::SpanishPeru => 0x280a,
            LangId::SpanishArgentina => 0x2c0a,
            LangId::SpanishEcuador => 0x300a,
            LangId::SpanishChile => 0x340a,
            LangId::SpanishUruguay => 0x380a,
            LangId::SpanishParaguay => 0x3c0a,
            LangId::SpanishBolivia => 0x400a,
            LangId::SpanishElSalvador => 0x440a,
            LangId::SpanishHonduras => 0x480a,
            LangId::SpanishNicaragua => 0x4c0a,
            LangId::SpanishPuertoRico => 0x500a,
            LangId::Sutu => 0x0430,
            LangId::SwahiliKenya => 0x0441,
            LangId::Swedish => 0x041d,
            LangId::SwedishFinland => 0x081d,
            LangId::Tamil => 0x0449,
            LangId::TatarTatarstan => 0x0444,
            LangId::Telugu => 0x044a,
            LangId::Thai => 0x041e,
            LangId::Turkish => 0x041f,
            LangId::Ukrainian => 0x0422,
            LangId::UrduPakistan => 0x0420,
            LangId::UrduIndia => 0x0820,
            LangId::UzbekLatin => 0x0443,
            LangId::UzbekCyrillic => 0x0843,
            LangId::Vietnamese => 0x042a,
            LangId::HIDUsageDataDescriptor => 0x04ff,
            LangId::HIDVendorDefined1 => 0xf0ff,
            LangId::HIDVendorDefined2 => 0xf4ff,
            LangId::HIDVendorDefined3 => 0xf8ff,
            LangId::HIDVendorDefined4 => 0xfcff,
        }
    }

    /// Wire code of this value.
    #[verifier::when_used_as_spec(spec_code)]
    pub fn code(self) -> (r: u16)
        ensures
            r == self.spec_code(),
    {
        match self {
            LangId::Afrikaans => 0x0436,
            LangId::Albanian => 0x041c,
            LangId::ArabicSaudiArabia => 0x0401,
            LangId::ArabicIraq => 0x0801,
            LangId::ArabicEgypt => 0x0c01,
            LangId::ArabicLibya => 0x1001,
            LangId::ArabicAlgeria => 0x1401,
            LangId::ArabicMorocco => 0x1801,
            LangId::ArabicTunisia => 0x1c01,
            LangId::ArabicOman => 0x2001,
            LangId::ArabicYemen => 0x2401,
            LangId::ArabicSyria => 0x2801,
            LangId::ArabicJordan => 0x2c01,
            LangId::ArabicLebanon => 0x3001,
            LangId::ArabicKuwait => 0x3401,
            LangId::ArabicUAE => 0x3801,
            LangId::ArabicBahrain => 0x3c01,
            LangId::ArabicQatar => 0x4001,
            LangId::Armenian => 0x042b,
            LangId::Assamese => 0x044d,
            LangId::AzeriLatin => 0x042c,
            LangId::AzeriCyrillic => 0x082c,
            LangId::Basque => 0x042d,
            LangId::Belarussian => 0x0423,
            LangId::Bengali => 0x0445,
            LangId::Bulgarian => 0x0402,
            LangId::Burmese => 0x0455,
            LangId::Catalan => 0x0403,
            LangId::ChineseTaiwan => 0x0404,
            LangId::ChinesePRC => 0x0804,
            LangId::ChineseHongKongSARPRC => 0x0c04,
            LangId::ChineseSingapore => 0x1004,
            LangId::ChineseMacauSAR => 0x1404,
            LangId::Croatian => 0x041a,
            LangId::Czech => 0x0405,
            LangId::Danish => 0x0406,
            LangId::DutchNetherlands => 0x0413,
            LangId::DutchBelgium => 0x0813,
            LangId::EnglishUnitedStates => 0x0409,
            LangId::EnglishUnitedKingdom => 0x0809,
            LangId::EnglishAustralian => 0x0c09,
            LangId::EnglishCanadian => 0x1009,
            LangId::EnglishNewZealand => 0x1409,
            LangId::EnglishIreland => 0x1809,
            LangId::EnglishSouthAfrica => 0x1c09,
            LangId::EnglishJamaica => 0x2009,
            LangId::EnglishCaribbean => 0x2409,
            LangId::EnglishBelize => 0x2809,
            LangId::EnglishTrinidad => 0x2c09,
            LangId::EnglishZimbabwe => 0x3009,
            LangId::EnglishPhilippines => 0x3409,
            LangId::Estonian => 0x0425,
            LangId::Faeroese => 0x0438,
            LangId::Farsi => 0x0429,
            LangId::Finnish => 0x040b,
            LangId::FrenchStandard => 0x040c,
            LangId::FrenchBelgian => 0x080c,
            LangId::FrenchCanadian => 0x0c0c,
            LangId::FrenchSwitzerland => 0x100c,
            LangId::FrenchLuxembourg => 0x140c,
            LangId::FrenchMonaco => 0x180c,
            LangId::Georgian => 0x0437,
            LangId::GermanStandard => 0x0407,
            LangId::GermanSwitzerland => 0x0807,
            LangId::GermanAustria => 0x0c07,
            LangId::GermanLuxembourg => 0x1007,
            LangId::GermanLiechtenstein => 0x1407,
            LangId::Greek => 0x0408,
            LangId::Gujarati => 0x0447,
            LangId::Hebrew => 0x040d,
            LangId::Hindi => 0x0439,
            LangId::Hungarian => 0x040e,
            LangId::Icelandic => 0x040f,
            LangId::Indonesian => 0x0421,
            LangId::ItalianStandard => 0x0410,
            LangId::ItalianSwitzerland => 0x0810,
            LangId::Japanese => 0x0411,
            LangId::Kannada => 0x044b,
            LangId::KashmiriIndia => 0x0860,
            LangId::Kazakh => 0x043f,
            LangId::Konkani => 0x0457,
            LangId::Korean => 0x0412,
            LangId::KoreanJohab => 0x0812,
            LangId::Latvian => 0x0426,
            LangId::Lithuanian => 0x0427,
            LangId::LithuanianClassic => 0x0827,
            LangId::Macedonian => 0x042f,
            LangId::MalayMalaysian => 0x043e,
            LangId::MalayBruneiDarussalam => 0x083e,
            LangId::Malayalam => 0x044c,
            LangId::Manipuri => 0x0458,
            LangId::Marathi => 0x044e,
            LangId::NepaliIndia => 0x0861,
            LangId::NorwegianBokmal => 0x0414,
            LangId::NorwegianNynorsk => 0x0814,
            LangId::Oriya => 0x0448,
            LangId::Polish => 0x0415,
            LangId::PortugueseBrazil => 0x0416,
            LangId::PortugueseStandard => 0x0816,
            LangId::Punjabi => 0x0446,
            LangId::Romanian => 0x0418,
            LangId::Russian => 0x0419,
            LangId::Sanskrit => 0x044f,
            LangId::SerbianCyrillic => 0x0c1a,
            LangId::SerbianLatin => 0x081a,
            LangId::Sindhi => 0x0459,
            LangId::Slovak => 0x041b,
            LangId::Slovenian => 0x0424,
            LangId::SpanishTraditionalSort => 0x040a,
            LangId::SpanishMexican => 0x080a,
            LangId::SpanishModernSort => 0x0c0a,
            LangId::SpanishGuatemala => 0x100a,
            LangId::SpanishCostaRica => 0x140a,
            LangId::SpanishPanama => 0x180a,
            LangId::SpanishDominicanRepublic => 0x1c0a,
            LangId::SpanishVenezuela => 0x200a,
            LangId::SpanishColombia => 0x240a,
            LangId::SpanishPeru => 0x280a,
            LangId::SpanishArgentina => 0x2c0a,
            LangId::SpanishEcuador => 0x300a,
            LangId::SpanishChile => 0x340a,
            LangId::SpanishUruguay => 0x380a,
            LangId::SpanishParaguay => 0x3c0a,
            LangId::SpanishBolivia => 0x400a,
            LangId::SpanishElSalvador => 0x440a,
            LangId::SpanishHonduras => 0x480a,
            LangId::SpanishNicaragua => 0x4c0a,
            LangId::SpanishPuertoRico => 0x500a,
            LangId::Sutu => 0x0430,
            LangId::SwahiliKenya => 0x0441,
            LangId::Swedish => 0x041d,
            LangId::SwedishFinland => 0x081d,
            LangId::Tamil => 0x0449,
            LangId::TatarTatarstan => 0x0444,
            LangId::Telugu => 0x044a,
            LangId::Thai => 0x041e,
            LangId::Turkish => 0x041f,
            LangId::Ukrainian => 0x0422,
            LangId::UrduPakistan => 0x0420,
            LangId::UrduIndia => 0x0820,
            LangId::UzbekLatin => 0x0443,
            LangId::UzbekCyrillic => 0x0843,
            LangId::Vietnamese => 0x042a,
            LangId::HIDUsageDataDescriptor => 0x04ff,
            LangId::HIDVendorDefined1 => 0xf0ff,
            LangId::HIDVendorDefined2 => 0xf4ff,
            LangId::HIDVendorDefined3 => 0xf8ff,
            LangId::HIDVendorDefined4 => 0xfcff,
        }
    }
}


/// The 8-byte control-transfer setup packet.
#[derive(Debug, Copy, Clone, PartialEq, Eq, Structural)]
pub struct SetupRequest {
    pub bm_request_type_direction: Direction,
    pub bm_request_type_kind: Type,
    pub bm_request_type_recipient: Recipient,
    pub b_request: StandardRequest,
    pub w_value: u16,
    pub w_index: u16,
    pub w_length: u16,
}

impl SetupRequest {
    /// First packed byte: direction, type and recipient bit fields.
    pub open spec fn spec_request_type_byte(self) -> u8 {
        (self.bm_request_type_direction.spec_code() * 0x80
            + self.bm_request_type_kind.spec_code() * 0x20
            + self.bm_request_type_recipient.spec_code()) as u8
    }

    /// The packed 8-byte form.
    pub open spec fn spec_pack(self) -> Seq<u8> {
        seq![self.spec_request_type_byte(), self.b_request.spec_code()] + spec_le16(self.w_value)
            + spec_le16(self.w_index) + spec_le16(self.w_length)
    }

    /// The packet read back from exactly eight bytes; `Malformed` on any
    /// other length, `InvalidEnum` when the recipient or request code is
    /// outside its range.
    pub open spec fn spec_unpack(b: Seq<u8>) -> Result<SetupRequest, Error> {
        if b.len() != 8 {
            Err(Error::Malformed)
        } else {
            let dirc = b[0] as int / 0x80;
            let kindc = b[0] as int / 0x20 % 4;
            let dir = if dirc == 1 {
                Direction::In
            } else {
                Direction::Out
            };
            let kind = if kindc == 1 {
                Type::Class
            } else if kindc == 2 {
                Type::Vendor
            } else if kindc == 3 {
                Type::Reserved
            } else {
                Type::Standard
            };
            match (Recipient::spec_from_code((b[0] as int % 0x20) as u8),
                StandardRequest::spec_from_code(b[1])) {
                (Some(recip), Some(breq)) => Ok(SetupRequest {
                    bm_request_type_direction: dir,
                    bm_request_type_kind: kind,
                    bm_request_type_recipient: recip,
                    b_request: breq,
                    w_value: spec_u16_of_le(b[2], b[3]),
                    w_index: spec_u16_of_le(b[4], b[5]),
                    w_length: spec_u16_of_le(b[6], b[7]),
                }),
                _ => Err(Error::InvalidEnum),
            }
        }
    }

    /// The all-zero packet.
    pub open spec fn spec_zeroed() -> SetupRequest {
        SetupRequest {
            bm_request_type_direction: Direction::Out,
            bm_request_type_kind: Type::Standard,
            bm_request_type_recipient: Recipient::Device,
            b_request: StandardRequest::GetStatus,
            w_value: 0,
            w_index: 0,
            w_length: 0,
        }
    }

    /// The all-zero packet.
    pub fn zeroed() -> (r: SetupRequest)
        ensures
            r == SetupRequest::spec_zeroed(),
    {
        SetupRequest {
            bm_request_type_direction: Direction::Out,
            bm_request_type_kind: Type::Standard,
            bm_request_type_recipient: Recipient::Device,
            b_request: StandardRequest::GetStatus,
            w_value: 0,
            w_index: 0,
            w_length: 0,
        }
    }

    /// True when the packet carries a standard-typed request.
    pub open spec fn spec_is_standard(&self) -> bool {
        self.bm_request_type_kind == Type::Standard
    }

    /// True when the packet carries a standard-typed request.
    #[verifier::when_used_as_spec(spec_is_standard)]
    pub fn is_standard(&self) -> (r: bool)
        ensures
            r == self.spec_is_standard(),
    {
        self.bm_request_type_kind == Type::Standard
    }

    /// True when all eight packed bytes are zero.
    pub open spec fn spec_is_empty(&self) -> bool {
        *self == SetupRequest::spec_zeroed()
    }

    /// True when all eight packed bytes are zero.
    #[verifier::when_used_as_spec(spec_is_empty)]
    pub fn is_empty(&self) -> (r: bool)
        ensures
            r == self.spec_is_empty(),
    {
        *self == SetupRequest::zeroed()
    }

    /// Pack the setup packet into its 8-byte wire form.
    pub fn pack_to_vec(&self) -> (r: Vec<u8>)
        ensures
            r@ == self.spec_pack(),
            r@.len() == 8,
    {
        proof {
            assert(self.bm_request_type_direction.spec_code() <= 1);
            assert(self.bm_request_type_kind.spec_code() <= 3);
            assert(self.bm_request_type_recipient.spec_code() <= 3);
        }
        let b0: u8 = self.bm_request_type_direction.code() * 0x80
            + self.bm_request_type_kind.code() * 0x20 + self.bm_request_type_recipient.code();
        let mut out: Vec<u8> = Vec::new();
        out.push(b0);
        out.push(self.b_request.code());
        push_le16(&mut out, self.w_value);
        push_le16(&mut out, self.w_index);
        push_le16(&mut out, self.w_length);
        proof {
            assert(out@ =~= self.spec_pack());
        }
        out
    }

    /// Read a setup packet back from its wire form.
    pub fn unpack(b: &[u8]) -> (r: Result<SetupRequest, Error>)
        ensures
            r == SetupRequest::spec_unpack(b@),
    {
        if b.len() != 8 {
            return Err(Error::Malformed);
        }
        let b0 = b[0];
        let dir = if b0 / 0x80 == 1 {
            Direction::In
        } else {
            Direction::Out
        };
        let kindc = b0 / 0x20 % 4;
        let kind = if kindc == 1 {
            Type::Class
        } else if kindc == 2 {
            Type::Vendor
        } else if kindc == 3 {
            Type::Reserved
        } else {
            Type::Standard
        };
        let recip = match Recipient::from_code(b0 % 0x20) {
            Some(rc) => rc,
            None => {
                return Err(Error::InvalidEnum);
            },
        };
        let breq = match StandardRequest::from_code(b[1]) {
            Some(rq) => rq,
            None => {
                return Err(Error::InvalidEnum);
            },
        };
        Ok(SetupRequest {
            bm_request_type_direction: dir,
            bm_request_type_kind: kind,
            bm_request_type_recipient: recip,
            b_request: breq,
            w_value: u16_of_le(b[2], b[3]),
            w_index: u16_of_le(b[4], b[5]),
            w_length: u16_of_le(b[6], b[7]),
        })
    }
}

/// Unpacking a packed setup packet yields the packet itself.
pub proof fn lemma_setup_request_roundtrip(s: SetupRequest)
    ensures
        SetupRequest::spec_unpack(s.spec_pack()) == Ok::<SetupRequest, Error>(s),
{
    let b = s.spec_pack();
    let d = s.bm_request_type_direction.spec_code() as int;
    let k = s.bm_request_type_kind.spec_code() as int;
    let r = s.bm_request_type_recipient.spec_code() as int;
    assert(0 <= d <= 1 && 0 <= k <= 3 && 0 <= r <= 3);
    assert(b[0] == d * 0x80 + k * 0x20 + r);
    assert((d * 0x80 + k * 0x20 + r) / 0x80 == d) by (nonlinear_arith)
        requires
            0 <= d <= 1 && 0 <= k <= 3 && 0 <= r <= 3,
    ;
    assert((d * 0x80 + k * 0x20 + r) / 0x20 % 4 == k) by (nonlinear_arith)
        requires
            0 <= d <= 1 && 0 <= k <= 3 && 0 <= r <= 3,
    ;
    assert((d * 0x80 + k * 0x20 + r) % 0x20 == r) by (nonlinear_arith)
        requires
            0 <= d <= 1 && 0 <= k <= 3 && 0 <= r <= 3,
    ;
    crate::bytes::lemma_le16_roundtrip(s.w_value);
    crate::bytes::lemma_le16_roundtrip(s.w_index);
    crate::bytes::lemma_le16_roundtrip(s.w_length);
}


/// The 18-byte device descriptor, root of the descriptor tree.
#[derive(Debug, Copy, Clone, PartialEq, Eq, Structural)]
pub struct DeviceDescriptor {
    /// Size of this descriptor in bytes.
    pub b_length: u8,
    /// Device descriptor type, always 1.
    pub b_descriptor_type: u8,
    /// USB specification release number in binary-coded decimal.
    pub bcd_usb: u16,
    /// Class code assigned by the USB-IF.
    pub b_device_class: u8,
    /// Subclass code assigned by the USB-IF.
    pub b_device_sub_class: u8,
    /// Protocol code assigned by the USB-IF.
    pub b_device_protocol: u8,
    /// Maximum packet size for endpoint zero; only 8, 16, 32 or 64 are valid.
    pub b_max_packet_size_0: u8,
    /// Vendor identifier assigned by the USB-IF.
    pub id_vendor: u16,
    /// Product identifier assigned by the manufacturer.
    pub id_product: u16,
    /// Device release number in binary-coded decimal.
    pub bcd_device: u16,
    /// Index of the string descriptor describing the manufacturer, or 0.
    pub i_manufacturer: u8,
    /// Index of the string descriptor describing the product, or 0.
    pub i_product: u8,
    /// Index of the string descriptor holding the serial number, or 0.
    pub i_serial_number: u8,
    /// Number of possible configurations.
    pub b_num_configurations: u8,
}

impl DeviceDescriptor {
    /// The packed 18-byte form, little-endian multi-byte fields.
    pub open spec fn spec_pack(self) -> Seq<u8> {
        seq![self.b_length, self.b_descriptor_type] + spec_le16(self.bcd_usb)
            + seq![
            self.b_device_class,
            self.b_device_sub_class,
            self.b_device_protocol,
            self.b_max_packet_size_0,
        ] + spec_le16(self.id_vendor) + spec_le16(self.id_product) + spec_le16(self.bcd_device)
            + seq![
            self.i_manufacturer,
            self.i_product,
            self.i_serial_number,
            self.b_num_configurations,
        ]
    }

    /// A device descriptor with the defaults this library starts from:
    /// a USB 2.0, full-featureless device with string indices 1 and 2 for
    /// manufacturer and product and a single configuration.
    pub fn new(vendor_id: u16, product_id: u16) -> (r: Self)
        ensures
            r == (DeviceDescriptor {
                b_length: 18u8,
                b_descriptor_type: 1u8,
                bcd_usb: 0x0200u16,
                b_device_class: 0u8,
                b_device_sub_class: 0u8,
                b_device_protocol: 0u8,
                b_max_packet_size_0: 0x10u8,
                id_vendor: vendor_id,
                id_product: product_id,
                bcd_device: 0x0100u16,
                i_manufacturer: 1u8,
                i_product: 2u8,
                i_serial_number: 0u8,
                b_num_configurations: 1u8,
            }),
    {
        DeviceDescriptor {
            b_length: 18,
            b_descriptor_type: DescriptorType::Device.code(),
            bcd_usb: 0x0200,
            b_device_class: 0x00,
            b_device_sub_class: 0x00,
            b_device_protocol: 0x00,
            b_max_packet_size_0: 0x10,
            id_vendor: vendor_id,
            id_product: product_id,
            bcd_device: 0x0100,
            i_manufacturer: 0x01,
            i_product: 0x02,
            i_serial_number: 0x00,
            b_num_configurations: 0x01,
        }
    }


    /// The descriptor read back from exactly 18 bytes; `Malformed` on any
    /// other length.
    pub open spec fn spec_unpack(b: Seq<u8>) -> Result<DeviceDescriptor, Error> {
        if b.len() != 18 {
            Err(Error::Malformed)
        } else {
            Ok(DeviceDescriptor {
                b_length: b[0],
                b_descriptor_type: b[1],
                bcd_usb: spec_u16_of_le(b[2], b[3]),
                b_device_class: b[4],
                b_device_sub_class: b[5],
                b_device_protocol: b[6],
                b_max_packet_size_0: b[7],
                id_vendor: spec_u16_of_le(b[8], b[9]),
                id_product: spec_u16_of_le(b[10], b[11]),
                bcd_device: spec_u16_of_le(b[12], b[13]),
                i_manufacturer: b[14],
                i_product: b[15],
                i_serial_number: b[16],
                b_num_configurations: b[17],
            })
        }
    }

    /// Read a device descriptor back from its wire form.
    pub fn unpack(b: &[u8]) -> (r: Result<DeviceDescriptor, Error>)
        ensures
            r == DeviceDescriptor::spec_unpack(b@),
    {
        if b.len() != 18 {
            return Err(Error::Malformed);
        }
        Ok(DeviceDescriptor {
            b_length: b[0],
            b_descriptor_type: b[1],
            bcd_usb: u16_of_le(b[2], b[3]),
            b_device_class: b[4],
            b_device_sub_class: b[5],
            b_device_protocol: b[6],
            b_max_packet_size_0: b[7],
            id_vendor: u16_of_le(b[8], b[9]),
            id_product: u16_of_le(b[10], b[11]),
            bcd_device: u16_of_le(b[12], b[13]),
            i_manufacturer: b[14],
            i_product: b[15],
            i_serial_number: b[16],
            b_num_configurations: b[17],
        })
    }

    /// Pack the descriptor into its 18-byte wire form.
    pub fn pack_to_vec(&self) -> (r: Vec<u8>)
        ensures
            r@ == self.spec_pack(),
            r@.len() == 18,
    {
        let mut out: Vec<u8> = Vec::new();
        out.push(self.b_length);
        out.push(self.b_descriptor_type);
        push_le16(&mut out, self.bcd_usb);
        out.push(self.b_device_class);
        out.push(self.b_device_sub_class);
        out.push(self.b_device_protocol);
        out.push(self.b_max_packet_size_0);
        push_le16(&mut out, self.id_vendor);
        push_le16(&mut out, self.id_product);
        push_le16(&mut out, self.bcd_device);
        out.push(self.i_manufacturer);
        out.push(self.i_product);
        out.push(self.i_serial_number);
        out.push(self.b_num_configurations);
        proof {
            assert(out@ =~= self.spec_pack());
        }
        out
    }
}

/// The 10-byte device qualifier descriptor: how the device would behave at
/// the other operating speed.
#[derive(Debug, Copy, Clone, PartialEq, Eq, Structural)]
pub struct DeviceQualifierDescriptor {
    /// Size of this descriptor in bytes.
    pub b_length: u8,
    /// Device qualifier descriptor type, always 6.
    pub b_type: u8,
    /// USB specification release number in binary-coded decimal.
    pub bcd_usb: u16,
    /// Class code assigned by the USB-IF.
    pub b_device_class: u8,
    /// Subclass code assigned by the USB-IF.
    pub b_device_sub_class: u8,
    /// Protocol code assigned by the USB-IF.
    pub b_device_protocol: u8,
    /// Maximum packet size for the other speed.
    pub b_max_packet_size_0: u8,
    /// Number of other-speed configurations.
    pub b_num_configurations: u8,
    /// Reserved, must be zero.
    pub b_reserved: u8,
}

impl DeviceQualifierDescriptor {
    /// The packed 10-byte form.
    pub open spec fn spec_pack(self) -> Seq<u8> {
        seq![self.b_length, self.b_type] + spec_le16(self.bcd_usb)
            + seq![
            self.b_device_class,
            self.b_device_sub_class,
            self.b_device_protocol,
            self.b_max_packet_size_0,
            self.b_num_configurations,
            self.b_reserved,
        ]
    }

    /// The qualifier this library starts from.
    pub fn new() -> (r: Self)
        ensures
            r == (DeviceQualifierDescriptor {
                b_length: 10u8,
                b_type: 6u8,
                bcd_usb: 0x0200u16,
                b_device_class: 3u8,
                b_device_sub_class: 0u8,
                b_device_protocol: 0u8,
                b_max_packet_size_0: 0x10u8,
                b_num_configurations: 1u8,
                b_reserved: 0u8,
            }),
    {
        DeviceQualifierDescriptor {
            b_length: 10,
            b_type: DescriptorType::DeviceQualifier.code(),
            bcd_usb: 0x0200,
            b_device_class: 0x03,
            b_device_sub_class: 0x00,
            b_device_protocol: 0x00,
            b_max_packet_size_0: 0x10,
            b_num_configurations: 0x01,
            b_reserved: 0x00,
        }
    }


    /// The qualifier read back from exactly 10 bytes; `Malformed` on any
    /// other length.
    pub open spec fn spec_unpack(b: Seq<u8>) -> Result<DeviceQualifierDescriptor, Error> {
        if b.len() != 10 {
            Err(Error::Malformed)
        } else {
            Ok(DeviceQualifierDescriptor {
                b_length: b[0],
                b_type: b[1],
                bcd_usb: spec_u16_of_le(b[2], b[3]),
                b_device_class: b[4],
                b_device_sub_class: b[5],
                b_device_protocol: b[6],
                b_max_packet_size_0: b[7],
                b_num_configurations: b[8],
                b_reserved: b[9],
            })
        }
    }

    /// Read a device qualifier back from its wire form.
    pub fn unpack(b: &[u8]) -> (r: Result<DeviceQualifierDescriptor, Error>)
        ensures
            r == DeviceQualifierDescriptor::spec_unpack(b@),
    {
        if b.len() != 10 {
            return Err(Error::Malformed);
        }
        Ok(DeviceQualifierDescriptor {
            b_length: b[0],
            b_type: b[1],
            bcd_usb: u16_of_le(b[2], b[3]),
            b_device_class: b[4],
            b_device_sub_class: b[5],
            b_device_protocol: b[6],
            b_max_packet_size_0: b[7],
            b_num_configurations: b[8],
            b_reserved: b[9],
        })
    }

    /// Pack the descriptor into its 10-byte wire form.
    pub fn pack_to_vec(&self) -> (r: Vec<u8>)
        ensures
            r@ == self.spec_pack(),
            r@.len() == 10,
    {
        let mut out: Vec<u8> = Vec::new();
        out.push(self.b_length);
        out.push(self.b_type);
        push_le16(&mut out, self.bcd_usb);
        out.push(self.b_device_class);
        out.push(self.b_device_sub_class);
        out.push(self.b_device_protocol);
        out.push(self.b_max_packet_size_0);
        out.push(self.b_num_configurations);
        out.push(self.b_reserved);
        proof {
            assert(out@ =~= self.spec_pack());
        }
        out
    }
}

/// The 9-byte configuration descriptor header.
#[derive(Debug, Copy, Clone, PartialEq, Eq, Structural)]
pub struct ConfigurationDescriptor {
    /// Size of this descriptor in bytes.
    pub b_length: u8,
    /// Configuration descriptor type, always 2.
    pub b_descriptor_type: u8,
    /// Total length of all descriptors returned for this configuration.
    pub w_total_length: u16,
    /// Number of interfaces supported by this configuration.
    pub b_num_interfaces: u8,
    /// Value that selects this configuration in SET_CONFIGURATION.
    pub b_configuration_value: u8,
    /// Index of the string descriptor describing this configuration.
    pub i_configuration: u8,
    /// Attribute bits: bus power, self power, remote wakeup.
    pub bm_attributes: u8,
    /// Maximum bus power drawn in this configuration, in 2 mA units.
    pub b_max_power: u8,
}

impl ConfigurationDescriptor {
    /// The packed 9-byte form.
    pub open spec fn spec_pack(self) -> Seq<u8> {
        seq![self.b_length, self.b_descriptor_type] + spec_le16(self.w_total_length)
            + seq![
            self.b_num_interfaces,
            self.b_configuration_value,
            self.i_configuration,
            self.bm_attributes,
            self.b_max_power,
        ]
    }

    /// A bus-powered configuration with value 1 and no interfaces yet.
    pub fn new() -> (r: Self)
        ensures
            r == (ConfigurationDescriptor {
                b_length: 9u8,
                b_descriptor_type: 2u8,
                w_total_length: 0u16,
                b_num_interfaces: 0u8,
                b_configuration_value: 1u8,
                i_configuration: 0u8,
                bm_attributes: 0x80u8,
                b_max_power: 0u8,
            }),
    {
        ConfigurationDescriptor {
            b_length: 9,
            b_descriptor_type: DescriptorType::Configuration.code(),
            w_total_length: 0,
            b_num_interfaces: 0,
            b_configuration_value: 1,
            i_configuration: 0,
            bm_attributes: 0x80,
            b_max_power: 0,
        }
    }


    /// The header read back from exactly 9 bytes; `Malformed` on any
    /// other length.
    pub open spec fn spec_unpack(b: Seq<u8>) -> Result<ConfigurationDescriptor, Error> {
        if b.len() != 9 {
            Err(Error::Malformed)
        } else {
            Ok(ConfigurationDescriptor {
                b_length: b[0],
                b_descriptor_type: b[1],
                w_total_length: spec_u16_of_le(b[2], b[3]),
                b_num_interfaces: b[4],
                b_configuration_value: b[5],
                i_configuration: b[6],
                bm_attributes: b[7],
                b_max_power: b[8],
            })
        }
    }

    /// Read a configuration descriptor header back from its wire form.
    pub fn unpack(b: &[u8]) -> (r: Result<ConfigurationDescriptor, Error>)
        ensures
            r == ConfigurationDescriptor::spec_unpack(b@),
    {
        if b.len() != 9 {
            return Err(Error::Malformed);
        }
        Ok(ConfigurationDescriptor {
            b_length: b[0],
            b_descriptor_type: b[1],
            w_total_length: u16_of_le(b[2], b[3]),
            b_num_interfaces: b[4],
            b_configuration_value: b[5],
            i_configuration: b[6],
            bm_attributes: b[7],
            b_max_power: b[8],
        })
    }

    /// Pack the descriptor into its 9-byte wire form.
    pub fn pack_to_vec(&self) -> (r: Vec<u8>)
        ensures
            r@ == self.spec_pack(),
            r@.len() == 9,
    {
        let mut out: Vec<u8> = Vec::new();
        out.push(self.b_length);
        out.push(self.b_descriptor_type);
        push_le16(&mut out, self.w_total_length);
        out.push(self.b_num_interfaces);
        out.push(self.b_configuration_value);
        out.push(self.i_configuration);
        out.push(self.bm_attributes);
        out.push(self.b_max_power);
        proof {
            assert(out@ =~= self.spec_pack());
        }
        out
    }
}

/// The 9-byte interface descriptor.
#[derive(Debug, Copy, Clone, PartialEq, Eq, Structural)]
pub struct InterfaceDescriptor {
    /// Size of this descriptor in bytes.
    pub b_length: u8,
    /// Interface descriptor type, always 4.
    pub b_descriptor_type: u8,
    /// The number of this interface.
    pub b_interface_number: u8,
    /// Value used to select an alternate setting for this interface.
    pub b_alternate_setting: u8,
    /// Number of endpoints used by this interface, excluding endpoint zero.
    pub b_num_endpoints: u8,
    /// Class code assigned by the USB-IF.
    pub b_interface_class: InterfaceClass,
    /// Subclass code assigned by the USB-IF.
    pub b_interface_subclass: u8,
    /// Protocol code assigned by the USB-IF.
    pub b_interface_protocol: u8,
    /// Index of the string descriptor describing this interface.
    pub i_interface: u8,
}

impl InterfaceDescriptor {
    /// The packed 9-byte form.
    pub open spec fn spec_pack(self) -> Seq<u8> {
        seq![
            self.b_length,
            self.b_descriptor_type,
            self.b_interface_number,
            self.b_alternate_setting,
            self.b_num_endpoints,
            self.b_interface_class.spec_code(),
            self.b_interface_subclass,
            self.b_interface_protocol,
            self.i_interface,
        ]
    }

    /// A single-endpoint HID interface descriptor, the default this library
    /// starts from.
    pub fn new() -> (r: Self)
        ensures
            r == (InterfaceDescriptor {
                b_length: 9u8,
                b_descriptor_type: 4u8,
                b_interface_number: 0u8,
                b_alternate_setting: 0u8,
                b_num_endpoints: 1u8,
                b_interface_class: InterfaceClass::Hid,
                b_interface_subclass: 0u8,
                b_interface_protocol: 0u8,
                i_interface: 0u8,
            }),
    {
        InterfaceDescriptor {
            b_length: 9,
            b_descriptor_type: DescriptorType::Interface.code(),
            b_interface_number: 0,
            b_alternate_setting: 0,
            b_num_endpoints: 1,
            b_interface_class: InterfaceClass::Hid,
            b_interface_subclass: 0,
            b_interface_protocol: 0,
            i_interface: 0,
        }
    }


    /// The descriptor read back from exactly 9 bytes; `Malformed` on any
    /// other length, `InvalidEnum` when the class byte is outside the
    /// classes this library names.
    pub open spec fn spec_unpack(b: Seq<u8>) -> Result<InterfaceDescriptor, Error> {
        if b.len() != 9 {
            Err(Error::Malformed)
        } else {
            match InterfaceClass::spec_from_code(b[5]) {
                None => Err(Error::InvalidEnum),
                Some(class) => Ok(InterfaceDescriptor {
                    b_length: b[0],
                    b_descriptor_type: b[1],
                    b_interface_number: b[2],
                    b_alternate_setting: b[3],
                    b_num_endpoints: b[4],
                    b_interface_class: class,
                    b_interface_subclass: b[6],
                    b_interface_protocol: b[7],
                    i_interface: b[8],
                }),
            }
        }
    }

    /// Read an interface descriptor back from its wire form.
    pub fn unpack(b: &[u8]) -> (r: Result<InterfaceDescriptor, Error>)
        ensures
            r == InterfaceDescriptor::spec_unpack(b@),
    {
        if b.len() != 9 {
            return Err(Error::Malformed);
        }
        let class = match InterfaceClass::from_code(b[5]) {
            Some(class) => class,
            None => {
                return Err(Error::InvalidEnum);
            },
        };
        Ok(InterfaceDescriptor {
            b_length: b[0],
            b_descriptor_type: b[1],
            b_interface_number: b[2],
            b_alternate_setting: b[3],
            b_num_endpoints: b[4],
            b_interface_class: class,
            b_interface_subclass: b[6],
            b_interface_protocol: b[7],
            i_interface: b[8],
        })
    }

    /// Pack the descriptor into its 9-byte wire form.
    pub fn pack_to_vec(&self) -> (r: Vec<u8>)
        ensures
            r@ == self.spec_pack(),
            r@.len() == 9,
    {
        let mut out: Vec<u8> = Vec::new();
        out.push(self.b_length);
        out.push(self.b_descriptor_type);
        out.push(self.b_interface_number);
        out.push(self.b_alternate_setting);
        out.push(self.b_num_endpoints);
        out.push(self.b_interface_class.code());
        out.push(self.b_interface_subclass);
        out.push(self.b_interface_protocol);
        out.push(self.i_interface);
        proof {
            assert(out@ =~= self.spec_pack());
        }
        out
    }
}


/// The 7-byte endpoint descriptor.  The endpoint address splits into a
/// 4-bit number and a direction bit; the attributes split into transfer,
/// synchronization and usage type.  The reserved bits pack as zero.
#[derive(Debug, Copy, Clone, PartialEq, Eq, Structural)]
pub struct EndpointDescriptor {
    /// Size of this descriptor in bytes.
    pub b_length: u8,
    /// Endpoint descriptor type, always `Endpoint`.
    pub b_descriptor_type: DescriptorType,
    /// Direction bit of the endpoint address; ignored for control endpoints.
    pub b_endpoint_address_direction: Direction,
    /// Endpoint number, the low four bits of the endpoint address.
    pub b_endpoint_address_num: u8,
    /// Usage type, bits 5..4 of the attributes.
    pub bm_attributes_usage_type: UsageType,
    /// Synchronization type, bits 3..2 of the attributes.
    pub bm_attributes_sync_type: SynchronizationType,
    /// Transfer type, bits 1..0 of the attributes.
    pub bm_attributes_xfer_type: TransferType,
    /// Maximum packet size of this endpoint.
    pub w_max_packet_size: u16,
    /// Polling interval, in frames or micro-frames.
    pub b_interval: u8,
}

impl EndpointDescriptor {
    /// The endpoint address byte: direction bit 7, number in bits 3..0.
    pub open spec fn spec_address_byte(self) -> u8 {
        (self.b_endpoint_address_direction.spec_code() * 0x80 + self.b_endpoint_address_num % 16) as u8
    }

    /// The attributes byte: usage bits 5..4, synchronization bits 3..2,
    /// transfer type bits 1..0.
    pub open spec fn spec_attributes_byte(self) -> u8 {
        (self.bm_attributes_usage_type.spec_code() * 0x10
            + self.bm_attributes_sync_type.spec_code() * 4
            + self.bm_attributes_xfer_type.spec_code()) as u8
    }

    /// The packed 7-byte form.
    pub open spec fn spec_pack(self) -> Seq<u8> {
        seq![
            self.b_length,
            self.b_descriptor_type.spec_code(),
            self.spec_address_byte(),
            self.spec_attributes_byte(),
        ] + spec_le16(self.w_max_packet_size) + seq![self.b_interval]
    }

    /// The descriptor read back from exactly seven bytes; `Malformed` on
    /// any other length, `InvalidEnum` when the descriptor type byte is
    /// outside its range.  Reserved bits are ignored.
    pub open spec fn spec_unpack(b: Seq<u8>) -> Result<EndpointDescriptor, Error> {
        if b.len() != 7 {
            Err(Error::Malformed)
        } else {
            match DescriptorType::spec_from_code(b[1]) {
                None => Err(Error::InvalidEnum),
                Some(t) => {
                    let usagec = b[3] as int / 0x10 % 4;
                    let syncc = b[3] as int / 4 % 4;
                    let xferc = b[3] as int % 4;
                    Ok(EndpointDescriptor {
                        b_length: b[0],
                        b_descriptor_type: t,
                        b_endpoint_address_direction: if b[2] as int / 0x80 == 1 {
                            Direction::In
                        } else {
                            Direction::Out
                        },
                        b_endpoint_address_num: (b[2] as int % 16) as u8,
                        bm_attributes_usage_type: if usagec == 1 {
                            UsageType::Feedback
                        } else if usagec == 2 {
                            UsageType::ImplicitFeedback
                        } else if usagec == 3 {
                            UsageType::Reserved
                        } else {
                            UsageType::Data
                        },
                        bm_attributes_sync_type: if syncc == 1 {
                            SynchronizationType::Asynchronous
                        } else if syncc == 2 {
                            SynchronizationType::Adaptive
                        } else if syncc == 3 {
                            SynchronizationType::Synchronous
                        } else {
                            SynchronizationType::NoSynchronization
                        },
                        bm_attributes_xfer_type: if xferc == 1 {
                            TransferType::Isochronous
                        } else if xferc == 2 {
                            TransferType::Bulk
                        } else if xferc == 3 {
                            TransferType::Interrupt
                        } else {
                            TransferType::Control
                        },
                        w_max_packet_size: spec_u16_of_le(b[4], b[5]),
                        b_interval: b[6],
                    })
                },
            }
        }
    }

    /// An OUT control endpoint numbered 1 with packet size 0, the default
    /// this library starts from.
    pub fn new() -> (r: Self)
        ensures
            r == (EndpointDescriptor {
                b_length: 7u8,
                b_descriptor_type: DescriptorType::Endpoint,
                b_endpoint_address_direction: Direction::Out,
                b_endpoint_address_num: 1u8,
                bm_attributes_usage_type: UsageType::Data,
                bm_attributes_sync_type: SynchronizationType::NoSynchronization,
                bm_attributes_xfer_type: TransferType::Control,
                w_max_packet_size: 0u16,
                b_interval: 1u8,
            }),
    {
        EndpointDescriptor {
            b_length: 7,
            b_descriptor_type: DescriptorType::Endpoint,
            b_endpoint_address_direction: Direction::Out,
            b_endpoint_address_num: 1,
            bm_attributes_usage_type: UsageType::Data,
            bm_attributes_sync_type: SynchronizationType::NoSynchronization,
            bm_attributes_xfer_type: TransferType::Control,
            w_max_packet_size: 0,
            b_interval: 1,
        }
    }

    /// Pack the descriptor into its 7-byte wire form.
    pub fn pack_to_vec(&self) -> (r: Vec<u8>)
        ensures
            r@ == self.spec_pack(),
            r@.len() == 7,
    {
        proof {
            assert(self.b_endpoint_address_direction.spec_code() <= 1);
            assert(self.bm_attributes_usage_type.spec_code() <= 3);
            assert(self.bm_attributes_sync_type.spec_code() <= 3);
            assert(self.bm_attributes_xfer_type.spec_code() <= 3);
        }
        let addr: u8 = self.b_endpoint_address_direction.code() * 0x80
            + self.b_endpoint_address_num % 16;
        let attrs: u8 = self.bm_attributes_usage_type.code() * 0x10
            + self.bm_attributes_sync_type.code() * 4 + self.bm_attributes_xfer_type.code();
        let mut out: Vec<u8> = Vec::new();
        out.push(self.b_length);
        out.push(self.b_descriptor_type.code());
        out.push(addr);
        out.push(attrs);
        push_le16(&mut out, self.w_max_packet_size);
        out.push(self.b_interval);
        proof {
            assert(out@ =~= self.spec_pack());
        }
        out
    }

    /// Read an endpoint descriptor back from its wire form.
    pub fn unpack(b: &[u8]) -> (r: Result<EndpointDescriptor, Error>)
        ensures
            r == EndpointDescriptor::spec_unpack(b@),
    {
        if b.len() != 7 {
            return Err(Error::Malformed);
        }
        let t = match DescriptorType::from_code(b[1]) {
            Some(t) => t,
            None => {
                return Err(Error::InvalidEnum);
            },
        };
        let usagec = b[3] / 0x10 % 4;
        let syncc = b[3] / 4 % 4;
        let xferc = b[3] % 4;
        Ok(EndpointDescriptor {
            b_length: b[0],
            b_descriptor_type: t,
            b_endpoint_address_direction: if b[2] / 0x80 == 1 {
                Direction::In
            } else {
                Direction::Out
            },
            b_endpoint_address_num: b[2] % 16,
            bm_attributes_usage_type: if usagec == 1 {
                UsageType::Feedback
            } else if usagec == 2 {
                UsageType::ImplicitFeedback
            } else if usagec == 3 {
                UsageType::Reserved
            } else {
                UsageType::Data
            },
            bm_attributes_sync_type: if syncc == 1 {
                SynchronizationType::Asynchronous
            } else if syncc == 2 {
                SynchronizationType::Adaptive
            } else if syncc == 3 {
                SynchronizationType::Synchronous
            } else {
                SynchronizationType::NoSynchronization
            },
            bm_attributes_xfer_type: if xferc == 1 {
                TransferType::Isochronous
            } else if xferc == 2 {
                TransferType::Bulk
            } else if xferc == 3 {
                TransferType::Interrupt
            } else {
                TransferType::Control
            },
            w_max_packet_size: u16_of_le(b[4], b[5]),
            b_interval: b[6],
        })
    }
}

/// Unpacking a packed endpoint descriptor yields the descriptor itself,
/// for every descriptor whose endpoint number fits its 4-bit field.
pub proof fn lemma_endpoint_descriptor_roundtrip(e: EndpointDescriptor)
    requires
        e.b_endpoint_address_num < 16,
    ensures
        EndpointDescriptor::spec_unpack(e.spec_pack()) == Ok::<EndpointDescriptor, Error>(e),
{
    let b = e.spec_pack();
    let d = e.b_endpoint_address_direction.spec_code() as int;
    let n = e.b_endpoint_address_num as int;
    assert(0 <= d <= 1 && 0 <= n < 16);
    assert(b[2] == d * 0x80 + n);
    assert((d * 0x80 + n) / 0x80 == d && (d * 0x80 + n) % 16 == n) by (nonlinear_arith)
        requires
            0 <= d <= 1 && 0 <= n < 16,
    ;
    let u = e.bm_attributes_usage_type.spec_code() as int;
    let s = e.bm_attributes_sync_type.spec_code() as int;
    let x = e.bm_attributes_xfer_type.spec_code() as int;
    assert(0 <= u <= 3 && 0 <= s <= 3 && 0 <= x <= 3);
    assert(b[3] == u * 0x10 + s * 4 + x);
    assert((u * 0x10 + s * 4 + x) / 0x10 % 4 == u && (u * 0x10 + s * 4 + x) / 4 % 4 == s && (u
        * 0x10 + s * 4 + x) % 4 == x) by (nonlinear_arith)
        requires
            0 <= u <= 3 && 0 <= s <= 3 && 0 <= x <= 3,
    ;
    crate::bytes::lemma_le16_roundtrip(e.w_max_packet_size);
}

/// Builder for an [`EndpointDescriptor`].
pub struct EndpointBuilder {
    /// The descriptor built so far.
    pub descriptor: EndpointDescriptor,
}

impl EndpointBuilder {
    /// Start from the default endpoint descriptor.
    pub fn new() -> (r: Self)
        ensures
            r.descriptor == (EndpointDescriptor {
                b_length: 7u8,
                b_descriptor_type: DescriptorType::Endpoint,
                b_endpoint_address_direction: Direction::Out,
                b_endpoint_address_num: 1u8,
                bm_attributes_usage_type: UsageType::Data,
                bm_attributes_sync_type: SynchronizationType::NoSynchronization,
                bm_attributes_xfer_type: TransferType::Control,
                w_max_packet_size: 0u16,
                b_interval: 1u8,
            }),
    {
        EndpointBuilder { descriptor: EndpointDescriptor::new() }
    }

    /// The built endpoint descriptor.
    pub fn build(&self) -> (r: EndpointDescriptor)
        ensures
            r == self.descriptor,
    {
        self.descriptor
    }

    /// Set the endpoint address number.  Should be greater than 0.
    pub fn address_num(self, num: u8) -> (r: Self)
        ensures
            r.descriptor == (EndpointDescriptor { b_endpoint_address_num: num, ..self.descriptor }),
    {
        EndpointBuilder {
            descriptor: EndpointDescriptor { b_endpoint_address_num: num, ..self.descriptor },
        }
    }

    /// Set the endpoint direction.
    pub fn direction(self, direction: Direction) -> (r: Self)
        ensures
            r.descriptor == (EndpointDescriptor {
                b_endpoint_address_direction: direction,
                ..self.descriptor
            }),
    {
        EndpointBuilder {
            descriptor: EndpointDescriptor {
                b_endpoint_address_direction: direction,
                ..self.descriptor
            },
        }
    }

    /// Set the endpoint transfer type.
    pub fn transfer_type(self, xfer_type: TransferType) -> (r: Self)
        ensures
            r.descriptor == (EndpointDescriptor {
                bm_attributes_xfer_type: xfer_type,
                ..self.descriptor
            }),
    {
        EndpointBuilder {
            descriptor: EndpointDescriptor { bm_attributes_xfer_type: xfer_type, ..self.descriptor },
        }
    }

    /// Set the endpoint synchronization type.
    pub fn sync_type(self, sync_type: SynchronizationType) -> (r: Self)
        ensures
            r.descriptor == (EndpointDescriptor {
                bm_attributes_sync_type: sync_type,
                ..self.descriptor
            }),
    {
        EndpointBuilder {
            descriptor: EndpointDescriptor { bm_attributes_sync_type: sync_type, ..self.descriptor },
        }
    }

    /// Set the endpoint usage type.
    pub fn usage_type(self, usage_type: UsageType) -> (r: Self)
        ensures
            r.descriptor == (EndpointDescriptor {
                bm_attributes_usage_type: usage_type,
                ..self.descriptor
            }),
    {
        EndpointBuilder {
            descriptor: EndpointDescriptor {
                bm_attributes_usage_type: usage_type,
                ..self.descriptor
            },
        }
    }

    /// Set the endpoint maximum packet size.
    pub fn max_packet_size(self, size: u16) -> (r: Self)
        ensures
            r.descriptor == (EndpointDescriptor { w_max_packet_size: size, ..self.descriptor }),
    {
        EndpointBuilder {
            descriptor: EndpointDescriptor { w_max_packet_size: size, ..self.descriptor },
        }
    }

    /// Set the polling interval, in frames or micro-frames depending on the
    /// operating speed.
    pub fn interval(self, interval: u8) -> (r: Self)
        ensures
            r.descriptor == (EndpointDescriptor { b_interval: interval, ..self.descriptor }),
    {
        EndpointBuilder {
            descriptor: EndpointDescriptor { b_interval: interval, ..self.descriptor },
        }
    }
}

/// A string descriptor body.  Index 0 of the string table holds the
/// language-identifier array; higher indices hold text, packed as raw
/// bytes on the wire.
#[derive(Debug, Clone)]
pub struct StringDescriptor {
    /// The descriptor body, at most 126 bytes when packed.
    pub data: Vec<u8>,
}

impl StringDescriptor {
    /// The packed form: length byte, type byte 3, then the body.
    pub open spec fn spec_pack(self) -> Seq<u8> {
        seq![(self.data@.len() + 2) as u8, 3u8] + self.data@
    }

    /// A descriptor holding the given body bytes.
    pub fn new(data: Vec<u8>) -> (r: Self)
        ensures
            r.data@ == data@,
    {
        StringDescriptor { data }
    }

    /// A descriptor holding the bytes of the given text.
    pub fn from_text(s: &str) -> (r: Self)
        ensures
            r.data@ == s.spec_bytes(),
    {
        StringDescriptor { data: s.as_bytes_vec() }
    }

    /// The language-identifier array descriptor: each identifier packed
    /// little-endian in order.
    pub fn from_lang_ids(langs: &Vec<LangId>) -> (r: Self)
        ensures
            r.data@ == spec_lang_id_bytes(langs@),
    {
        let mut data: Vec<u8> = Vec::new();
        let mut i: usize = 0;
        while i < langs.len()
            invariant
                i <= langs@.len(),
                data@ == spec_lang_id_bytes(langs@.take(i as int)),
            decreases langs@.len() - i,
        {
            push_le16(&mut data, langs[i].code());
            proof {
                assert(langs@.take(i + 1 as int).drop_last() =~= langs@.take(i as int));
                assert(langs@.take(i + 1 as int).last() == langs@[i as int]);
            }
            i = i + 1;
        }
        proof {
            assert(langs@.take(langs@.len() as int) =~= langs@);
        }
        StringDescriptor { data }
    }

    /// Pack the descriptor: `TooLong` when the body exceeds 126 bytes, else
    /// the length byte, the type byte and the body.
    pub fn pack_to_vec(&self) -> (r: Result<Vec<u8>, Error>)
        ensures
            self.data@.len() <= 126 ==> (r matches Ok(v) && v@ == self.spec_pack()),
            self.data@.len() > 126 ==> r == Err::<Vec<u8>, Error>(Error::TooLong),
    {
        if self.data.len() > 126 {
            return Err(Error::TooLong);
        }
        let b_length: u8 = (self.data.len() as u8) + 2;
        let mut out: Vec<u8> = Vec::new();
        out.push(b_length);
        out.push(3);
        let mut i: usize = 0;
        while i < self.data.len()
            invariant
                i <= self.data@.len(),
                self.data@.len() <= 126,
                out@ == seq![(self.data@.len() + 2) as u8, 3u8] + self.data@.take(i as int),
            decreases self.data@.len() - i,
        {
            let b = self.data[i];
            out.push(b);
            proof {
                assert(self.data@.take(i + 1 as int) =~= self.data@.take(i as int).push(
                    self.data@[i as int],
                ));
                assert(out@ =~= seq![(self.data@.len() + 2) as u8, 3u8] + self.data@.take(
                    i + 1 as int,
                ));
            }
            i = i + 1;
        }
        proof {
            assert(self.data@.take(self.data@.len() as int) =~= self.data@);
            assert(out@ =~= self.spec_pack());
        }
        Ok(out)
    }
}

/// The language-identifier array as bytes: each identifier little-endian,
/// in order.
pub open spec fn spec_lang_id_bytes(langs: Seq<LangId>) -> Seq<u8>
    decreases langs.len(),
{
    if langs.len() == 0 {
        Seq::empty()
    } else {
        spec_lang_id_bytes(langs.drop_last()) + spec_le16(langs.last().spec_code())
    }
}


/// An interface of a configuration: an HID interface, or raw descriptor
/// bytes packed verbatim.
#[derive(Debug, Clone)]
pub enum Interface {
    /// A Human Interface Device interface.
    Hid(crate::hid::HidInterface),
    /// Pre-packed descriptor bytes, written to the wire as they are.
    Raw(Vec<u8>),
}

impl Interface {
    /// The packed size of the interface.
    pub open spec fn spec_size(self) -> int {
        match self {
            Interface::Hid(h) => h.spec_size(),
            Interface::Raw(d) => d@.len() as int,
        }
    }

    /// The packed form of the interface.
    pub open spec fn spec_pack(self) -> Seq<u8> {
        match self {
            Interface::Hid(h) => h.spec_pack(),
            Interface::Raw(d) => d@,
        }
    }

    /// The interface class: the declared class of an HID interface, and
    /// vendor-specific for raw bytes, whose class the library cannot read.
    pub open spec fn spec_class(self) -> InterfaceClass {
        match self {
            Interface::Hid(h) => h.iface.b_interface_class,
            Interface::Raw(_) => InterfaceClass::VendorSpecific,
        }
    }

    /// The same interface, renumbered.  Raw bytes carry no interface number
    /// the library can set.
    pub open spec fn spec_with_number(self, num: u8) -> Interface {
        match self {
            Interface::Hid(h) => Interface::Hid(
                crate::hid::HidInterface {
                    iface: InterfaceDescriptor { b_interface_number: num, ..h.iface },
                    ..h
                },
            ),
            Interface::Raw(d) => Interface::Raw(d),
        }
    }

    /// An empty raw interface.
    pub fn new() -> (r: Self)
        ensures
            r matches Interface::Raw(d) && d@ == Seq::<u8>::empty(),
    {
        Interface::Raw(Vec::new())
    }

    /// Pack the interface into its wire form.
    pub fn pack_to_vec(&self) -> (r: Result<Vec<u8>, Error>)
        ensures
            r matches Ok(v) && v@ == self.spec_pack(),
    {
        match self {
            Interface::Hid(h) => h.pack_to_vec(),
            Interface::Raw(d) => {
                let mut out: Vec<u8> = Vec::new();
                out.extend_from_slice(d.as_slice());
                proof {
                    assert(out@ =~= d@);
                }
                Ok(out)
            },
        }
    }

    /// The packed size of the interface.
    pub fn get_size(&self) -> (r: usize)
        requires
            self.spec_size() <= usize::MAX,
        ensures
            r == self.spec_size(),
    {
        match self {
            Interface::Hid(h) => h.get_size(),
            Interface::Raw(d) => d.len(),
        }
    }

    /// The interface class.
    pub fn get_class(&self) -> (r: InterfaceClass)
        ensures
            r == self.spec_class(),
    {
        match self {
            Interface::Hid(h) => h.get_class(),
            Interface::Raw(_) => InterfaceClass::VendorSpecific,
        }
    }
}

/// The interfaces of a configuration as bytes, in order.
pub open spec fn spec_pack_interfaces(s: Seq<Interface>) -> Seq<u8>
    decreases s.len(),
{
    if s.len() == 0 {
        Seq::empty()
    } else {
        spec_pack_interfaces(s.drop_last()) + s.last().spec_pack()
    }
}

/// A configuration: its 9-byte descriptor header and an ordered list of
/// interfaces.  The total length and interface count of the header are
/// derived from the interface list when the configuration packs.
#[derive(Debug, Clone)]
pub struct Configuration {
    /// The configuration descriptor header.
    pub conf_desc: ConfigurationDescriptor,
    /// The interfaces, numbered densely from 0 in insertion order.
    pub interfaces: Vec<Interface>,
}

impl Configuration {
    /// The packed size: the 9-byte header followed by every interface.
    pub open spec fn spec_size(self) -> int {
        9 + spec_pack_interfaces(self.interfaces@).len() as int
    }

    /// True when the configuration fits its wire fields: the total length
    /// in 16 bits and the interface count in 8.
    pub open spec fn spec_packable(self) -> bool {
        self.spec_size() <= 0xFFFF && self.interfaces@.len() <= 255
    }

    /// The packed form: the header with its total length and interface
    /// count derived from the live interface list, then every interface.
    pub open spec fn spec_pack(self) -> Seq<u8> {
        ConfigurationDescriptor {
            w_total_length: self.spec_size() as u16,
            b_num_interfaces: self.interfaces@.len() as u8,
            ..self.conf_desc
        }.spec_pack() + spec_pack_interfaces(self.interfaces@)
    }

    /// A configuration of the given header and interfaces.
    pub fn new(conf_desc: ConfigurationDescriptor, interfaces: Vec<Interface>) -> (r: Self)
        ensures
            r.conf_desc == conf_desc,
            r.interfaces == interfaces,
    {
        Configuration { conf_desc, interfaces }
    }

    /// Pack the configuration.  The header's total length and interface
    /// count are recomputed from the interface list; `TooLong` when either
    /// does not fit its wire field.
    pub fn pack_to_vec(&self) -> (r: Result<Vec<u8>, Error>)
        ensures
            self.spec_packable() ==> (r matches Ok(v) && v@ == self.spec_pack() && v@.len()
                == self.spec_size()),
            !self.spec_packable() ==> r == Err::<Vec<u8>, Error>(Error::TooLong),
    {
        let mut body: Vec<u8> = Vec::new();
        let mut i: usize = 0;
        while i < self.interfaces.len()
            invariant
                i <= self.interfaces@.len(),
                body@ == spec_pack_interfaces(self.interfaces@.take(i as int)),
            decreases self.interfaces@.len() - i,
        {
            // Interfaces always pack; the contract of pack_to_vec rules the
            // error arm out.
            let mut part = match self.interfaces[i].pack_to_vec() {
                Ok(part) => part,
                Err(e) => {
                    return Err(e);
                },
            };
            body.append(&mut part);
            proof {
                let s = self.interfaces@;
                assert(s.take(i + 1 as int).drop_last() =~= s.take(i as int));
                assert(s.take(i + 1 as int).last() == s[i as int]);
            }
            i = i + 1;
        }
        proof {
            let s = self.interfaces@;
            assert(s.take(s.len() as int) =~= s);
        }
        if body.len() > 0xFFFF - 9 || self.interfaces.len() > 255 {
            return Err(Error::TooLong);
        }
        let total: u16 = 9 + (body.len() as u16);
        let header = ConfigurationDescriptor {
            w_total_length: total,
            b_num_interfaces: self.interfaces.len() as u8,
            ..self.conf_desc
        };
        let mut out = header.pack_to_vec();
        out.append(&mut body);
        proof {
            assert(out@ =~= self.spec_pack());
        }
        Ok(out)
    }

    /// The packed size of the configuration.
    pub fn get_size(&self) -> (r: usize)
        requires
            self.spec_size() <= usize::MAX,
        ensures
            r == self.spec_size(),
    {
        let mut size: usize = 9;
        let mut i: usize = 0;
        while i < self.interfaces.len()
            invariant
                i <= self.interfaces@.len(),
                size == 9 + spec_pack_interfaces(self.interfaces@.take(i as int)).len(),
                self.spec_size() <= usize::MAX,
            decreases self.interfaces@.len() - i,
        {
            proof {
                let s = self.interfaces@;
                assert(s.take(i + 1 as int).drop_last() =~= s.take(i as int));
                assert(s.take(i + 1 as int).last() == s[i as int]);
                lemma_interface_pack_len(s[i as int]);
                lemma_pack_interfaces_take_len_monotonic(s, i + 1);
            }
            let part = self.interfaces[i].get_size();
            size = size + part;
            i = i + 1;
        }
        proof {
            let s = self.interfaces@;
            assert(s.take(s.len() as int) =~= s);
        }
        size
    }
}

/// An interface packs to exactly its packed size.
pub proof fn lemma_interface_pack_len(iface: Interface)
    ensures
        iface.spec_pack().len() == iface.spec_size(),
{
    match iface {
        Interface::Hid(h) => {
            lemma_pack_report_infos_len(h.report_descriptor_info@);
            lemma_pack_endpoints_len(h.endpoint_descriptors@);
        },
        Interface::Raw(_) => {},
    }
}

/// Report descriptor headers pack to three bytes each.
pub proof fn lemma_pack_report_infos_len(s: Seq<crate::hid::HidReportDescriptorInfo>)
    ensures
        crate::hid::spec_pack_report_infos(s).len() == 3 * s.len(),
    decreases s.len(),
{
    if s.len() > 0 {
        lemma_pack_report_infos_len(s.drop_last());
    }
}

/// Endpoint descriptors pack to seven bytes each.
pub proof fn lemma_pack_endpoints_len(s: Seq<EndpointDescriptor>)
    ensures
        crate::hid::spec_pack_endpoints(s).len() == 7 * s.len(),
    decreases s.len(),
{
    if s.len() > 0 {
        lemma_pack_endpoints_len(s.drop_last());
    }
}

/// A prefix of the interface list packs to no more bytes than the whole.
pub proof fn lemma_pack_interfaces_take_len_monotonic(s: Seq<Interface>, i: int)
    requires
        0 <= i <= s.len(),
    ensures
        spec_pack_interfaces(s.take(i)).len() <= spec_pack_interfaces(s).len(),
    decreases s.len() - i,
{
    if i < s.len() {
        lemma_pack_interfaces_take_len_monotonic(s, i + 1);
        assert(s.take(i + 1).drop_last() =~= s.take(i));
    } else {
        assert(s.take(i) =~= s);
    }
}

/// Builder for a [`Configuration`].
pub struct ConfigurationBuilder {
    /// The configuration built so far.
    pub config: Configuration,
}

impl ConfigurationBuilder {
    /// Start from a bus-powered configuration with value 1 and no
    /// interfaces.
    pub fn new() -> (r: Self)
        ensures
            r.config.conf_desc == (ConfigurationDescriptor {
                b_length: 9u8,
                b_descriptor_type: 2u8,
                w_total_length: 0u16,
                b_num_interfaces: 0u8,
                b_configuration_value: 1u8,
                i_configuration: 0u8,
                bm_attributes: 0x80u8,
                b_max_power: 0u8,
            }),
            r.config.interfaces@ == Seq::<Interface>::empty(),
    {
        ConfigurationBuilder {
            config: Configuration { conf_desc: ConfigurationDescriptor::new(), interfaces: Vec::new() },
        }
    }

    /// The built configuration.
    pub fn build(self) -> (r: Configuration)
        ensures
            r == self.config,
    {
        self.config
    }

    /// Set the maximum power drawn from the bus, in milliamperes; the
    /// descriptor stores it in 2 mA units.
    pub fn max_power(self, max_power_ma: u16) -> (r: Self)
        requires
            max_power_ma / 2 <= 255,
        ensures
            r.config.conf_desc == (ConfigurationDescriptor {
                b_max_power: (max_power_ma / 2) as u8,
                ..self.config.conf_desc
            }),
            r.config.interfaces == self.config.interfaces,
    {
        let mut config = self.config;
        config.conf_desc.b_max_power = (max_power_ma / 2) as u8;
        ConfigurationBuilder { config }
    }

    /// Add an interface: it takes the next dense interface number, and the
    /// header's interface count and total length stay current.
    pub fn interface(self, interface: Interface) -> (r: Self)
        requires
            self.config.interfaces@.len() < 255,
            self.config.spec_size() + interface.spec_size() <= 0xFFFF,
        ensures
            r.config.interfaces@ == self.config.interfaces@.push(
                interface.spec_with_number(self.config.interfaces@.len() as u8),
            ),
            r.config.conf_desc == (ConfigurationDescriptor {
                b_num_interfaces: (self.config.interfaces@.len() + 1) as u8,
                w_total_length: (self.config.spec_size() + interface.spec_size()) as u16,
                ..self.config.conf_desc
            }),
    {
        let ghost orig = interface;
        let mut config = self.config;
        let num = config.interfaces.len() as u8;
        let interface = match interface {
            Interface::Hid(mut h) => {
                h.set_interface_number(num);
                Interface::Hid(h)
            },
            Interface::Raw(d) => Interface::Raw(d),
        };
        proof {
            assert(interface == orig.spec_with_number(num));
            assert(interface.spec_size() == orig.spec_size());
        }
        config.interfaces.push(interface);
        proof {
            let s0 = self.config.interfaces@;
            assert(config.interfaces@.drop_last() =~= s0);
            assert(config.interfaces@.last() == interface);
            lemma_interface_pack_len(interface);
            assert(config.spec_size() == self.config.spec_size() + orig.spec_size());
        }
        config.conf_desc.b_num_interfaces = config.interfaces.len() as u8;
        let size = config.get_size();
        config.conf_desc.w_total_length = size as u16;
        ConfigurationBuilder { config }
    }
}


/// A packed configuration declares its own length: for every configuration
/// that fits its wire fields, bytes 2..4 of the packed form, read
/// little-endian, equal the packed length, and byte 4 equals the number of
/// interfaces.
pub proof fn lemma_configuration_pack_header(c: Configuration)
    requires
        c.spec_packable(),
    ensures
        c.spec_pack().len() == c.spec_size(),
        c.spec_pack()[2] + 256 * c.spec_pack()[3] == c.spec_pack().len(),
        c.spec_pack()[4] == c.interfaces@.len(),
{
    let total = c.spec_size() as u16;
    let header = ConfigurationDescriptor {
        w_total_length: total,
        b_num_interfaces: c.interfaces@.len() as u8,
        ..c.conf_desc
    };
    assert(header.spec_pack().len() == 9);
    assert(c.spec_pack()[2] == lo16(total));
    assert(c.spec_pack()[3] == hi16(total));
    assert(lo16(total) + 256 * hi16(total) == total);
    assert(c.spec_pack()[4] == header.b_num_interfaces);
}


/// Unpacking a packed device descriptor yields the descriptor itself.
pub proof fn lemma_device_descriptor_roundtrip(d: DeviceDescriptor)
    ensures
        DeviceDescriptor::spec_unpack(d.spec_pack()) == Ok::<DeviceDescriptor, Error>(d),
{
    crate::bytes::lemma_le16_roundtrip(d.bcd_usb);
    crate::bytes::lemma_le16_roundtrip(d.id_vendor);
    crate::bytes::lemma_le16_roundtrip(d.id_product);
    crate::bytes::lemma_le16_roundtrip(d.bcd_device);
}

/// Unpacking a packed device qualifier yields the qualifier itself.
pub proof fn lemma_device_qualifier_roundtrip(d: DeviceQualifierDescriptor)
    ensures
        DeviceQualifierDescriptor::spec_unpack(d.spec_pack()) == Ok::<
            DeviceQualifierDescriptor,
            Error,
        >(d),
{
    crate::bytes::lemma_le16_roundtrip(d.bcd_usb);
}

/// Unpacking a packed configuration descriptor header yields the header
/// itself.
pub proof fn lemma_configuration_descriptor_roundtrip(d: ConfigurationDescriptor)
    ensures
        ConfigurationDescriptor::spec_unpack(d.spec_pack()) == Ok::<
            ConfigurationDescriptor,
            Error,
        >(d),
{
    crate::bytes::lemma_le16_roundtrip(d.w_total_length);
}

/// Unpacking a packed interface descriptor yields the descriptor itself.
pub proof fn lemma_interface_descriptor_roundtrip(d: InterfaceDescriptor)
    ensures
        InterfaceDescriptor::spec_unpack(d.spec_pack()) == Ok::<InterfaceDescriptor, Error>(d),
{
}

} // verus!
