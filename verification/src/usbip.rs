//! USB/IP protocol headers and their byte-exact codec.
//!
//! Every header is 48 bytes on the wire, starting with the 20-byte basic
//! header; multi-byte fields are big-endian.  Shorter headers pad with
//! zeros to 48 bytes.

use vstd::prelude::*;

use crate::Error;
use crate::bytes::{
    spec_be32, spec_be_i32, spec_u32_of_be, push_be32, push_be_i32, u32_of_be, i32_of_u32,
    spec_i32_of_u32, spec_u32_of_i32,
};
use crate::usb::SetupRequest;

verus! {

/// Longest sysfs path the adapter handles.
pub const SYSFS_PATH_MAX: usize = 256;

/// Longest bus identifier the adapter handles.
pub const SYSFS_BUS_ID_SIZE: usize = 32;

/// Longest status attribute name the adapter handles.
pub const MAX_STATUS_NAME: usize = 18;

/// Size of every USB/IP header on the wire.
pub const USBIP_CMD_SIZE: usize = 48;

/// Command number of CMD_SUBMIT.
pub const USBIP_CMD_SUBMIT: u32 = 1;

/// Command number of CMD_UNLINK.
pub const USBIP_CMD_UNLINK: u32 = 2;

/// Command number of RET_SUBMIT.
pub const USBIP_RET_SUBMIT: u32 = 3;

/// Command number of RET_UNLINK.
pub const USBIP_RET_UNLINK: u32 = 4;

/// Transfer direction, from the host's point of view.
#[derive(Debug, Copy, Clone, PartialEq, Eq, Structural)]
pub enum UsbIpDirection {
    Out,
    In,
}

impl UsbIpDirection {
    /// Wire code of this direction.
    pub open spec fn spec_code(self) -> u32 {
        match self {
            UsbIpDirection::Out => 0,
            UsbIpDirection::In => 1,
        }
    }

    /// Wire code of this direction.
    #[verifier::when_used_as_spec(spec_code)]
    pub fn code(self) -> (r: u32)
        ensures
            r == self.spec_code(),
    {
        match self {
            UsbIpDirection::Out => 0,
            UsbIpDirection::In => 1,
        }
    }

    /// The direction a wire code stands for, if any.
    pub open spec fn spec_from_code(c: u32) -> Option<UsbIpDirection> {
        if c == 0 {
            Some(UsbIpDirection::Out)
        } else if c == 1 {
            Some(UsbIpDirection::In)
        } else {
            None
        }
    }

    /// The direction a wire code stands for, if any.
    pub fn from_code(c: u32) -> (r: Option<UsbIpDirection>)
        ensures
            r == UsbIpDirection::spec_from_code(c),
    {
        if c == 0 {
            Some(UsbIpDirection::Out)
        } else if c == 1 {
            Some(UsbIpDirection::In)
        } else {
            None
        }
    }
}

/// Speeds of the virtual hub.
#[derive(Debug, Copy, Clone, PartialEq, Eq, Structural)]
pub enum HubSpeed {
    High,
    Super,
}

impl HubSpeed {
    /// Wire code of this speed.
    pub open spec fn spec_code(self) -> u32 {
        match self {
            HubSpeed::High => 0,
            HubSpeed::Super => 1,
        }
    }

    /// Wire code of this speed.
    #[verifier::when_used_as_spec(spec_code)]
    pub fn code(self) -> (r: u32)
        ensures
            r == self.spec_code(),
    {
        match self {
            HubSpeed::High => 0,
            HubSpeed::Super => 1,
        }
    }
}

/// USB device speeds as the kernel numbers them.
#[derive(Debug, Copy, Clone, PartialEq, Eq, Structural)]
pub enum USBDeviceSpeed {
    USBSpeedUnknown,
    USBSpeedLow,
    USBSpeedFull,
    USBSpeedHigh,
    USBSpeedWireless,
    USBSpeedSuper,
    USBSpeedSuperPlus,
}

impl USBDeviceSpeed {
    /// The kernel's number for this speed.
    pub open spec fn spec_code(self) -> u32 {
        match self {
            USBDeviceSpeed::USBSpeedUnknown => 0,
            USBDeviceSpeed::USBSpeedLow => 1,
            USBDeviceSpeed::USBSpeedFull => 2,
            USBDeviceSpeed::USBSpeedHigh => 3,
            USBDeviceSpeed::USBSpeedWireless => 4,
            USBDeviceSpeed::USBSpeedSuper => 5,
            USBDeviceSpeed::USBSpeedSuperPlus => 6,
        }
    }

    /// The kernel's number for this speed.
    #[verifier::when_used_as_spec(spec_code)]
    pub fn code(self) -> (r: u32)
        ensures
            r == self.spec_code(),
    {
        match self {
            USBDeviceSpeed::USBSpeedUnknown => 0,
            USBDeviceSpeed::USBSpeedLow => 1,
            USBDeviceSpeed::USBSpeedFull => 2,
            USBDeviceSpeed::USBSpeedHigh => 3,
            USBDeviceSpeed::USBSpeedWireless => 4,
            USBDeviceSpeed::USBSpeedSuper => 5,
            USBDeviceSpeed::USBSpeedSuperPlus => 6,
        }
    }
}

/// The 20-byte basic header that starts every USB/IP message.
#[derive(Debug, Copy, Clone, PartialEq, Eq, Structural)]
pub struct USBIPHeaderBasic {
    /// Command number.
    pub command: u32,
    /// Sequence number pairing replies with requests.
    pub seqnum: u32,
    /// Device identifier.
    pub devid: u32,
    /// Transfer direction.
    pub direction: UsbIpDirection,
    /// Endpoint number.
    pub ep: u32,
}

impl USBIPHeaderBasic {
    /// The packed 20-byte form.
    pub open spec fn spec_pack(self) -> Seq<u8> {
        spec_be32(self.command) + spec_be32(self.seqnum) + spec_be32(self.devid) + spec_be32(
            self.direction.spec_code(),
        ) + spec_be32(self.ep)
    }

    /// The header read back from the first 20 of at least 20 bytes;
    /// `InvalidEnum` when the direction word is neither 0 nor 1.
    pub open spec fn spec_unpack(b: Seq<u8>) -> Result<USBIPHeaderBasic, Error>
        recommends
            b.len() >= 20,
    {
        match UsbIpDirection::spec_from_code(spec_u32_of_be(b[12], b[13], b[14], b[15])) {
            None => Err(Error::InvalidEnum),
            Some(direction) => Ok(USBIPHeaderBasic {
                command: spec_u32_of_be(b[0], b[1], b[2], b[3]),
                seqnum: spec_u32_of_be(b[4], b[5], b[6], b[7]),
                devid: spec_u32_of_be(b[8], b[9], b[10], b[11]),
                direction,
                ep: spec_u32_of_be(b[16], b[17], b[18], b[19]),
            }),
        }
    }

    /// Pack the header into its 20-byte wire form.
    pub fn pack_to_vec(&self) -> (r: Vec<u8>)
        ensures
            r@ == self.spec_pack(),
            r@.len() == 20,
    {
        let mut out: Vec<u8> = Vec::new();
        push_be32(&mut out, self.command);
        push_be32(&mut out, self.seqnum);
        push_be32(&mut out, self.devid);
        push_be32(&mut out, self.direction.code());
        push_be32(&mut out, self.ep);
        proof {
            assert(out@ =~= self.spec_pack());
        }
        out
    }

    /// Read a basic header back from the front of a buffer.
    pub fn unpack(b: &[u8]) -> (r: Result<USBIPHeaderBasic, Error>)
        requires
            b@.len() >= 20,
        ensures
            r == USBIPHeaderBasic::spec_unpack(b@),
    {
        let direction = match UsbIpDirection::from_code(u32_of_be(b[12], b[13], b[14], b[15])) {
            Some(direction) => direction,
            None => {
                return Err(Error::InvalidEnum);
            },
        };
        Ok(USBIPHeaderBasic {
            command: u32_of_be(b[0], b[1], b[2], b[3]),
            seqnum: u32_of_be(b[4], b[5], b[6], b[7]),
            devid: u32_of_be(b[8], b[9], b[10], b[11]),
            direction,
            ep: u32_of_be(b[16], b[17], b[18], b[19]),
        })
    }
}

/// Unpacking a packed basic header yields the header itself.
pub proof fn lemma_basic_header_roundtrip(h: USBIPHeaderBasic)
    ensures
        USBIPHeaderBasic::spec_unpack(h.spec_pack()) == Ok::<USBIPHeaderBasic, Error>(h),
{
    crate::bytes::lemma_be32_roundtrip(h.command);
    crate::bytes::lemma_be32_roundtrip(h.seqnum);
    crate::bytes::lemma_be32_roundtrip(h.devid);
    crate::bytes::lemma_be32_roundtrip(h.direction.spec_code());
    crate::bytes::lemma_be32_roundtrip(h.ep);
}

/// Zero padding of the given length.
pub open spec fn spec_zeros(n: int) -> Seq<u8> {
    Seq::new(n as nat, |i: int| 0u8)
}

/// Append `n` zero bytes.
pub fn push_zeros(out: &mut Vec<u8>, n: usize)
    ensures
        final(out)@ == old(out)@ + spec_zeros(n as int),
{
    let mut i: usize = 0;
    while i < n
        invariant
            i <= n,
            out@ == old(out)@ + spec_zeros(i as int),
        decreases n - i,
    {
        out.push(0);
        proof {
            assert(out@ =~= old(out)@ + spec_zeros(i + 1 as int));
        }
        i = i + 1;
    }
}

/// The 48-byte CMD_SUBMIT header.
#[derive(Debug, Copy, Clone, PartialEq, Eq, Structural)]
pub struct USBIPHeaderCmdSubmit {
    /// Basic header; its command number shall be 1.
    pub base: USBIPHeaderBasic,
    /// URB transfer flags.
    pub transfer_flags: u32,
    /// URB transfer buffer length.
    pub transfer_buffer_length: i32,
    /// Initial frame for an isochronous transfer; 0 otherwise.
    pub start_frame: i32,
    /// Number of isochronous packets.
    pub number_of_packets: i32,
    /// Maximum time for the request on the host controller.
    pub interval: i32,
    /// The 8-byte setup packet; zero-filled when unused.
    pub setup: SetupRequest,
}

impl USBIPHeaderCmdSubmit {
    /// The packed 48-byte form.
    pub open spec fn spec_pack(self) -> Seq<u8> {
        self.base.spec_pack() + spec_be32(self.transfer_flags) + spec_be_i32(
            self.transfer_buffer_length,
        ) + spec_be_i32(self.start_frame) + spec_be_i32(self.number_of_packets) + spec_be_i32(
            self.interval,
        ) + self.setup.spec_pack()
    }

    /// Pack the header into its 48-byte wire form.
    pub fn pack_to_vec(&self) -> (r: Vec<u8>)
        ensures
            r@ == self.spec_pack(),
            r@.len() == 48,
    {
        let mut out = self.base.pack_to_vec();
        push_be32(&mut out, self.transfer_flags);
        push_be_i32(&mut out, self.transfer_buffer_length);
        push_be_i32(&mut out, self.start_frame);
        push_be_i32(&mut out, self.number_of_packets);
        push_be_i32(&mut out, self.interval);
        let mut setup = self.setup.pack_to_vec();
        out.append(&mut setup);
        proof {
            assert(out@ =~= self.spec_pack());
        }
        out
    }
}

/// The 48-byte RET_SUBMIT header: 40 bytes of fields and 8 bytes of
/// padding.
#[derive(Debug, Copy, Clone, PartialEq, Eq, Structural)]
pub struct USBIPHeaderRetSubmit {
    /// Basic header; its command number shall be 3.
    pub base: USBIPHeaderBasic,
    /// Zero for a successful transaction.
    pub status: i32,
    /// Number of URB data bytes.
    pub actual_length: i32,
    /// Initial frame for an isochronous transfer; 0 otherwise.
    pub start_frame: i32,
    /// Number of isochronous packets.
    pub number_of_packets: i32,
    /// Number of errors of an isochronous transfer.
    pub error_count: i32,
}

impl USBIPHeaderRetSubmit {
    /// The packed 48-byte form.
    pub open spec fn spec_pack(self) -> Seq<u8> {
        self.base.spec_pack() + spec_be_i32(self.status) + spec_be_i32(self.actual_length)
            + spec_be_i32(self.start_frame) + spec_be_i32(self.number_of_packets) + spec_be_i32(
            self.error_count,
        ) + spec_zeros(8)
    }

    /// Pack the header into its 48-byte wire form.
    pub fn pack_to_vec(&self) -> (r: Vec<u8>)
        ensures
            r@ == self.spec_pack(),
            r@.len() == 48,
    {
        let mut out = self.base.pack_to_vec();
        push_be_i32(&mut out, self.status);
        push_be_i32(&mut out, self.actual_length);
        push_be_i32(&mut out, self.start_frame);
        push_be_i32(&mut out, self.number_of_packets);
        push_be_i32(&mut out, self.error_count);
        push_zeros(&mut out, 8);
        proof {
            assert(out@ =~= self.spec_pack());
        }
        out
    }
}

/// The 48-byte CMD_UNLINK header: 24 bytes of fields and 24 bytes of
/// padding.
#[derive(Debug, Copy, Clone, PartialEq, Eq, Structural)]
pub struct USBIPHeaderCmdUnlink {
    /// Basic header; its command number shall be 2.
    pub base: USBIPHeaderBasic,
    /// Sequence number of the submit to unlink.
    pub seqnum: u32,
}

impl USBIPHeaderCmdUnlink {
    /// The packed 48-byte form.
    pub open spec fn spec_pack(self) -> Seq<u8> {
        self.base.spec_pack() + spec_be32(self.seqnum) + spec_zeros(24)
    }

    /// Pack the header into its 48-byte wire form.
    pub fn pack_to_vec(&self) -> (r: Vec<u8>)
        ensures
            r@ == self.spec_pack(),
            r@.len() == 48,
    {
        let mut out = self.base.pack_to_vec();
        push_be32(&mut out, self.seqnum);
        push_zeros(&mut out, 24);
        proof {
            assert(out@ =~= self.spec_pack());
        }
        out
    }
}

/// The 48-byte RET_UNLINK header: 24 bytes of fields and 24 bytes of
/// padding.
#[derive(Debug, Copy, Clone, PartialEq, Eq, Structural)]
pub struct USBIPHeaderRetUnlink {
    /// Basic header; its command number shall be 4.
    pub base: USBIPHeaderBasic,
    /// Status of the unlink; -104 acknowledges the cancelled transfer.
    pub status: i32,
}

impl USBIPHeaderRetUnlink {
    /// The packed 48-byte form.
    pub open spec fn spec_pack(self) -> Seq<u8> {
        self.base.spec_pack() + spec_be_i32(self.status) + spec_zeros(24)
    }

    /// Pack the header into its 48-byte wire form.
    pub fn pack_to_vec(&self) -> (r: Vec<u8>)
        ensures
            r@ == self.spec_pack(),
            r@.len() == 48,
    {
        let mut out = self.base.pack_to_vec();
        push_be_i32(&mut out, self.status);
        push_zeros(&mut out, 24);
        proof {
            assert(out@ =~= self.spec_pack());
        }
        out
    }
}

/// A 48-byte frame read only far enough to learn its command number.
#[derive(Debug, Copy, Clone, PartialEq, Eq, Structural)]
pub struct USBIPHeaderInit {
    /// The basic header that starts the frame.
    pub base: USBIPHeaderBasic,
}

impl USBIPHeaderInit {
    /// Read the basic header off a 48-byte frame.
    pub fn unpack(b: &[u8]) -> (r: Result<USBIPHeaderInit, Error>)
        ensures
            b@.len() != 48 ==> r == Err::<USBIPHeaderInit, Error>(Error::Malformed),
            b@.len() == 48 ==> r == (match USBIPHeaderBasic::spec_unpack(b@) {
                Ok(base) => Ok(USBIPHeaderInit { base }),
                Err(e) => Err(e),
            }),
    {
        if b.len() != 48 {
            return Err(Error::Malformed);
        }
        match USBIPHeaderBasic::unpack(b) {
            Ok(base) => Ok(USBIPHeaderInit { base }),
            Err(e) => Err(e),
        }
    }
}

/// A command received from the host.
#[derive(Debug, Copy, Clone, PartialEq, Eq, Structural)]
pub enum USBIPCommandHeader {
    CmdSubmit(USBIPHeaderCmdSubmit),
    CmdUnlink(USBIPHeaderCmdUnlink),
}

impl USBIPCommandHeader {
    /// The basic header of the command.
    pub open spec fn spec_get_header(&self) -> USBIPHeaderBasic {
        match self {
            USBIPCommandHeader::CmdSubmit(cmd) => cmd.base,
            USBIPCommandHeader::CmdUnlink(cmd) => cmd.base,
        }
    }

    /// The basic header of the command.
    #[verifier::when_used_as_spec(spec_get_header)]
    pub fn get_header(&self) -> (r: USBIPHeaderBasic)
        ensures
            r == self.spec_get_header(),
    {
        match self {
            USBIPCommandHeader::CmdSubmit(cmd) => cmd.base,
            USBIPCommandHeader::CmdUnlink(cmd) => cmd.base,
        }
    }
}

/// A reply sent to the host.
#[derive(Debug, Copy, Clone, PartialEq, Eq, Structural)]
pub enum USBIPReplyHeader {
    RetSubmit(USBIPHeaderRetSubmit),
    RetUnlink(USBIPHeaderRetUnlink),
}

impl USBIPReplyHeader {
    /// The packed 48-byte form of the reply header.
    pub open spec fn spec_pack(self) -> Seq<u8> {
        match self {
            USBIPReplyHeader::RetSubmit(h) => h.spec_pack(),
            USBIPReplyHeader::RetUnlink(h) => h.spec_pack(),
        }
    }

    /// Pack the reply header into its 48-byte wire form.
    pub fn pack_to_vec(&self) -> (r: Vec<u8>)
        ensures
            r@ == self.spec_pack(),
            r@.len() == 48,
    {
        match self {
            USBIPReplyHeader::RetSubmit(h) => h.pack_to_vec(),
            USBIPReplyHeader::RetUnlink(h) => h.pack_to_vec(),
        }
    }
}

/// The command a 48-byte frame holds.  `Malformed` on any other length,
/// `InvalidEnum` when the command number, a direction word or a setup
/// enum field is outside its range.
pub open spec fn spec_parse_command(b: Seq<u8>) -> Result<USBIPCommandHeader, Error> {
    if b.len() != 48 {
        Err(Error::Malformed)
    } else {
        match USBIPHeaderBasic::spec_unpack(b) {
            Err(e) => Err(e),
            Ok(base) => if base.command == USBIP_CMD_SUBMIT {
                match SetupRequest::spec_unpack(b.subrange(40, 48)) {
                    Err(e) => Err(e),
                    Ok(setup) => Ok(USBIPCommandHeader::CmdSubmit(USBIPHeaderCmdSubmit {
                        base,
                        transfer_flags: spec_u32_of_be(b[20], b[21], b[22], b[23]),
                        transfer_buffer_length: spec_i32_of_u32(
                            spec_u32_of_be(b[24], b[25], b[26], b[27]),
                        ),
                        start_frame: spec_i32_of_u32(spec_u32_of_be(b[28], b[29], b[30], b[31])),
                        number_of_packets: spec_i32_of_u32(
                            spec_u32_of_be(b[32], b[33], b[34], b[35]),
                        ),
                        interval: spec_i32_of_u32(spec_u32_of_be(b[36], b[37], b[38], b[39])),
                        setup,
                    })),
                }
            } else if base.command == USBIP_CMD_UNLINK {
                Ok(USBIPCommandHeader::CmdUnlink(USBIPHeaderCmdUnlink {
                    base,
                    seqnum: spec_u32_of_be(b[20], b[21], b[22], b[23]),
                }))
            } else {
                Err(Error::InvalidEnum)
            },
        }
    }
}

/// Read the command a 48-byte frame holds.
pub fn parse_command(b: &[u8]) -> (r: Result<USBIPCommandHeader, Error>)
    ensures
        r == spec_parse_command(b@),
{
    if b.len() != 48 {
        return Err(Error::Malformed);
    }
    let base = match USBIPHeaderBasic::unpack(b) {
        Ok(base) => base,
        Err(e) => {
            return Err(e);
        },
    };
    if base.command == USBIP_CMD_SUBMIT {
        let setup_bytes = vstd::slice::slice_subrange(b, 40, 48);
        let setup = match SetupRequest::unpack(setup_bytes) {
            Ok(setup) => setup,
            Err(e) => {
                return Err(e);
            },
        };
        Ok(USBIPCommandHeader::CmdSubmit(USBIPHeaderCmdSubmit {
            base,
            transfer_flags: u32_of_be(b[20], b[21], b[22], b[23]),
            transfer_buffer_length: i32_of_u32(u32_of_be(b[24], b[25], b[26], b[27])),
            start_frame: i32_of_u32(u32_of_be(b[28], b[29], b[30], b[31])),
            number_of_packets: i32_of_u32(u32_of_be(b[32], b[33], b[34], b[35])),
            interval: i32_of_u32(u32_of_be(b[36], b[37], b[38], b[39])),
            setup,
        }))
    } else if base.command == USBIP_CMD_UNLINK {
        Ok(USBIPCommandHeader::CmdUnlink(USBIPHeaderCmdUnlink {
            base,
            seqnum: u32_of_be(b[20], b[21], b[22], b[23]),
        }))
    } else {
        Err(Error::InvalidEnum)
    }
}

/// How many payload bytes follow a command frame: the transfer buffer
/// length for an OUT submit, none otherwise.  `Malformed` when an OUT
/// submit declares a negative length.
pub open spec fn spec_command_payload_len(h: USBIPCommandHeader) -> Result<usize, Error> {
    match h {
        USBIPCommandHeader::CmdSubmit(cmd) => {
            if cmd.base.direction == UsbIpDirection::Out {
                if cmd.transfer_buffer_length < 0 {
                    Err(Error::Malformed)
                } else {
                    Ok(cmd.transfer_buffer_length as usize)
                }
            } else {
                Ok(0)
            }
        },
        USBIPCommandHeader::CmdUnlink(_) => Ok(0),
    }
}

/// How many payload bytes follow a command frame.
pub fn command_payload_len(h: &USBIPCommandHeader) -> (r: Result<usize, Error>)
    ensures
        r == spec_command_payload_len(*h),
{
    match h {
        USBIPCommandHeader::CmdSubmit(cmd) => {
            if cmd.base.direction == UsbIpDirection::Out {
                if cmd.transfer_buffer_length < 0 {
                    Err(Error::Malformed)
                } else {
                    Ok(cmd.transfer_buffer_length as usize)
                }
            } else {
                Ok(0)
            }
        },
        USBIPCommandHeader::CmdUnlink(_) => Ok(0),
    }
}

/// Parsing a packed CMD_SUBMIT frame yields the header itself, for every
/// header whose command number is 1.
#[verifier::rlimit(100)]
#[verifier::spinoff_prover]
pub proof fn lemma_cmd_submit_roundtrip(h: USBIPHeaderCmdSubmit)
    requires
        h.base.command == USBIP_CMD_SUBMIT,
    ensures
        spec_parse_command(h.spec_pack()) == Ok::<USBIPCommandHeader, Error>(
            USBIPCommandHeader::CmdSubmit(h),
        ),
{
    let b = h.spec_pack();
    lemma_basic_header_roundtrip(h.base);
    assert(b.subrange(0, 20) =~= h.base.spec_pack());
    assert(USBIPHeaderBasic::spec_unpack(b) == Ok::<USBIPHeaderBasic, Error>(h.base));
    crate::bytes::lemma_be32_roundtrip(h.transfer_flags);
    crate::bytes::lemma_be32_roundtrip(spec_u32_of_i32(h.transfer_buffer_length));
    crate::bytes::lemma_be32_roundtrip(spec_u32_of_i32(h.start_frame));
    crate::bytes::lemma_be32_roundtrip(spec_u32_of_i32(h.number_of_packets));
    crate::bytes::lemma_be32_roundtrip(spec_u32_of_i32(h.interval));
    crate::bytes::lemma_i32_u32_roundtrip(h.transfer_buffer_length);
    crate::bytes::lemma_i32_u32_roundtrip(h.start_frame);
    crate::bytes::lemma_i32_u32_roundtrip(h.number_of_packets);
    crate::bytes::lemma_i32_u32_roundtrip(h.interval);
    assert(b.subrange(40, 48) =~= h.setup.spec_pack());
    crate::usb::lemma_setup_request_roundtrip(h.setup);
}

/// Parsing a packed CMD_UNLINK frame yields the header itself, for every
/// header whose command number is 2.
pub proof fn lemma_cmd_unlink_roundtrip(h: USBIPHeaderCmdUnlink)
    requires
        h.base.command == USBIP_CMD_UNLINK,
    ensures
        spec_parse_command(h.spec_pack()) == Ok::<USBIPCommandHeader, Error>(
            USBIPCommandHeader::CmdUnlink(h),
        ),
{
    let b = h.spec_pack();
    lemma_basic_header_roundtrip(h.base);
    assert(USBIPHeaderBasic::spec_unpack(b) == Ok::<USBIPHeaderBasic, Error>(h.base));
    crate::bytes::lemma_be32_roundtrip(h.seqnum);
}


/// True of the ASCII whitespace that separates fields of the status table.
pub open spec fn is_space(b: u8) -> bool {
    b == 32 || b == 9 || b == 10 || b == 13
}

/// True of an ASCII decimal digit.
pub open spec fn is_digit(b: u8) -> bool {
    48 <= b <= 57
}

/// The first index at or after `i` holding a non-space byte, or the end.
pub open spec fn spec_skip_spaces(s: Seq<u8>, i: int) -> int
    recommends
        0 <= i <= s.len(),
    decreases s.len() - i,
{
    if i < s.len() && is_space(s[i]) {
        spec_skip_spaces(s, i + 1)
    } else {
        i
    }
}

/// The first index at or after `i` holding a space, or the end: the end of
/// the token starting at `i`.
pub open spec fn spec_token_end(s: Seq<u8>, i: int) -> int
    recommends
        0 <= i <= s.len(),
    decreases s.len() - i,
{
    if i < s.len() && !is_space(s[i]) {
        spec_token_end(s, i + 1)
    } else {
        i
    }
}

/// The first index at or after `i` holding a space byte.
fn skip_spaces(s: &[u8], i: usize) -> (r: usize)
    requires
        i <= s@.len(),
    ensures
        r == spec_skip_spaces(s@, i as int),
        i <= r <= s@.len(),
{
    let mut j = i;
    while j < s.len()
        invariant
            i <= j <= s@.len(),
            spec_skip_spaces(s@, i as int) == spec_skip_spaces(s@, j as int),
        decreases s@.len() - j,
    {
        let b = s[j];
        if !(b == 32 || b == 9 || b == 10 || b == 13) {
            return j;
        }
        j = j + 1;
    }
    j
}

/// The end of the token starting at `i`.
fn token_end(s: &[u8], i: usize) -> (r: usize)
    requires
        i <= s@.len(),
    ensures
        r == spec_token_end(s@, i as int),
        i <= r <= s@.len(),
{
    let mut j = i;
    while j < s.len()
        invariant
            i <= j <= s@.len(),
            spec_token_end(s@, i as int) == spec_token_end(s@, j as int),
        decreases s@.len() - j,
    {
        let b = s[j];
        if b == 32 || b == 9 || b == 10 || b == 13 {
            return j;
        }
        j = j + 1;
    }
    j
}

/// True when every byte of the token is a decimal digit.
pub open spec fn spec_all_digits(t: Seq<u8>) -> bool {
    forall|i: int| 0 <= i < t.len() ==> is_digit(#[trigger] t[i])
}

/// The number the digits of `t` spell in decimal.
pub open spec fn spec_digits_value(t: Seq<u8>) -> int
    decreases t.len(),
{
    if t.len() == 0 {
        0
    } else {
        spec_digits_value(t.drop_last()) * 10 + (t.last() - 48)
    }
}

/// A digit string's value is never negative.
pub proof fn lemma_digits_value_nonneg(t: Seq<u8>)
    requires
        spec_all_digits(t),
    ensures
        spec_digits_value(t) >= 0,
    decreases t.len(),
{
    if t.len() > 0 {
        assert(spec_all_digits(t.drop_last())) by {
            assert(forall|i: int| 0 <= i < t.len() - 1 ==> t.drop_last()[i] == t[i]);
        }
        lemma_digits_value_nonneg(t.drop_last());
    }
}

/// A digit string's value only grows as digits are appended.
pub proof fn lemma_digits_value_monotonic(t: Seq<u8>, i: int)
    requires
        spec_all_digits(t),
        0 <= i <= t.len(),
    ensures
        spec_digits_value(t.take(i)) <= spec_digits_value(t),
    decreases t.len() - i,
{
    if i < t.len() {
        lemma_digits_value_monotonic(t, i + 1);
        assert(t.take(i + 1).drop_last() =~= t.take(i));
        assert(spec_all_digits(t.take(i))) by {
            assert(forall|j: int| 0 <= j < i ==> t.take(i)[j] == t[j]);
        }
        lemma_digits_value_nonneg(t.take(i));
        assert(spec_digits_value(t.take(i + 1)) == spec_digits_value(t.take(i)) * 10 + (t[i]
            - 48));
    } else {
        assert(t.take(i) =~= t);
    }
}

/// The decimal number a token spells, when it is non-empty, all digits,
/// and its value is at most `bound`.
pub open spec fn spec_parse_decimal(t: Seq<u8>, bound: int) -> Option<int> {
    if t.len() > 0 && spec_all_digits(t) && spec_digits_value(t) <= bound {
        Some(spec_digits_value(t))
    } else {
        None
    }
}

/// Parse the decimal number a whole token spells, refusing values above
/// `bound`.
pub fn parse_decimal(t: &[u8], bound: u32) -> (r: Option<u32>)
    ensures
        match spec_parse_decimal(t@, bound as int) {
            Some(v) => 0 <= v <= bound && r == Some(v as u32),
            None => r is None,
        },
{
    if t.len() == 0 {
        return None;
    }
    let mut val: u64 = 0;
    let mut i: usize = 0;
    while i < t.len()
        invariant
            i <= t@.len(),
            t@.len() > 0,
            val <= bound,
            val == spec_digits_value(t@.take(i as int)),
            spec_all_digits(t@.take(i as int)),
        decreases t@.len() - i,
    {
        let b = t[i];
        if b < 48 || b > 57 {
            return None;
        }
        proof {
            assert(t@.take(i + 1 as int).drop_last() =~= t@.take(i as int));
            assert(forall|j: int| 0 <= j < i + 1 ==> is_digit(#[trigger] t@.take(i + 1 as int)[j]));
        }
        val = val * 10 + ((b - 48) as u64);
        if val > bound as u64 {
            proof {
                if spec_all_digits(t@) {
                    lemma_digits_value_monotonic(t@, i + 1 as int);
                }
            }
            return None;
        }
        i = i + 1;
    }
    proof {
        assert(t@.take(t@.len() as int) =~= t@);
    }
    Some(val as u32)
}

/// A row of the virtual hub's status table: hub speed, port number, port
/// status, device speed, device, socket file descriptor and local bus
/// identifier.
#[derive(Debug, Clone)]
pub struct VirtualUsbPort {
    /// The hub speed column, as its raw bytes.
    pub hub: Vec<u8>,
    /// The port number.
    pub port: u8,
    /// The port status; 4 marks a free port.
    pub status: u8,
    /// The negotiated speed.
    pub speed: u8,
    /// The device identifier.
    pub device: u32,
    /// The socket file descriptor attached to the port.
    pub sock_fd: u32,
    /// The local bus identifier column, as its raw bytes.
    pub local_bus_id: Vec<u8>,
}

/// A status row in the functional model.
pub struct PortModel {
    /// The hub speed column.
    pub hub: Seq<u8>,
    /// The port number.
    pub port: u8,
    /// The port status.
    pub status: u8,
    /// The negotiated speed.
    pub speed: u8,
    /// The device identifier.
    pub device: u32,
    /// The socket file descriptor.
    pub sock_fd: u32,
    /// The local bus identifier column.
    pub local_bus_id: Seq<u8>,
}

/// True when the port row handed out is the modelled one.
pub open spec fn port_matches(p: VirtualUsbPort, m: PortModel) -> bool {
    &&& p.hub@ == m.hub
    &&& p.port == m.port
    &&& p.status == m.status
    &&& p.speed == m.speed
    &&& p.device == m.device
    &&& p.sock_fd == m.sock_fd
    &&& p.local_bus_id@ == m.local_bus_id
}

/// The port row a status line spells: seven whitespace-separated fields,
/// of which the port, status and speed are 8-bit decimals and the device
/// and socket descriptor are 32-bit decimals.
pub open spec fn spec_parse_port_line(s: Seq<u8>) -> Option<PortModel> {
    let h0 = spec_skip_spaces(s, 0);
    let e0 = spec_token_end(s, h0);
    let h1 = spec_skip_spaces(s, e0);
    let e1 = spec_token_end(s, h1);
    let h2 = spec_skip_spaces(s, e1);
    let e2 = spec_token_end(s, h2);
    let h3 = spec_skip_spaces(s, e2);
    let e3 = spec_token_end(s, h3);
    let h4 = spec_skip_spaces(s, e3);
    let e4 = spec_token_end(s, h4);
    let h5 = spec_skip_spaces(s, e4);
    let e5 = spec_token_end(s, h5);
    let h6 = spec_skip_spaces(s, e5);
    let e6 = spec_token_end(s, h6);
    if h0 == e0 || h6 == e6 {
        None
    } else {
        match (
            spec_parse_decimal(s.subrange(h1, e1), 255),
            spec_parse_decimal(s.subrange(h2, e2), 255),
            spec_parse_decimal(s.subrange(h3, e3), 255),
            spec_parse_decimal(s.subrange(h4, e4), 0xFFFFFFFF),
            spec_parse_decimal(s.subrange(h5, e5), 0xFFFFFFFF),
        ) {
            (Some(port), Some(status), Some(speed), Some(device), Some(sock_fd)) => Some(
                PortModel {
                    hub: s.subrange(h0, e0),
                    port: port as u8,
                    status: status as u8,
                    speed: speed as u8,
                    device: device as u32,
                    sock_fd: sock_fd as u32,
                    local_bus_id: s.subrange(h6, e6),
                },
            ),
            _ => None,
        }
    }
}

impl VirtualUsbPort {
    /// Parse one line of the virtual hub's status table; `Malformed` when
    /// a field is missing or a number does not parse.
    pub fn try_from_line(line: &[u8]) -> (r: Result<VirtualUsbPort, Error>)
        ensures
            match spec_parse_port_line(line@) {
                Some(m) => r matches Ok(p) && port_matches(p, m),
                None => r == Err::<VirtualUsbPort, Error>(Error::Malformed),
            },
    {
        let h0 = skip_spaces(line, 0);
        let e0 = token_end(line, h0);
        let h1 = skip_spaces(line, e0);
        let e1 = token_end(line, h1);
        let h2 = skip_spaces(line, e1);
        let e2 = token_end(line, h2);
        let h3 = skip_spaces(line, e2);
        let e3 = token_end(line, h3);
        let h4 = skip_spaces(line, e3);
        let e4 = token_end(line, h4);
        let h5 = skip_spaces(line, e4);
        let e5 = token_end(line, h5);
        let h6 = skip_spaces(line, e5);
        let e6 = token_end(line, h6);
        if h0 == e0 || h6 == e6 {
            return Err(Error::Malformed);
        }
        let port = parse_decimal(vstd::slice::slice_subrange(line, h1, e1), 255);
        let status = parse_decimal(vstd::slice::slice_subrange(line, h2, e2), 255);
        let speed = parse_decimal(vstd::slice::slice_subrange(line, h3, e3), 255);
        let device = parse_decimal(vstd::slice::slice_subrange(line, h4, e4), 0xFFFFFFFF);
        let sock_fd = parse_decimal(vstd::slice::slice_subrange(line, h5, e5), 0xFFFFFFFF);
        match (port, status, speed, device, sock_fd) {
            (Some(port), Some(status), Some(speed), Some(device), Some(sock_fd)) => Ok(
                VirtualUsbPort {
                    hub: vstd::slice::slice_to_vec(vstd::slice::slice_subrange(line, h0, e0)),
                    port: port as u8,
                    status: status as u8,
                    speed: speed as u8,
                    device,
                    sock_fd,
                    local_bus_id: vstd::slice::slice_to_vec(
                        vstd::slice::slice_subrange(line, h6, e6),
                    ),
                },
            ),
            _ => Err(Error::Malformed),
        }
    }
}

/// The first index at or after `i` holding a line feed, or the end.
pub open spec fn spec_find_nl(s: Seq<u8>, i: int) -> int
    recommends
        0 <= i <= s.len(),
    decreases s.len() - i,
{
    if i < s.len() && s[i] != 10 {
        spec_find_nl(s, i + 1)
    } else {
        i
    }
}

/// The line break search stays inside the buffer.
pub proof fn lemma_find_nl_bounds(s: Seq<u8>, i: int)
    requires
        0 <= i <= s.len(),
    ensures
        i <= spec_find_nl(s, i) <= s.len(),
    decreases s.len() - i,
{
    if i < s.len() && s[i] != 10 {
        lemma_find_nl_bounds(s, i + 1);
    }
}

/// The first index at or after `i` holding a line feed, or the end.
fn find_nl(s: &[u8], i: usize) -> (r: usize)
    requires
        i <= s@.len(),
    ensures
        r == spec_find_nl(s@, i as int),
        i <= r <= s@.len(),
{
    let mut j = i;
    while j < s.len()
        invariant
            i <= j <= s@.len(),
            spec_find_nl(s@, i as int) == spec_find_nl(s@, j as int),
        decreases s@.len() - j,
    {
        if s[j] == 10 {
            return j;
        }
        j = j + 1;
    }
    j
}

/// True of the header line of the status table, which starts with "hub".
pub open spec fn spec_is_header_line(line: Seq<u8>) -> bool {
    line.len() >= 3 && line[0] == 104 && line[1] == 117 && line[2] == 98
}

/// The port rows the status table spells, line by line: the header line
/// and lines that do not parse are passed over.
pub open spec fn spec_parse_status(s: Seq<u8>) -> Seq<PortModel>
    decreases s.len(),
    via spec_parse_status_decreases
{
    let e = spec_find_nl(s, 0);
    let line = s.subrange(0, e);
    let head = if spec_is_header_line(line) {
        Seq::<PortModel>::empty()
    } else {
        match spec_parse_port_line(line) {
            Some(m) => seq![m],
            None => Seq::<PortModel>::empty(),
        }
    };
    if e < s.len() {
        head + spec_parse_status(s.subrange(e + 1, s.len() as int))
    } else {
        head
    }
}

#[via_fn]
proof fn spec_parse_status_decreases(s: Seq<u8>) {
    lemma_find_nl_bounds(s, 0);
}

/// The row models a row vector stands for.
pub open spec fn spec_port_models(ports: Seq<VirtualUsbPort>) -> Seq<PortModel> {
    ports.map_values(
        |p: VirtualUsbPort| PortModel {
            hub: p.hub@,
            port: p.port,
            status: p.status,
            speed: p.speed,
            device: p.device,
            sock_fd: p.sock_fd,
            local_bus_id: p.local_bus_id@,
        },
    )
}

/// Parse the virtual hub's status table into its port rows, passing over
/// the header line and lines that do not parse.
pub fn parse_status(s: &[u8]) -> (r: Vec<VirtualUsbPort>)
    ensures
        spec_port_models(r@) == spec_parse_status(s@),
{
    let mut out: Vec<VirtualUsbPort> = Vec::new();
    let mut pos: usize = 0;
    let mut done = false;
    proof {
        assert(s@.subrange(0, s@.len() as int) =~= s@);
        assert(spec_port_models(out@) + spec_parse_status(s@) =~= spec_parse_status(s@));
    }
    while !done
        invariant
            pos <= s@.len(),
            spec_parse_status(s@) == spec_port_models(out@) + if !done {
                spec_parse_status(s@.subrange(pos as int, s@.len() as int))
            } else {
                Seq::<PortModel>::empty()
            },
        decreases s@.len() - pos + if done {
            0int
        } else {
            1int
        },
    {
        let ghost suffix = s@.subrange(pos as int, s@.len() as int);
        let e = find_nl(s, pos);
        proof {
            lemma_find_nl_shift(s@, pos as int);
            assert(spec_find_nl(suffix, 0) == e - pos);
            assert(suffix.subrange(0, e - pos) =~= s@.subrange(pos as int, e as int));
        }
        let line = vstd::slice::slice_subrange(s, pos, e);
        let ghost head = if spec_is_header_line(line@) {
            Seq::<PortModel>::empty()
        } else {
            match spec_parse_port_line(line@) {
                Some(m) => seq![m],
                None => Seq::<PortModel>::empty(),
            }
        };
        proof {
            if e < s@.len() {
                assert(spec_parse_status(suffix) == head + spec_parse_status(
                    suffix.subrange(e - pos + 1, suffix.len() as int),
                ));
            } else {
                assert(spec_parse_status(suffix) == head);
            }
        }
        let is_header = line.len() >= 3 && line[0] == 104 && line[1] == 117 && line[2] == 98;
        let ghost prev = out@;
        if !is_header {
            match VirtualUsbPort::try_from_line(line) {
                Ok(p) => {
                    out.push(p);
                    proof {
                        assert(out@ =~= prev.push(p));
                        assert(spec_port_models(out@) =~= spec_port_models(prev) + head);
                    }
                },
                Err(_) => {
                    proof {
                        assert(spec_port_models(out@) =~= spec_port_models(prev) + head);
                    }
                },
            }
        } else {
            proof {
                assert(spec_port_models(out@) =~= spec_port_models(prev) + head);
            }
        }
        if e < s.len() {
            proof {
                assert(suffix.subrange(e - pos + 1, suffix.len() as int) =~= s@.subrange(
                    e + 1 as int,
                    s@.len() as int,
                ));
                assert(spec_port_models(prev) + spec_parse_status(suffix) =~= spec_port_models(
                    out@,
                ) + spec_parse_status(s@.subrange(e + 1 as int, s@.len() as int)));
            }
            pos = e + 1;
        } else {
            proof {
                assert(spec_port_models(prev) + spec_parse_status(suffix) =~= spec_port_models(
                    out@,
                ) + Seq::<PortModel>::empty());
            }
            done = true;
        }
    }
    out
}

/// Searching for a line feed in a suffix finds the same break, shifted.
pub proof fn lemma_find_nl_shift(s: Seq<u8>, pos: int)
    requires
        0 <= pos <= s.len(),
    ensures
        spec_find_nl(s.subrange(pos, s.len() as int), 0) == spec_find_nl(s, pos) - pos,
    decreases s.len() - pos,
{
    lemma_find_nl_shift_from(s, pos, pos);
}

/// Searching for a line feed from `i` in the suffix starting at `pos`
/// finds the same break, shifted by `pos`.
proof fn lemma_find_nl_shift_from(s: Seq<u8>, pos: int, i: int)
    requires
        0 <= pos <= i <= s.len(),
    ensures
        spec_find_nl(s.subrange(pos, s.len() as int), i - pos) == spec_find_nl(s, i) - pos,
    decreases s.len() - i,
{
    let suffix = s.subrange(pos, s.len() as int);
    if i < s.len() && s[i] != 10 {
        lemma_find_nl_shift_from(s, pos, i + 1);
    }
}

/// The index of the first free port row: the first whose status is 4.
pub open spec fn spec_first_free_port(ports: Seq<VirtualUsbPort>, i: int) -> Option<int>
    recommends
        0 <= i <= ports.len(),
    decreases ports.len() - i,
{
    if i >= ports.len() {
        None
    } else if ports[i].status == 4 {
        Some(i)
    } else {
        spec_first_free_port(ports, i + 1)
    }
}

/// The number of the first free port in the status rows: the first row
/// whose status is 4; `NoFreePort` when every row is taken.
pub fn get_next_port_number(ports: &Vec<VirtualUsbPort>) -> (r: Result<u8, Error>)
    ensures
        match spec_first_free_port(ports@, 0) {
            Some(j) => r == Ok::<u8, Error>(ports@[j].port),
            None => r == Err::<u8, Error>(Error::NoFreePort),
        },
{
    let mut i: usize = 0;
    while i < ports.len()
        invariant
            i <= ports@.len(),
            spec_first_free_port(ports@, 0) == spec_first_free_port(ports@, i as int),
        decreases ports@.len() - i,
    {
        if ports[i].status == 4 {
            return Ok(ports[i].port);
        }
        i = i + 1;
    }
    Err(Error::NoFreePort)
}

/// The decimal digits of `n`, most significant first.
pub open spec fn spec_decimal_repr(n: int) -> Seq<u8>
    recommends
        n >= 0,
    decreases n,
{
    if n < 10 {
        seq![(48 + n) as u8]
    } else {
        spec_decimal_repr(n / 10) + seq![(48 + n % 10) as u8]
    }
}

/// Append the decimal digits of `n`.
pub fn push_decimal(out: &mut Vec<u8>, n: u32)
    ensures
        final(out)@ == old(out)@ + spec_decimal_repr(n as int),
    decreases n,
{
    if n >= 10 {
        push_decimal(out, n / 10);
    }
    out.push(48 + (n % 10) as u8);
    proof {
        assert(out@ =~= old(out)@ + spec_decimal_repr(n as int));
    }
}

/// The payload written to the attach node: port, socket descriptor,
/// device identifier and speed as space-separated decimals.
pub open spec fn spec_attach_request(port: u8, fd: i32, devid: u32, speed: u32) -> Seq<u8> {
    spec_decimal_repr(port as int) + seq![32u8] + spec_decimal_repr(fd as int) + seq![32u8]
        + spec_decimal_repr(devid as int) + seq![32u8] + spec_decimal_repr(speed as int)
}

/// The payload written to the attach node to place a socket on a port.
pub fn attach_request(port: u8, fd: i32, devid: u32, speed: u32) -> (r: Vec<u8>)
    requires
        fd >= 0,
    ensures
        r@ == spec_attach_request(port, fd, devid, speed),
{
    let mut out: Vec<u8> = Vec::new();
    push_decimal(&mut out, port as u32);
    out.push(32);
    push_decimal(&mut out, fd as u32);
    out.push(32);
    push_decimal(&mut out, devid);
    out.push(32);
    push_decimal(&mut out, speed);
    proof {
        assert(out@ =~= spec_attach_request(port, fd, devid, speed));
    }
    out
}

/// The port count the nports attribute spells: its decimal value, with
/// surrounding whitespace allowed; `Malformed` otherwise.
pub open spec fn spec_parse_nports(s: Seq<u8>) -> Result<i32, Error> {
    let h = spec_skip_spaces(s, 0);
    let e = spec_token_end(s, h);
    if spec_skip_spaces(s, e) == s.len() {
        match spec_parse_decimal(s.subrange(h, e), 0x7FFFFFFF) {
            Some(v) => Ok(v as i32),
            None => Err(Error::Malformed),
        }
    } else {
        Err(Error::Malformed)
    }
}

/// Parse the nports attribute: one decimal number, with surrounding
/// whitespace allowed.
pub fn parse_nports(s: &[u8]) -> (r: Result<i32, Error>)
    ensures
        r == spec_parse_nports(s@),
{
    let h = skip_spaces(s, 0);
    let e = token_end(s, h);
    let tail = skip_spaces(s, e);
    if tail != s.len() {
        return Err(Error::Malformed);
    }
    match parse_decimal(vstd::slice::slice_subrange(s, h, e), 0x7FFFFFFF) {
        Some(v) => Ok(v as i32),
        None => Err(Error::Malformed),
    }
}


/// A USB device as the USB/IP tooling records it: its sysfs path, bus
/// identifier, bus placement, speed and identifying descriptor fields.
#[derive(Debug, Copy, Clone)]
pub struct USBDevice {
    /// The device's sysfs path, zero-padded.
    pub path: [u8; 256],
    /// The device's bus identifier, zero-padded.
    pub busid: [u8; 32],
    /// The bus number.
    pub busnum: u32,
    /// The device number on its bus.
    pub devnum: u32,
    /// The negotiated speed.
    pub speed: u32,
    /// Vendor identifier.
    pub id_vendor: u16,
    /// Product identifier.
    pub id_product: u16,
    /// Device release number, binary-coded decimal.
    pub bcd_device: u16,
    /// Class code.
    pub b_device_class: u8,
    /// Subclass code.
    pub b_device_subclass: u8,
    /// Protocol code.
    pub b_device_protocol: u8,
    /// The selected configuration value.
    pub b_configuration_value: u8,
    /// Number of configurations.
    pub b_num_configurations: u8,
    /// Number of interfaces of the selected configuration.
    pub b_num_interfaces: u8,
}

} // verus!
