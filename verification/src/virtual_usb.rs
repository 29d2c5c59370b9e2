//! The virtual USB device: its descriptors, the commands and replies that
//! cross the USB/IP socket, and the protocol engine that answers standard
//! endpoint-0 requests and hands everything else to the caller.

use vstd::prelude::*;

use crate::Error;
use crate::usb::{
    Configuration, DescriptorType, DeviceClass, DeviceDescriptor, DeviceQualifierDescriptor,
    Interface, LangId, Recipient, SetupRequest, StandardRequest, StringDescriptor, SELF_POWERED,
};
use crate::hid::HidDescriptorType;
use vstd::string::StringSliceAdditionalSpecFns;
use crate::usbip::{
    USBDeviceSpeed, USBIPCommandHeader, USBIPHeaderBasic, USBIPHeaderCmdSubmit,
    USBIPHeaderRetSubmit, USBIPHeaderRetUnlink, USBIPReplyHeader, UsbIpDirection,
    USBIP_RET_SUBMIT, USBIP_RET_UNLINK,
};

verus! {

/// The descriptors of a virtual USB device.
#[derive(Debug, Clone)]
pub struct Info {
    /// The 18-byte device descriptor.
    pub device_desc: DeviceDescriptor,
    /// The 10-byte device qualifier descriptor.
    pub device_qualifier_desc: DeviceQualifierDescriptor,
    /// The configurations, selected by their configuration value.
    pub configs: Vec<Configuration>,
    /// The string descriptor table; index 0 holds the language identifiers.
    pub string_descs: Vec<StringDescriptor>,
}

/// A command received over the USB/IP socket: its 48-byte header and, for
/// an OUT submit, the payload that followed it.
#[derive(Debug)]
pub struct Command {
    /// The decoded command header.
    pub header: USBIPCommandHeader,
    /// The payload; its length is the transfer buffer length for an OUT
    /// submit and 0 otherwise.
    pub payload: Vec<u8>,
}

impl Command {
    /// A command of the given header and payload.
    pub fn new(header: USBIPCommandHeader, payload: Vec<u8>) -> (r: Self)
        ensures
            r.header == header,
            r.payload == payload,
    {
        Command { header, payload }
    }

    /// The basic header of the command.
    pub fn get_header(&self) -> (r: USBIPHeaderBasic)
        ensures
            r == self.header.spec_get_header(),
    {
        self.header.get_header()
    }
}

/// A reply to be written to the USB/IP socket: its 48-byte header and,
/// for an IN submit reply, the payload to follow it.
#[derive(Debug)]
pub struct Reply {
    /// The reply header.
    pub header: USBIPReplyHeader,
    /// The payload; non-empty only for IN submit replies.
    pub payload: Vec<u8>,
}

/// The RET_SUBMIT basic header that answers a submit with the given basic
/// header: the command number changes, seqnum, devid, direction and
/// endpoint carry over.
pub open spec fn spec_ret_base(base: USBIPHeaderBasic, command: u32) -> USBIPHeaderBasic {
    USBIPHeaderBasic {
        command,
        seqnum: base.seqnum,
        devid: base.devid,
        direction: base.direction,
        ep: base.ep,
    }
}

/// The RET_SUBMIT header that answers a submit with basic header `base`,
/// carrying `len` data bytes and the given status.
pub open spec fn spec_ret_submit_header(base: USBIPHeaderBasic, len: int, status: i32) -> USBIPReplyHeader {
    USBIPReplyHeader::RetSubmit(
        USBIPHeaderRetSubmit {
            base: spec_ret_base(base, USBIP_RET_SUBMIT),
            status,
            actual_length: len as i32,
            start_frame: 0,
            number_of_packets: 0,
            error_count: 0,
        },
    )
}

/// What a submit reply holds: its header mirrors the submit, the actual
/// length counts the data, and the payload carries the data only towards
/// the host (an IN transfer).
pub open spec fn spec_is_submit_reply(r: Reply, base: USBIPHeaderBasic, data: Seq<u8>, status: i32) -> bool {
    &&& r.header == spec_ret_submit_header(base, data.len() as int, status)
    &&& r.payload@ == if base.direction == UsbIpDirection::In {
        data
    } else {
        Seq::<u8>::empty()
    }
}

impl Reply {
    /// The submit reply for a submit with basic header `base`, carrying
    /// `data` with the given status.  The payload is sent only for an IN
    /// transfer; for OUT the data only sets the actual length.
    pub fn for_submit(base: USBIPHeaderBasic, data: &[u8], status: i32) -> (r: Reply)
        requires
            data@.len() <= 0x7FFFFFFF,
        ensures
            spec_is_submit_reply(r, base, data@, status),
    {
        let payload: Vec<u8> = if base.direction == UsbIpDirection::In {
            vstd::slice::slice_to_vec(data)
        } else {
            Vec::new()
        };
        Reply {
            header: USBIPReplyHeader::RetSubmit(
                USBIPHeaderRetSubmit {
                    base: USBIPHeaderBasic {
                        command: USBIP_RET_SUBMIT,
                        seqnum: base.seqnum,
                        devid: base.devid,
                        direction: base.direction,
                        ep: base.ep,
                    },
                    status,
                    actual_length: data.len() as i32,
                    start_frame: 0,
                    number_of_packets: 0,
                    error_count: 0,
                },
            ),
            payload,
        }
    }

    /// The unlink reply for an unlink with basic header `base`, carrying
    /// the given status and no payload.
    pub fn for_unlink(base: USBIPHeaderBasic, status: i32) -> (r: Reply)
        ensures
            r.header == USBIPReplyHeader::RetUnlink(
                USBIPHeaderRetUnlink { base: spec_ret_base(base, USBIP_RET_UNLINK), status },
            ),
            r.payload@ == Seq::<u8>::empty(),
    {
        Reply {
            header: USBIPReplyHeader::RetUnlink(
                USBIPHeaderRetUnlink {
                    base: USBIPHeaderBasic {
                        command: USBIP_RET_UNLINK,
                        seqnum: base.seqnum,
                        devid: base.devid,
                        direction: base.direction,
                        ep: base.ep,
                    },
                    status,
                },
            ),
            payload: Vec::new(),
        }
    }

    /// The reply a caller builds for a transfer it handled: a RET_SUBMIT
    /// with status 0 whose header mirrors the transfer's submit, whose
    /// actual length counts the data, and whose payload carries the data
    /// only for an IN transfer.
    pub fn from_xfer(xfer: Xfer, data: &[u8]) -> (r: Reply)
        requires
            data@.len() <= 0x7FFFFFFF,
        ensures
            spec_is_submit_reply(r, xfer.cmd.base, data@, 0),
    {
        Reply::for_submit(xfer.cmd.base, data, 0)
    }

    /// The bytes the reply puts on the wire: the 48-byte header, then the
    /// payload.
    pub fn to_bytes(&self) -> (r: Vec<u8>)
        ensures
            r@ == self.header.spec_pack() + self.payload@,
    {
        let mut out = self.header.pack_to_vec();
        let mut payload = vstd::slice::slice_to_vec(self.payload.as_slice());
        out.append(&mut payload);
        out
    }
}

/// A transfer handed to the caller: the endpoint, the payload bytes, and
/// the submit header a reply is later built from.
#[derive(Debug)]
pub struct Xfer {
    /// The endpoint the transfer addresses, always below 16.
    pub ep: u8,
    /// The transfer payload: the OUT data received, empty for IN.
    pub data: Vec<u8>,
    /// The submit header the transfer came from.
    pub cmd: USBIPHeaderCmdSubmit,
}

impl Xfer {
    /// The setup packet of the transfer, when one was sent: endpoint-0
    /// transfers carry one; a zero-filled setup stands for none.
    pub fn header(&self) -> (r: Option<SetupRequest>)
        ensures
            r == if self.cmd.setup.spec_is_empty() {
                Option::<SetupRequest>::None
            } else {
                Option::Some(self.cmd.setup)
            },
    {
        if self.cmd.setup.is_empty() {
            return None;
        }
        Some(self.cmd.setup)
    }

    /// The direction of the transfer: OUT carries data from the host to
    /// the device, IN lets the device send data to the host.
    pub fn direction(&self) -> (r: UsbIpDirection)
        ensures
            r == self.cmd.base.direction,
    {
        self.cmd.base.direction
    }
}

/// The USB speed a bcdUSB device descriptor field maps to, as the kernel
/// numbers speeds.
pub open spec fn spec_speed_from_bcd_usb(bcd_usb: u16) -> u32 {
    if bcd_usb == 0x0100 {
        USBDeviceSpeed::USBSpeedFull.spec_code()
    } else if bcd_usb == 0x0110 {
        USBDeviceSpeed::USBSpeedFull.spec_code()
    } else if bcd_usb == 0x0200 {
        USBDeviceSpeed::USBSpeedHigh.spec_code()
    } else if bcd_usb == 0x0300 {
        USBDeviceSpeed::USBSpeedSuper.spec_code()
    } else if bcd_usb == 0x0310 {
        USBDeviceSpeed::USBSpeedSuperPlus.spec_code()
    } else if bcd_usb == 0x0320 {
        USBDeviceSpeed::USBSpeedSuperPlus.spec_code()
    } else {
        USBDeviceSpeed::USBSpeedUnknown.spec_code()
    }
}


/// A reply in the functional model of the engine.
pub struct ReplyModel {
    /// The reply header.
    pub header: USBIPReplyHeader,
    /// The reply payload.
    pub payload: Seq<u8>,
}

/// A transfer in the functional model of the engine.
pub struct XferModel {
    /// The endpoint the transfer addresses.
    pub ep: u8,
    /// The transfer payload.
    pub data: Seq<u8>,
    /// The submit header the transfer came from.
    pub cmd: USBIPHeaderCmdSubmit,
}

/// What handling one command yields in the functional model: the reply to
/// send, the transfer to surface, and the configuration that is then
/// current, as an index into the device's configurations.
pub struct HandledModel {
    /// The reply to send, if any.
    pub reply: Option<ReplyModel>,
    /// The transfer to hand the caller, if any.
    pub xfer: Option<XferModel>,
    /// The configuration current after the command.
    pub current_config: Option<usize>,
}

/// The submit reply model for a submit with basic header `base` carrying
/// `data` with the given status.
pub open spec fn spec_reply_model_submit(base: USBIPHeaderBasic, data: Seq<u8>, status: i32) -> ReplyModel {
    ReplyModel {
        header: spec_ret_submit_header(base, data.len() as int, status),
        payload: if base.direction == UsbIpDirection::In {
            data
        } else {
            Seq::<u8>::empty()
        },
    }
}

/// The unlink reply model for an unlink with basic header `base`.
pub open spec fn spec_reply_model_unlink(base: USBIPHeaderBasic, status: i32) -> ReplyModel {
    ReplyModel {
        header: USBIPReplyHeader::RetUnlink(
            USBIPHeaderRetUnlink { base: spec_ret_base(base, USBIP_RET_UNLINK), status },
        ),
        payload: Seq::<u8>::empty(),
    }
}

/// The index of the configuration that SET_CONFIGURATION selects for a
/// configuration value: the last one carrying that value, if any.
pub open spec fn spec_find_config(configs: Seq<Configuration>, value: u8) -> Option<int>
    decreases configs.len(),
{
    if configs.len() == 0 {
        None
    } else if configs.last().conf_desc.b_configuration_value == value {
        Some(configs.len() - 1)
    } else {
        spec_find_config(configs.drop_last(), value)
    }
}

/// A found configuration index is in range and carries the value.
pub proof fn lemma_find_config_bounds(configs: Seq<Configuration>, value: u8)
    ensures
        spec_find_config(configs, value) matches Some(j) ==> 0 <= j < configs.len()
            && configs[j].conf_desc.b_configuration_value == value,
    decreases configs.len(),
{
    if configs.len() > 0 && configs.last().conf_desc.b_configuration_value != value {
        lemma_find_config_bounds(configs.drop_last(), value);
    }
}

/// The first `n` bytes of `d`, or all of `d` when it is shorter.
pub open spec fn spec_truncated(d: Seq<u8>, n: int) -> Seq<u8> {
    if n < d.len() {
        d.subrange(0, n)
    } else {
        d
    }
}

/// The bytes a GET_DESCRIPTOR request returns before truncation, selected
/// by the descriptor type in the high byte of wValue and the index in its
/// low byte.
pub open spec fn spec_descriptor_data(info: Info, req: SetupRequest) -> Result<Seq<u8>, Error> {
    let idx = req.w_value as int % 256;
    match DescriptorType::spec_from_code((req.w_value as int / 256) as u8) {
        None => Err(Error::UnknownDescriptor),
        Some(DescriptorType::Device) => Ok(info.device_desc.spec_pack()),
        Some(DescriptorType::Configuration) => if idx >= info.configs@.len() {
            Err(Error::UnknownDescriptor)
        } else if !info.configs@[idx].spec_packable() {
            Err(Error::TooLong)
        } else {
            Ok(info.configs@[idx].spec_pack())
        },
        Some(DescriptorType::String) => if idx >= info.string_descs@.len() {
            Err(Error::UnknownDescriptor)
        } else if info.string_descs@[idx].data@.len() > 126 {
            Err(Error::TooLong)
        } else {
            Ok(info.string_descs@[idx].spec_pack())
        },
        Some(DescriptorType::DeviceQualifier) => Ok(info.device_qualifier_desc.spec_pack()),
        Some(DescriptorType::Debug) => Ok(Seq::<u8>::empty()),
        Some(_) => Err(Error::UnknownDescriptor),
    }
}

/// The four GET_STATUS bytes of a configuration: bit 0 of the first byte
/// reports self power, remote wakeup is never reported.
pub open spec fn spec_status_bytes(conf: crate::usb::ConfigurationDescriptor) -> Seq<u8> {
    seq![
        if conf.bm_attributes & SELF_POWERED != 0 {
            1u8
        } else {
            0u8
        },
        0u8,
        0u8,
        0u8,
    ]
}

/// What SET_CONFIGURATION yields: the last configuration carrying the
/// requested value becomes current and an empty reply acknowledges it;
/// `InvalidConfigurationValue` when no configuration carries the value.
pub open spec fn spec_set_configuration(
    info: Info,
    current: Option<usize>,
    s: USBIPHeaderCmdSubmit,
) -> Result<HandledModel, Error> {
    let value = (s.setup.w_value as int % 256) as u8;
    match spec_find_config(info.configs@, value) {
        None => Err(Error::InvalidConfigurationValue),
        Some(j) => Ok(HandledModel {
            reply: Some(spec_reply_model_submit(s.base, Seq::<u8>::empty(), 0)),
            xfer: None,
            current_config: Some(j as usize),
        }),
    }
}

/// What a standard endpoint-0 request to the device recipient yields.
pub open spec fn spec_handle_ep0_device(
    info: Info,
    current: Option<usize>,
    s: USBIPHeaderCmdSubmit,
) -> Result<HandledModel, Error> {
    let req = s.setup;
    match s.base.direction {
        UsbIpDirection::In => match req.b_request {
            StandardRequest::GetStatus => match current {
                None => Err(Error::NoConfig),
                Some(i) => Ok(HandledModel {
                    reply: Some(
                        spec_reply_model_submit(
                            s.base,
                            spec_status_bytes(info.configs@[i as int].conf_desc),
                            0,
                        ),
                    ),
                    xfer: None,
                    current_config: current,
                }),
            },
            StandardRequest::GetDescriptor => match spec_descriptor_data(info, req) {
                Err(e) => Err(e),
                Ok(data) => {
                    let sent = spec_truncated(data, req.w_length as int);
                    Ok(HandledModel {
                        reply: Some(
                            spec_reply_model_submit(
                                s.base,
                                sent,
                                if sent.len() == 0 {
                                    1
                                } else {
                                    0
                                },
                            ),
                        ),
                        xfer: None,
                        current_config: current,
                    })
                },
            },
            StandardRequest::SetConfiguration => spec_set_configuration(info, current, s),
            _ => Err(Error::UnsupportedStandardRequest),
        },
        UsbIpDirection::Out => if s.transfer_buffer_length != 0 {
            Err(Error::Malformed)
        } else {
            match req.b_request {
                StandardRequest::SetConfiguration => spec_set_configuration(info, current, s),
                _ => Err(Error::UnsupportedStandardRequest),
            }
        },
    }
}

/// What a standard endpoint-0 request to the interface recipient yields:
/// only GET_DESCRIPTOR of an HID report descriptor is served, verbatim
/// and with status 0.
pub open spec fn spec_handle_ep0_iface(
    info: Info,
    current: Option<usize>,
    s: USBIPHeaderCmdSubmit,
) -> Result<HandledModel, Error> {
    let req = s.setup;
    if s.base.direction != UsbIpDirection::In || req.b_request != StandardRequest::GetDescriptor {
        Err(Error::UnknownRequest)
    } else {
        match current {
            None => Err(Error::NoConfig),
            Some(i) => {
                let config = info.configs@[i as int];
                let iface_idx = req.w_index as int;
                if iface_idx >= config.interfaces@.len() {
                    Err(Error::UnknownDescriptor)
                } else {
                    match config.interfaces@[iface_idx] {
                        Interface::Raw(_) => Err(Error::UnknownRequest),
                        Interface::Hid(h) => match crate::hid::HidGetDescriptorRequest::spec_from_setup(req) {
                            Err(e) => Err(e),
                            Ok(hid_req) => match hid_req.b_descriptor_type {
                                HidDescriptorType::Report => {
                                    let didx = hid_req.b_descriptor_index as int;
                                    if didx >= h.report_descriptors@.len() {
                                        Err(Error::UnknownDescriptor)
                                    } else if h.report_descriptors@[didx]@.len() > 0xFFFF {
                                        Err(Error::TooLong)
                                    } else {
                                        Ok(HandledModel {
                                            reply: Some(
                                                spec_reply_model_submit(
                                                    s.base,
                                                    h.report_descriptors@[didx]@,
                                                    0,
                                                ),
                                            ),
                                            xfer: None,
                                            current_config: current,
                                        })
                                    }
                                },
                                _ => Err(Error::UnsupportedStandardRequest),
                            },
                        },
                    }
                }
            },
        }
    }
}

/// What a standard endpoint-0 request yields, dispatched by recipient.
pub open spec fn spec_handle_ep0_standard(
    info: Info,
    current: Option<usize>,
    s: USBIPHeaderCmdSubmit,
) -> Result<HandledModel, Error> {
    match s.setup.bm_request_type_recipient {
        Recipient::Device => spec_handle_ep0_device(info, current, s),
        Recipient::Interface => spec_handle_ep0_iface(info, current, s),
        _ => Err(Error::UnknownRequest),
    }
}

/// What a submit to an endpoint yields when the engine does not answer it
/// from the descriptors: an OUT transfer is acknowledged at once with the
/// received length and handed over; an IN transfer is handed over
/// unanswered.  `InvalidEndpoint` for endpoint numbers 16 and above.
pub open spec fn spec_handle_epx(
    current: Option<usize>,
    s: USBIPHeaderCmdSubmit,
    payload: Seq<u8>,
) -> Result<HandledModel, Error> {
    if s.base.ep >= 16 {
        Err(Error::InvalidEndpoint)
    } else {
        match s.base.direction {
            UsbIpDirection::Out => Ok(HandledModel {
                reply: Some(spec_reply_model_submit(s.base, payload, 0)),
                xfer: Some(XferModel { ep: s.base.ep as u8, data: payload, cmd: s }),
                current_config: current,
            }),
            UsbIpDirection::In => Ok(HandledModel {
                reply: None,
                xfer: Some(XferModel { ep: s.base.ep as u8, data: payload, cmd: s }),
                current_config: current,
            }),
        }
    }
}

/// What handling one command yields: unlinks are acknowledged with
/// ECONNRESET; standard endpoint-0 requests are answered from the
/// descriptors; everything else is handed to the caller as a transfer.
pub open spec fn spec_handle(info: Info, current: Option<usize>, cmd: Command) -> Result<
    HandledModel,
    Error,
> {
    match cmd.header {
        USBIPCommandHeader::CmdUnlink(u) => Ok(HandledModel {
            reply: Some(spec_reply_model_unlink(u.base, -104i32)),
            xfer: None,
            current_config: current,
        }),
        USBIPCommandHeader::CmdSubmit(s) => {
            if s.base.ep == 0 && s.setup.spec_is_standard() {
                spec_handle_ep0_standard(info, current, s)
            } else {
                spec_handle_epx(current, s, cmd.payload@)
            }
        },
    }
}

/// True when the reply handed out is the modelled one: same header, same
/// payload bytes.
pub open spec fn reply_matches(r: Option<Reply>, m: Option<ReplyModel>) -> bool {
    match (r, m) {
        (Some(r), Some(m)) => r.header == m.header && r.payload@ == m.payload,
        (None, None) => true,
        _ => false,
    }
}

/// True when the transfer handed out is the modelled one: same endpoint,
/// same bytes, same submit header.
pub open spec fn xfer_matches(x: Option<Xfer>, m: Option<XferModel>) -> bool {
    match (x, m) {
        (Some(x), Some(m)) => x.ep == m.ep && x.data@ == m.data && x.cmd == m.cmd,
        (None, None) => true,
        _ => false,
    }
}

/// True when an outcome and a configuration follow the model: a modelled
/// error is returned verbatim and leaves the configuration alone; a
/// modelled result is matched reply, transfer and configuration.
pub open spec fn handled_matches(
    r: Result<CommandOutcome, Error>,
    cfg: Option<usize>,
    m: Result<HandledModel, Error>,
    old_cfg: Option<usize>,
) -> bool {
    match m {
        Ok(hm) => match r {
            Ok(out) => cfg == hm.current_config && reply_matches(out.reply, hm.reply)
                && xfer_matches(out.xfer, hm.xfer),
            Err(_) => false,
        },
        Err(e) => r matches Err(e2) && e2 == e && cfg == old_cfg,
    }
}

/// What handling one command hands back: at most one reply to write to
/// the socket, and at most one transfer for the caller.
#[derive(Debug)]
pub struct CommandOutcome {
    /// The reply to write, if the command is answered automatically.
    pub reply: Option<Reply>,
    /// The transfer for the caller, if the command is delegated.
    pub xfer: Option<Xfer>,
}

/// The protocol engine of a virtual USB device: its descriptors, the
/// virtual port it sits on once attached, and the configuration the host
/// has selected.
#[derive(Debug)]
pub struct VirtualUSBDevice {
    /// The device's descriptors.
    pub info: Info,
    /// The virtual port the device is attached to, once it is.
    pub port: Option<u8>,
    /// The selected configuration, as an index into `info.configs`;
    /// `None` until a SET_CONFIGURATION arrives.
    pub current_config: Option<usize>,
}

impl VirtualUSBDevice {
    /// The engine's invariant: the current configuration, when set, indexes
    /// into the configurations.
    pub open spec fn wf(&self) -> bool {
        match self.current_config {
            Some(i) => i < self.info.configs@.len(),
            None => true,
        }
    }

    /// A new, unconfigured device with the given descriptors.
    pub fn new(info: Info) -> (r: Self)
        ensures
            r.info == info,
            r.port == Option::<u8>::None,
            r.current_config == Option::<usize>::None,
            r.wf(),
    {
        VirtualUSBDevice { info, port: None, current_config: None }
    }

    /// The USB speed the device descriptor's bcdUSB field maps to.
    pub fn speed_from_bcd_usb(bcd_usb: u16) -> (r: u32)
        ensures
            r == spec_speed_from_bcd_usb(bcd_usb),
    {
        if bcd_usb == 0x0100 {
            USBDeviceSpeed::USBSpeedFull.code()
        } else if bcd_usb == 0x0110 {
            USBDeviceSpeed::USBSpeedFull.code()
        } else if bcd_usb == 0x0200 {
            USBDeviceSpeed::USBSpeedHigh.code()
        } else if bcd_usb == 0x0300 {
            USBDeviceSpeed::USBSpeedSuper.code()
        } else if bcd_usb == 0x0310 {
            USBDeviceSpeed::USBSpeedSuperPlus.code()
        } else if bcd_usb == 0x0320 {
            USBDeviceSpeed::USBSpeedSuperPlus.code()
        } else {
            USBDeviceSpeed::USBSpeedUnknown.code()
        }
    }

    /// Handle one command: answer unlinks and standard endpoint-0 requests
    /// from the descriptors, acknowledge OUT transfers, and hand everything
    /// the engine cannot answer to the caller.  The outcome follows
    /// [`spec_handle`]; an error leaves the engine unchanged and usable.
    pub fn handle_command(&mut self, cmd: &Command) -> (r: Result<CommandOutcome, Error>)
        requires
            old(self).wf(),
            cmd.payload@.len() <= 0x7FFFFFFF,
        ensures
            final(self).info == old(self).info,
            final(self).port == old(self).port,
            final(self).wf(),
            handled_matches(
                r,
                final(self).current_config,
                spec_handle(old(self).info, old(self).current_config, *cmd),
                old(self).current_config,
            ),
    {
        match &cmd.header {
            USBIPCommandHeader::CmdSubmit(header) => {
                if header.base.ep == 0 {
                    self.handle_command_submit_ep0(header, &cmd.payload)
                } else {
                    self.handle_command_submit_epx(header, &cmd.payload)
                }
            },
            USBIPCommandHeader::CmdUnlink(unlink) => {
                let reply = self.handle_command_unlink(unlink);
                Ok(CommandOutcome { reply: Some(reply), xfer: None })
            },
        }
    }

    /// Handle a submit to endpoint 0, the control endpoint: standard
    /// requests are answered from the descriptors; class- and
    /// vendor-specific requests are handed to the caller with their setup
    /// packet attached.
    fn handle_command_submit_ep0(
        &mut self,
        header: &USBIPHeaderCmdSubmit,
        payload: &Vec<u8>,
    ) -> (r: Result<CommandOutcome, Error>)
        requires
            old(self).wf(),
            payload@.len() <= 0x7FFFFFFF,
            header.base.ep == 0,
        ensures
            final(self).info == old(self).info,
            final(self).port == old(self).port,
            final(self).wf(),
            handled_matches(
                r,
                final(self).current_config,
                if header.setup.spec_is_standard() {
                    spec_handle_ep0_standard(old(self).info, old(self).current_config, *header)
                } else {
                    spec_handle_epx(old(self).current_config, *header, payload@)
                },
                old(self).current_config,
            ),
    {
        if header.setup.is_standard() {
            self.handle_command_submit_ep0_standard_request(header)
        } else {
            self.handle_command_submit_epx(header, payload)
        }
    }

    /// Handle a submit to an endpoint the engine does not answer from the
    /// descriptors: acknowledge OUT data at once and hand the transfer to
    /// the caller; hand an IN transfer over unanswered.
    fn handle_command_submit_epx(
        &self,
        header: &USBIPHeaderCmdSubmit,
        payload: &Vec<u8>,
    ) -> (r: Result<CommandOutcome, Error>)
        requires
            payload@.len() <= 0x7FFFFFFF,
        ensures
            handled_matches(
                r,
                self.current_config,
                spec_handle_epx(self.current_config, *header, payload@),
                self.current_config,
            ),
    {
        let ep = header.base.ep;
        if ep >= 16 {
            return Err(Error::InvalidEndpoint);
        }
        let data = vstd::slice::slice_to_vec(payload.as_slice());
        match header.base.direction {
            UsbIpDirection::Out => {
                let reply = Reply::for_submit(header.base, payload.as_slice(), 0);
                Ok(
                    CommandOutcome {
                        reply: Some(reply),
                        xfer: Some(Xfer { ep: ep as u8, data, cmd: *header }),
                    },
                )
            },
            UsbIpDirection::In => Ok(
                CommandOutcome {
                    reply: None,
                    xfer: Some(Xfer { ep: ep as u8, data, cmd: *header }),
                },
            ),
        }
    }

    /// Acknowledge an unlink: a RET_UNLINK mirroring the unlink's own
    /// basic header, with status ECONNRESET.
    fn handle_command_unlink(&self, unlink: &crate::usbip::USBIPHeaderCmdUnlink) -> (r: Reply)
        ensures
            reply_matches(Some(r), Some(spec_reply_model_unlink(unlink.base, -104i32))),
    {
        Reply::for_unlink(unlink.base, -104)
    }

    /// Handle a standard endpoint-0 request, dispatched by recipient.
    fn handle_command_submit_ep0_standard_request(
        &mut self,
        header: &USBIPHeaderCmdSubmit,
    ) -> (r: Result<CommandOutcome, Error>)
        requires
            old(self).wf(),
        ensures
            final(self).info == old(self).info,
            final(self).port == old(self).port,
            final(self).wf(),
            handled_matches(
                r,
                final(self).current_config,
                spec_handle_ep0_standard(old(self).info, old(self).current_config, *header),
                old(self).current_config,
            ),
    {
        match header.setup.bm_request_type_recipient {
            Recipient::Device => self.handle_command_submit_ep0_standard_request_for_device(header),
            Recipient::Interface => self.handle_command_submit_ep0_standard_request_for_iface(
                header,
            ),
            _ => Err(Error::UnknownRequest),
        }
    }

    /// The bytes a GET_DESCRIPTOR request returns before truncation.
    fn get_descriptor_data(info: &Info, req: &SetupRequest) -> (r: Result<Vec<u8>, Error>)
        ensures
            match (r, spec_descriptor_data(*info, *req)) {
                (Ok(v), Ok(d)) => v@ == d && d.len() <= 0xFFFF,
                (Err(e1), Err(e2)) => e1 == e2,
                _ => false,
            },
    {
        let idx = (req.w_value % 256) as usize;
        match DescriptorType::from_code((req.w_value / 256) as u8) {
            None => Err(Error::UnknownDescriptor),
            Some(DescriptorType::Device) => Ok(info.device_desc.pack_to_vec()),
            Some(DescriptorType::Configuration) => {
                if idx >= info.configs.len() {
                    Err(Error::UnknownDescriptor)
                } else {
                    info.configs[idx].pack_to_vec()
                }
            },
            Some(DescriptorType::String) => {
                if idx >= info.string_descs.len() {
                    Err(Error::UnknownDescriptor)
                } else {
                    info.string_descs[idx].pack_to_vec()
                }
            },
            Some(DescriptorType::DeviceQualifier) => Ok(info.device_qualifier_desc.pack_to_vec()),
            Some(DescriptorType::Debug) => Ok(Vec::new()),
            Some(_) => Err(Error::UnknownDescriptor),
        }
    }

    /// Select the last configuration carrying the requested value and
    /// acknowledge with an empty reply.
    fn set_configuration(
        &mut self,
        header: &USBIPHeaderCmdSubmit,
    ) -> (r: Result<CommandOutcome, Error>)
        requires
            old(self).wf(),
        ensures
            final(self).info == old(self).info,
            final(self).port == old(self).port,
            final(self).wf(),
            handled_matches(
                r,
                final(self).current_config,
                spec_set_configuration(old(self).info, old(self).current_config, *header),
                old(self).current_config,
            ),
    {
        let value = (header.setup.w_value % 256) as u8;
        let ghost configs = self.info.configs@;
        let mut found: Option<usize> = None;
        let mut i: usize = 0;
        while i < self.info.configs.len()
            invariant
                i <= configs.len(),
                configs == self.info.configs@,
                match spec_find_config(configs.take(i as int), value) {
                    Some(j) => found == Some(j as usize),
                    None => found is None,
                },
            decreases configs.len() - i,
        {
            if self.info.configs[i].conf_desc.b_configuration_value == value {
                found = Some(i);
            }
            proof {
                assert(configs.take(i + 1 as int).drop_last() =~= configs.take(i as int));
                assert(configs.take(i + 1 as int).last() == configs[i as int]);
            }
            i = i + 1;
        }
        proof {
            assert(configs.take(configs.len() as int) =~= configs);
            lemma_find_config_bounds(configs, value);
        }
        match found {
            None => Err(Error::InvalidConfigurationValue),
            Some(j) => {
                self.current_config = Some(j);
                let empty: Vec<u8> = Vec::new();
                let reply = Reply::for_submit(header.base, empty.as_slice(), 0);
                Ok(CommandOutcome { reply: Some(reply), xfer: None })
            },
        }
    }

    /// Handle a standard endpoint-0 request whose recipient is the device:
    /// GET_STATUS, GET_DESCRIPTOR and SET_CONFIGURATION are answered; an
    /// OUT request must carry no payload and only SET_CONFIGURATION is
    /// accepted there.
    fn handle_command_submit_ep0_standard_request_for_device(
        &mut self,
        header: &USBIPHeaderCmdSubmit,
    ) -> (r: Result<CommandOutcome, Error>)
        requires
            old(self).wf(),
        ensures
            final(self).info == old(self).info,
            final(self).port == old(self).port,
            final(self).wf(),
            handled_matches(
                r,
                final(self).current_config,
                spec_handle_ep0_device(old(self).info, old(self).current_config, *header),
                old(self).current_config,
            ),
    {
        let req = header.setup;
        match header.base.direction {
            UsbIpDirection::In => match req.b_request {
                StandardRequest::GetStatus => {
                    let idx = match self.current_config {
                        Some(i) => i,
                        None => {
                            return Err(Error::NoConfig);
                        },
                    };
                    let bm = self.info.configs[idx].conf_desc.bm_attributes;
                    let mut data: Vec<u8> = Vec::new();
                    if bm & SELF_POWERED != 0 {
                        data.push(1);
                    } else {
                        data.push(0);
                    }
                    data.push(0);
                    data.push(0);
                    data.push(0);
                    proof {
                        assert(data@ =~= spec_status_bytes(
                            self.info.configs@[idx as int].conf_desc,
                        ));
                    }
                    let reply = Reply::for_submit(header.base, data.as_slice(), 0);
                    Ok(CommandOutcome { reply: Some(reply), xfer: None })
                },
                StandardRequest::GetDescriptor => {
                    let mut data = match Self::get_descriptor_data(&self.info, &req) {
                        Ok(data) => data,
                        Err(e) => {
                            return Err(e);
                        },
                    };
                    data.truncate(req.w_length as usize);
                    proof {
                        let full = spec_descriptor_data(self.info, req)->Ok_0;
                        assert(data@ =~= spec_truncated(full, req.w_length as int));
                    }
                    let status: i32 = if data.len() == 0 {
                        1
                    } else {
                        0
                    };
                    let reply = Reply::for_submit(header.base, data.as_slice(), status);
                    Ok(CommandOutcome { reply: Some(reply), xfer: None })
                },
                StandardRequest::SetConfiguration => self.set_configuration(header),
                _ => Err(Error::UnsupportedStandardRequest),
            },
            UsbIpDirection::Out => {
                if header.transfer_buffer_length != 0 {
                    return Err(Error::Malformed);
                }
                match req.b_request {
                    StandardRequest::SetConfiguration => self.set_configuration(header),
                    _ => Err(Error::UnsupportedStandardRequest),
                }
            },
        }
    }

    /// Handle a standard endpoint-0 request whose recipient is an
    /// interface: GET_DESCRIPTOR of an HID report descriptor is answered
    /// verbatim; everything else is refused.
    fn handle_command_submit_ep0_standard_request_for_iface(
        &mut self,
        header: &USBIPHeaderCmdSubmit,
    ) -> (r: Result<CommandOutcome, Error>)
        requires
            old(self).wf(),
        ensures
            *final(self) == *old(self),
            handled_matches(
                r,
                final(self).current_config,
                spec_handle_ep0_iface(old(self).info, old(self).current_config, *header),
                old(self).current_config,
            ),
    {
        let req = header.setup;
        if !(header.base.direction == UsbIpDirection::In) || !(req.b_request
            == StandardRequest::GetDescriptor) {
            return Err(Error::UnknownRequest);
        }
        let idx = match self.current_config {
            Some(i) => i,
            None => {
                return Err(Error::NoConfig);
            },
        };
        let iface_idx = req.w_index as usize;
        if iface_idx >= self.info.configs[idx].interfaces.len() {
            return Err(Error::UnknownDescriptor);
        }
        match &self.info.configs[idx].interfaces[iface_idx] {
            Interface::Raw(_) => Err(Error::UnknownRequest),
            Interface::Hid(h) => {
                let hid_req = match crate::hid::HidGetDescriptorRequest::from_setup(&req) {
                    Ok(hid_req) => hid_req,
                    Err(e) => {
                        return Err(e);
                    },
                };
                match hid_req.b_descriptor_type {
                    HidDescriptorType::Report => {
                        let didx = hid_req.b_descriptor_index as usize;
                        if didx >= h.report_descriptors.len() {
                            return Err(Error::UnknownDescriptor);
                        }
                        if h.report_descriptors[didx].len() > 0xFFFF {
                            return Err(Error::TooLong);
                        }
                        let data = vstd::slice::slice_to_vec(h.report_descriptors[didx].as_slice());
                        let reply = Reply::for_submit(header.base, data.as_slice(), 0);
                        Ok(CommandOutcome { reply: Some(reply), xfer: None })
                    },
                    _ => Err(Error::UnsupportedStandardRequest),
                }
            },
        }
    }
}


/// Every reply the engine emits for a submit mirrors the submit's basic
/// header: the command number becomes RET_SUBMIT, and seqnum, devid,
/// direction and endpoint carry over unchanged.
pub proof fn lemma_reply_mirrors_submit(
    info: Info,
    current: Option<usize>,
    cmd: Command,
    s: USBIPHeaderCmdSubmit,
    m: HandledModel,
    rm: ReplyModel,
)
    requires
        cmd.header == USBIPCommandHeader::CmdSubmit(s),
        spec_handle(info, current, cmd) == Ok::<HandledModel, Error>(m),
        m.reply == Some(rm),
    ensures
        rm.header matches USBIPReplyHeader::RetSubmit(h) && h.base == spec_ret_base(
            s.base,
            USBIP_RET_SUBMIT,
        ),
{
}

/// Every OUT submit the engine acknowledges automatically is acknowledged
/// with the length of the data it carried and an empty reply payload.
pub proof fn lemma_out_ack(
    info: Info,
    current: Option<usize>,
    cmd: Command,
    s: USBIPHeaderCmdSubmit,
    m: HandledModel,
    rm: ReplyModel,
)
    requires
        cmd.header == USBIPCommandHeader::CmdSubmit(s),
        s.base.direction == UsbIpDirection::Out,
        cmd.payload@.len() == s.transfer_buffer_length,
        spec_handle(info, current, cmd) == Ok::<HandledModel, Error>(m),
        m.reply == Some(rm),
    ensures
        rm.header matches USBIPReplyHeader::RetSubmit(h) && h.actual_length == cmd.payload@.len(),
        rm.payload.len() == 0,
{
}

/// Every IN submit the engine answers automatically is answered with a
/// payload whose length the header declares as the actual length.
pub proof fn lemma_in_reply_carries_data(
    info: Info,
    current: Option<usize>,
    cmd: Command,
    s: USBIPHeaderCmdSubmit,
    m: HandledModel,
    rm: ReplyModel,
)
    requires
        cmd.header == USBIPCommandHeader::CmdSubmit(s),
        s.base.direction == UsbIpDirection::In,
        spec_handle(info, current, cmd) == Ok::<HandledModel, Error>(m),
        m.reply == Some(rm),
    ensures
        rm.header matches USBIPReplyHeader::RetSubmit(h) && h.actual_length == rm.payload.len(),
{
}

/// The endpoint number of every transfer the engine hands out is below 16.
pub proof fn lemma_xfer_endpoint_bounded(
    info: Info,
    current: Option<usize>,
    cmd: Command,
    m: HandledModel,
    xm: XferModel,
)
    requires
        spec_handle(info, current, cmd) == Ok::<HandledModel, Error>(m),
        m.xfer == Some(xm),
    ensures
        xm.ep < 16,
        xm.cmd.base.ep < 16,
{
}

/// Every unlink is acknowledged, never errs, and surfaces no transfer:
/// the RET_UNLINK mirrors the unlink's own basic header and carries
/// status ECONNRESET.
pub proof fn lemma_unlink_acknowledged(
    info: Info,
    current: Option<usize>,
    cmd: Command,
    u: crate::usbip::USBIPHeaderCmdUnlink,
)
    requires
        cmd.header == USBIPCommandHeader::CmdUnlink(u),
    ensures
        spec_handle(info, current, cmd) matches Ok(m) && (m.xfer is None && m.current_config
            == current && (m.reply matches Some(rm) && (rm.header
            matches USBIPReplyHeader::RetUnlink(h) && h.base == spec_ret_base(
            u.base,
            USBIP_RET_UNLINK,
        ) && h.status == -104i32 && rm.payload.len() == 0))),
{
}


/// Builder for a [`VirtualUSBDevice`]: collects descriptors, string table
/// entries and configurations.
pub struct VirtualUSBDeviceBuilder {
    /// The descriptors collected so far.
    pub info: Info,
}

impl VirtualUSBDeviceBuilder {
    /// Start from the default descriptors for the given vendor and product.
    pub fn new(vendor_id: u16, product_id: u16) -> (r: Self)
        ensures
            r.info.device_desc == (DeviceDescriptor {
                b_length: 18u8,
                b_descriptor_type: 1u8,
                bcd_usb: 0x0200u16,
                b_device_class: 0u8,
                b_device_sub_class: 0u8,
                b_device_protocol: 0u8,
                b_max_packet_size_0: 0x10u8,
                id_vendor: vendor_id,
                id_product: product_id,
                bcd_device: 0x0100u16,
                i_manufacturer: 1u8,
                i_product: 2u8,
                i_serial_number: 0u8,
                b_num_configurations: 1u8,
            }),
            r.info.device_qualifier_desc == (DeviceQualifierDescriptor {
                b_length: 10u8,
                b_type: 6u8,
                bcd_usb: 0x0200u16,
                b_device_class: 3u8,
                b_device_sub_class: 0u8,
                b_device_protocol: 0u8,
                b_max_packet_size_0: 0x10u8,
                b_num_configurations: 1u8,
                b_reserved: 0u8,
            }),
            r.info.configs@ == Seq::<Configuration>::empty(),
            r.info.string_descs@ == Seq::<StringDescriptor>::empty(),
    {
        VirtualUSBDeviceBuilder {
            info: Info {
                device_desc: DeviceDescriptor::new(vendor_id, product_id),
                device_qualifier_desc: DeviceQualifierDescriptor::new(),
                configs: Vec::new(),
                string_descs: Vec::new(),
            },
        }
    }

    /// The built, unstarted device.
    pub fn build(self) -> (r: VirtualUSBDevice)
        ensures
            r.info == self.info,
            r.port == Option::<u8>::None,
            r.current_config == Option::<usize>::None,
    {
        VirtualUSBDevice::new(self.info)
    }

    /// Set the device class.
    pub fn class(self, class: DeviceClass) -> (r: Self)
        ensures
            r.info.device_desc == (DeviceDescriptor {
                b_device_class: class.spec_code(),
                ..self.info.device_desc
            }),
            r.info.device_qualifier_desc == self.info.device_qualifier_desc,
            r.info.configs == self.info.configs,
            r.info.string_descs == self.info.string_descs,
    {
        let mut info = self.info;
        info.device_desc.b_device_class = class.code();
        VirtualUSBDeviceBuilder { info }
    }

    /// Set the device subclass.
    pub fn subclass(self, subclass: u8) -> (r: Self)
        ensures
            r.info.device_desc == (DeviceDescriptor {
                b_device_sub_class: subclass,
                ..self.info.device_desc
            }),
            r.info.device_qualifier_desc == self.info.device_qualifier_desc,
            r.info.configs == self.info.configs,
            r.info.string_descs == self.info.string_descs,
    {
        let mut info = self.info;
        info.device_desc.b_device_sub_class = subclass;
        VirtualUSBDeviceBuilder { info }
    }

    /// Announce the supported languages: their identifier array becomes
    /// string descriptor 0, in front of the entries already there.
    pub fn supported_langs(self, langs: Vec<LangId>) -> (r: Self)
        ensures
            r.info.string_descs@.len() == self.info.string_descs@.len() + 1,
            r.info.string_descs@[0].data@ == crate::usb::spec_lang_id_bytes(langs@),
            r.info.string_descs@.skip(1) == self.info.string_descs@,
            r.info.device_desc == self.info.device_desc,
            r.info.device_qualifier_desc == self.info.device_qualifier_desc,
            r.info.configs == self.info.configs,
    {
        let mut info = self.info;
        let desc = StringDescriptor::from_lang_ids(&langs);
        info.string_descs.insert(0, desc);
        proof {
            assert(info.string_descs@.skip(1) =~= self.info.string_descs@);
        }
        VirtualUSBDeviceBuilder { info }
    }

    /// Add a configuration and keep the configuration count current.
    pub fn configuration(self, config: Configuration) -> (r: Self)
        requires
            self.info.configs@.len() + 1 <= 255,
        ensures
            r.info.configs@ == self.info.configs@.push(config),
            r.info.device_desc == (DeviceDescriptor {
                b_num_configurations: (self.info.configs@.len() + 1) as u8,
                ..self.info.device_desc
            }),
            r.info.device_qualifier_desc == self.info.device_qualifier_desc,
            r.info.string_descs == self.info.string_descs,
    {
        let mut info = self.info;
        info.configs.push(config);
        info.device_desc.b_num_configurations = info.configs.len() as u8;
        VirtualUSBDeviceBuilder { info }
    }

    /// Set the manufacturer string: it joins the string table and the
    /// device descriptor points at it.
    pub fn manufacturer(self, manufacturer: &str) -> (r: Self)
        requires
            self.info.string_descs@.len() <= 255,
        ensures
            r.info.string_descs@.len() == self.info.string_descs@.len() + 1,
            r.info.string_descs@.last().data@ == manufacturer.spec_bytes(),
            r.info.string_descs@.drop_last() == self.info.string_descs@,
            r.info.device_desc == (DeviceDescriptor {
                i_manufacturer: self.info.string_descs@.len() as u8,
                ..self.info.device_desc
            }),
            r.info.device_qualifier_desc == self.info.device_qualifier_desc,
            r.info.configs == self.info.configs,
    {
        let mut info = self.info;
        let idx = info.string_descs.len() as u8;
        info.string_descs.push(StringDescriptor::from_text(manufacturer));
        info.device_desc.i_manufacturer = idx;
        proof {
            assert(info.string_descs@.drop_last() =~= self.info.string_descs@);
        }
        VirtualUSBDeviceBuilder { info }
    }

    /// Set the product string: it joins the string table and the device
    /// descriptor points at it.
    pub fn product(self, product: &str) -> (r: Self)
        requires
            self.info.string_descs@.len() <= 255,
        ensures
            r.info.string_descs@.len() == self.info.string_descs@.len() + 1,
            r.info.string_descs@.last().data@ == product.spec_bytes(),
            r.info.string_descs@.drop_last() == self.info.string_descs@,
            r.info.device_desc == (DeviceDescriptor {
                i_product: self.info.string_descs@.len() as u8,
                ..self.info.device_desc
            }),
            r.info.device_qualifier_desc == self.info.device_qualifier_desc,
            r.info.configs == self.info.configs,
    {
        let mut info = self.info;
        let idx = info.string_descs.len() as u8;
        info.string_descs.push(StringDescriptor::from_text(product));
        info.device_desc.i_product = idx;
        proof {
            assert(info.string_descs@.drop_last() =~= self.info.string_descs@);
        }
        VirtualUSBDeviceBuilder { info }
    }

    /// Set the serial number string: it joins the string table and the
    /// device descriptor points at it.
    pub fn serial(self, serial: &str) -> (r: Self)
        requires
            self.info.string_descs@.len() <= 255,
        ensures
            r.info.string_descs@.len() == self.info.string_descs@.len() + 1,
            r.info.string_descs@.last().data@ == serial.spec_bytes(),
            r.info.string_descs@.drop_last() == self.info.string_descs@,
            r.info.device_desc == (DeviceDescriptor {
                i_serial_number: self.info.string_descs@.len() as u8,
                ..self.info.device_desc
            }),
            r.info.device_qualifier_desc == self.info.device_qualifier_desc,
            r.info.configs == self.info.configs,
    {
        let mut info = self.info;
        let idx = info.string_descs.len() as u8;
        info.string_descs.push(StringDescriptor::from_text(serial));
        info.device_desc.i_serial_number = idx;
        proof {
            assert(info.string_descs@.drop_last() =~= self.info.string_descs@);
        }
        VirtualUSBDeviceBuilder { info }
    }

    /// Append string descriptors to the table, each at most 126 bytes when
    /// packed.
    pub fn strings(self, strings: Vec<&str>) -> (r: Self)
        ensures
            r.info.string_descs@.len() == self.info.string_descs@.len() + strings@.len(),
            r.info.string_descs@.take(self.info.string_descs@.len() as int)
                == self.info.string_descs@,
            forall|i: int|
                0 <= i < strings@.len() ==> r.info.string_descs@[self.info.string_descs@.len() + i].data@
                    == strings@[i].spec_bytes(),
            r.info.device_desc == self.info.device_desc,
            r.info.device_qualifier_desc == self.info.device_qualifier_desc,
            r.info.configs == self.info.configs,
    {
        let ghost base = self.info.string_descs@;
        let mut info = self.info;
        let mut i: usize = 0;
        while i < strings.len()
            invariant
                i <= strings@.len(),
                info.string_descs@.len() == base.len() + i,
                info.string_descs@.take(base.len() as int) == base,
                forall|j: int|
                    0 <= j < i ==> info.string_descs@[base.len() + j].data@
                        == strings@[j].spec_bytes(),
                info.device_desc == self.info.device_desc,
                info.device_qualifier_desc == self.info.device_qualifier_desc,
                info.configs == self.info.configs,
            decreases strings@.len() - i,
        {
            info.string_descs.push(StringDescriptor::from_text(strings[i]));
            proof {
                assert(info.string_descs@.take(base.len() as int) =~= base);
            }
            i = i + 1;
        }
        VirtualUSBDeviceBuilder { info }
    }

    /// Set the maximum packet size of endpoint zero.
    pub fn max_packet_size(self, size: u8) -> (r: Self)
        ensures
            r.info.device_desc == (DeviceDescriptor {
                b_max_packet_size_0: size,
                ..self.info.device_desc
            }),
            r.info.device_qualifier_desc == self.info.device_qualifier_desc,
            r.info.configs == self.info.configs,
            r.info.string_descs == self.info.string_descs,
    {
        let mut info = self.info;
        info.device_desc.b_max_packet_size_0 = size;
        VirtualUSBDeviceBuilder { info }
    }
}

} // verus!
