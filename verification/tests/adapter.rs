//! USB/IP frame parsing and the sysfs adapter's text formats.

use virtual_usb::usb::SetupRequest;
use virtual_usb::usbip::{
    attach_request, command_payload_len, get_next_port_number, parse_command, parse_decimal,
    parse_nports, parse_status, USBIPCommandHeader, USBIPHeaderBasic, USBIPHeaderCmdSubmit,
    USBIPHeaderCmdUnlink, USBIPHeaderRetSubmit, USBIPHeaderRetUnlink, USBIPReplyHeader,
    UsbIpDirection, VirtualUsbPort,
};
use virtual_usb::usbip::USBIPHeaderInit;
use virtual_usb::virtual_usb::{Command, Reply};
use virtual_usb::Error;

fn sample_submit() -> USBIPHeaderCmdSubmit {
    USBIPHeaderCmdSubmit {
        base: USBIPHeaderBasic {
            command: 1,
            seqnum: 0x01020304,
            devid: 0x00010002,
            direction: UsbIpDirection::Out,
            ep: 3,
        },
        transfer_flags: 0,
        transfer_buffer_length: 64,
        start_frame: 0,
        number_of_packets: -1,
        interval: 0,
        setup: SetupRequest::unpack(&[0; 8]).unwrap(),
    }
}

#[test]
fn basic_header_packs_big_endian() {
    let base = USBIPHeaderBasic {
        command: 3,
        seqnum: 0x01020304,
        devid: 0x00010002,
        direction: UsbIpDirection::In,
        ep: 1,
    };
    assert_eq!(
        base.pack_to_vec(),
        vec![0, 0, 0, 3, 1, 2, 3, 4, 0, 1, 0, 2, 0, 0, 0, 1, 0, 0, 0, 1]
    );
}

#[test]
fn cmd_submit_frame_round_trips() {
    let header = sample_submit();
    let bytes = header.pack_to_vec();
    assert_eq!(bytes.len(), 48);
    assert_eq!(parse_command(&bytes), Ok(USBIPCommandHeader::CmdSubmit(header)));
}

#[test]
fn cmd_unlink_frame_round_trips() {
    let header = USBIPHeaderCmdUnlink {
        base: USBIPHeaderBasic {
            command: 2,
            seqnum: 9,
            devid: 2,
            direction: UsbIpDirection::Out,
            ep: 0,
        },
        seqnum: 7,
    };
    let bytes = header.pack_to_vec();
    assert_eq!(bytes.len(), 48);
    assert_eq!(parse_command(&bytes), Ok(USBIPCommandHeader::CmdUnlink(header)));
}

#[test]
fn parse_command_rejects_wrong_length() {
    assert_eq!(parse_command(&[0; 20]), Err(Error::Malformed));
}

#[test]
fn parse_command_rejects_unknown_command_numbers() {
    let mut bytes = sample_submit().pack_to_vec();
    bytes[3] = 7;
    assert_eq!(parse_command(&bytes), Err(Error::InvalidEnum));
}

#[test]
fn parse_command_rejects_bad_direction_words() {
    let mut bytes = sample_submit().pack_to_vec();
    bytes[15] = 9;
    assert_eq!(parse_command(&bytes), Err(Error::InvalidEnum));
}

#[test]
fn payload_follows_out_submits_only() {
    let out_submit = USBIPCommandHeader::CmdSubmit(sample_submit());
    assert_eq!(command_payload_len(&out_submit), Ok(64));
    let mut in_submit = sample_submit();
    in_submit.base.direction = UsbIpDirection::In;
    assert_eq!(command_payload_len(&USBIPCommandHeader::CmdSubmit(in_submit)), Ok(0));
    let mut bad = sample_submit();
    bad.transfer_buffer_length = -5;
    assert_eq!(command_payload_len(&USBIPCommandHeader::CmdSubmit(bad)), Err(Error::Malformed));
}

#[test]
fn ret_unlink_packs_econnreset_as_twos_complement() {
    let header = USBIPHeaderRetUnlink {
        base: USBIPHeaderBasic {
            command: 4,
            seqnum: 9,
            devid: 2,
            direction: UsbIpDirection::Out,
            ep: 0,
        },
        status: -104,
    };
    let bytes = header.pack_to_vec();
    assert_eq!(bytes.len(), 48);
    assert_eq!(&bytes[20..24], &[0xff, 0xff, 0xff, 0x98]);
    assert!(bytes[24..].iter().all(|b| *b == 0));
}

#[test]
fn reply_serializes_header_then_payload() {
    let reply = Reply {
        header: USBIPReplyHeader::RetSubmit(USBIPHeaderRetSubmit {
            base: USBIPHeaderBasic {
                command: 3,
                seqnum: 5,
                devid: 2,
                direction: UsbIpDirection::In,
                ep: 1,
            },
            status: 0,
            actual_length: 2,
            start_frame: 0,
            number_of_packets: 0,
            error_count: 0,
        }),
        payload: vec![0xab, 0xcd],
    };
    let bytes = reply.to_bytes();
    assert_eq!(bytes.len(), 50);
    assert_eq!(&bytes[48..], &[0xab, 0xcd]);
    assert_eq!(&bytes[24..28], &[0, 0, 0, 2]);
}

#[test]
fn status_line_parses_into_a_port() {
    let port = VirtualUsbPort::try_from_line(b"hs  0000 004 000 00000000 000000 0-0").unwrap();
    assert_eq!(port.hub, b"hs".to_vec());
    assert_eq!(port.port, 0);
    assert_eq!(port.status, 4);
    assert_eq!(port.speed, 0);
    assert_eq!(port.device, 0);
    assert_eq!(port.sock_fd, 0);
    assert_eq!(port.local_bus_id, b"0-0".to_vec());
}

#[test]
fn status_line_with_missing_fields_is_malformed() {
    assert_eq!(
        VirtualUsbPort::try_from_line(b"hs  0000 004 000").unwrap_err(),
        Error::Malformed
    );
}

#[test]
fn status_line_with_bad_number_is_malformed() {
    assert_eq!(
        VirtualUsbPort::try_from_line(b"hs  00x0 004 000 00000000 000000 0-0").unwrap_err(),
        Error::Malformed
    );
}

#[test]
fn status_table_skips_header_and_picks_free_port() {
    let table = b"hub port sta spd dev      sockfd local_busid\n\
hs  0000 006 003 00010002 000004 1-1\n\
hs  0001 004 000 00000000 000000 0-0\n\
hs  0002 004 000 00000000 000000 0-0\n";
    let ports = parse_status(table);
    assert_eq!(ports.len(), 3);
    assert_eq!(ports[0].status, 6);
    assert_eq!(ports[1].port, 1);
    assert_eq!(get_next_port_number(&ports), Ok(1));
}

#[test]
fn full_status_table_has_no_free_port() {
    let table = b"hub port sta spd dev      sockfd local_busid\n\
hs  0000 006 003 00010002 000004 1-1\n";
    let ports = parse_status(table);
    assert_eq!(get_next_port_number(&ports), Err(Error::NoFreePort));
}

#[test]
fn parse_decimal_enforces_bounds() {
    assert_eq!(parse_decimal(b"255", 255), Some(255));
    assert_eq!(parse_decimal(b"256", 255), None);
    assert_eq!(parse_decimal(b"0007", 255), Some(7));
    assert_eq!(parse_decimal(b"", 255), None);
    assert_eq!(parse_decimal(b"1a", 255), None);
}

#[test]
fn attach_request_is_space_separated_decimals() {
    assert_eq!(attach_request(0, 5, 1, 2), b"0 5 1 2".to_vec());
    assert_eq!(attach_request(12, 345, 6789, 0), b"12 345 6789 0".to_vec());
}

#[test]
fn nports_parses_with_surrounding_whitespace() {
    assert_eq!(parse_nports(b"8\n"), Ok(8));
    assert_eq!(parse_nports(b"  16  "), Ok(16));
    assert_eq!(parse_nports(b"abc"), Err(Error::Malformed));
    assert_eq!(parse_nports(b"1 2"), Err(Error::Malformed));
}

#[test]
fn init_header_reads_the_basic_header_off_a_frame() {
    let header = sample_submit();
    let bytes = header.pack_to_vec();
    let init = USBIPHeaderInit::unpack(&bytes).unwrap();
    assert_eq!(init.base, header.base);
    assert_eq!(USBIPHeaderInit::unpack(&bytes[..20]).unwrap_err(), Error::Malformed);
}

#[test]
fn command_exposes_its_basic_header() {
    let header = sample_submit();
    let cmd = Command::new(USBIPCommandHeader::CmdSubmit(header), vec![]);
    assert_eq!(cmd.get_header(), header.base);
    assert_eq!(USBIPCommandHeader::CmdSubmit(header).get_header(), header.base);
}
