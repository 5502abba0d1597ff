use aml_boot::codec::{
    encode_bulk_cmd, encode_chip_gen, encode_chip_info, encode_exec, encode_identify, encode_nop,
    encode_password, encode_read, encode_tpl_cmd, encode_write, is_c_string, Direction, Transfer,
};
use aml_boot::error::{ProtocolError, UsbFailure};
use aml_boot::wire::Endianness;

fn expect_out(t: &Transfer, code: u8, hi: u16, lo: u16, payload: &[u8]) {
    assert_eq!(t.direction, Direction::Out);
    assert_eq!(t.request_code, code);
    assert_eq!(t.field_hi, hi);
    assert_eq!(t.field_lo, lo);
    assert_eq!(t.payload, payload);
    assert_eq!(t.length, payload.len());
}

fn expect_in(t: &Transfer, code: u8, hi: u16, lo: u16, length: usize) {
    assert_eq!(t.direction, Direction::In);
    assert_eq!(t.request_code, code);
    assert_eq!(t.field_hi, hi);
    assert_eq!(t.field_lo, lo);
    assert!(t.payload.is_empty());
    assert_eq!(t.length, length);
}

#[test]
fn request_type_bytes() {
    assert_eq!(Direction::In.request_type(), 0xc0);
    assert_eq!(Direction::Out.request_type(), 0x40);
}

#[test]
fn nop_is_an_empty_out_transfer() {
    expect_out(&encode_nop(), 0x36, 0, 0, &[]);
}

#[test]
fn identify_asks_for_six_bytes() {
    expect_in(&encode_identify(), 0x20, 0, 0, 6);
}

#[test]
fn chip_gen_asks_for_sixteen_bytes() {
    expect_in(&encode_chip_gen(), 0x12, 0, 0, 16);
}

#[test]
fn chip_info_carries_the_index() {
    for index in 0..=3u16 {
        expect_in(&encode_chip_info(index), 0x40, 0, index, 64);
    }
}

#[test]
fn read_names_the_address_in_two_fields() {
    let t = encode_read(0xd900_d400, 12).unwrap();
    expect_in(&t, 0x02, 0xd900, 0xd400, 12);
    assert_eq!(t.address(), 0xd900_d400);
}

#[test]
fn read_of_no_byte_is_legal() {
    expect_in(&encode_read(0x1000, 0).unwrap(), 0x02, 0, 0x1000, 0);
}

#[test]
fn read_of_64_bytes_is_the_most() {
    expect_in(&encode_read(0xfffa_0000, 64).unwrap(), 0x02, 0xfffa, 0, 64);
}

#[test]
fn read_of_65_bytes_is_rejected() {
    assert_eq!(encode_read(0xfffa_0000, 65), Err(ProtocolError::SizeExceeded));
    assert_eq!(encode_read(0, 255), Err(ProtocolError::SizeExceeded));
}

#[test]
fn write_of_65_bytes_is_rejected() {
    let bytes = [0u8; 65];
    assert_eq!(
        encode_write(0xfffa_0000, &bytes, Endianness::Little),
        Err(ProtocolError::SizeExceeded)
    );
    assert_eq!(
        encode_write(0xfffa_0000, &bytes, Endianness::Big),
        Err(ProtocolError::SizeExceeded)
    );
}

#[test]
fn write_of_no_byte_is_legal() {
    let t = encode_write(0x2000, &[], Endianness::Big).unwrap();
    expect_out(&t, 0x01, 0, 0x2000, &[]);
}

#[test]
fn write_of_64_bytes_is_the_most() {
    let bytes: Vec<u8> = (0..64).collect();
    let t = encode_write(0xfffa_0000, &bytes, Endianness::Little).unwrap();
    expect_out(&t, 0x01, 0xfffa, 0, &bytes);
}

#[test]
fn write_in_big_endian_reverses_each_word() {
    let t = encode_write(0xc810_0024, &[0xff, 0x3d, 0xff, 0xbd], Endianness::Big).unwrap();
    expect_out(&t, 0x01, 0xc810, 0x0024, &[0xbd, 0xff, 0x3d, 0xff]);
    assert_eq!(t.address(), 0xc810_0024);
}

#[test]
fn write_fills_the_last_word() {
    let t = encode_write(0, &[1, 2, 3, 4, 5], Endianness::Little).unwrap();
    assert_eq!(t.length, 8);
    assert_eq!(&t.payload[..5], &[1, 2, 3, 4, 5]);
}

#[test]
fn exec_names_the_entry_and_carries_nothing() {
    let t = encode_exec(0xfffa_0000);
    expect_out(&t, 0x05, 0xfffa, 0x0000, &[]);
    assert_eq!(t.address(), 0xfffa_0000);
}

#[test]
fn password_is_sent_as_it_is() {
    let mut pw = [0u8; 64];
    for (i, b) in pw.iter_mut().enumerate() {
        *b = (255 - i) as u8;
    }
    expect_out(&encode_password(&pw), 0x35, 0, 0, &pw);
}

#[test]
fn tpl_command_fills_its_buffer() {
    let t = encode_tpl_cmd("fastboot").unwrap();
    assert_eq!(t.direction, Direction::Out);
    assert_eq!(t.request_code, 0x30);
    assert_eq!((t.field_hi, t.field_lo), (0, 1));
    assert_eq!(t.length, 512);
    assert_eq!(t.payload.len(), 512);
    assert_eq!(&t.payload[..8], b"fastboot");
    assert!(t.payload[8..].iter().all(|b| *b == 0));
}

#[test]
fn bulk_command_fills_its_buffer() {
    let t = encode_bulk_cmd("printenv").unwrap();
    assert_eq!(t.direction, Direction::Out);
    assert_eq!(t.request_code, 0x34);
    assert_eq!((t.field_hi, t.field_lo), (0, 2));
    assert_eq!(t.length, 512);
    assert_eq!(&t.payload[..8], b"printenv");
    assert!(t.payload[8..].iter().all(|b| *b == 0));
}

#[test]
fn empty_command_is_a_buffer_of_zero_bytes() {
    let t = encode_bulk_cmd("").unwrap();
    assert_eq!(t.payload, vec![0u8; 512]);
}

#[test]
fn longest_command_leaves_room_for_the_end() {
    let cmd = "a".repeat(511);
    let t = encode_bulk_cmd(&cmd).unwrap();
    assert_eq!(&t.payload[..511], cmd.as_bytes());
    assert_eq!(t.payload[511], 0);
    let t = encode_tpl_cmd(&cmd).unwrap();
    assert_eq!(t.payload[511], 0);
}

#[test]
fn command_that_fills_the_buffer_is_too_long() {
    let cmd = "a".repeat(512);
    assert_eq!(encode_bulk_cmd(&cmd), Err(ProtocolError::CommandTooLong));
    assert_eq!(encode_tpl_cmd(&cmd), Err(ProtocolError::CommandTooLong));
    let cmd = "a".repeat(2000);
    assert_eq!(encode_bulk_cmd(&cmd), Err(ProtocolError::CommandTooLong));
    assert_eq!(encode_tpl_cmd(&cmd), Err(ProtocolError::CommandTooLong));
}

#[test]
fn command_length_counts_bytes() {
    let cmd = "\u{e9}".repeat(256);
    assert_eq!(cmd.len(), 512);
    assert_eq!(encode_bulk_cmd(&cmd), Err(ProtocolError::CommandTooLong));
    let cmd = "\u{e9}".repeat(255);
    assert_eq!(encode_bulk_cmd(&cmd).unwrap().payload[..510], *cmd.as_bytes());
}

#[test]
fn errors_describe_themselves() {
    assert_eq!(ProtocolError::SizeExceeded.describe(), "Memory transfer size is 64 max");
    assert_eq!(ProtocolError::CommandTooLong.describe(), "Command too long.");
    assert_eq!(ProtocolError::DeviceNotFound.describe(), "Cannot find Amlogic USB device");
    assert_eq!(
        ProtocolError::DeviceOpenError(UsbFailure::Access).describe(),
        "Error opening USB device"
    );
    assert_eq!(
        ProtocolError::TransferError(UsbFailure::Timeout).describe(),
        "Control transfer failed"
    );
    assert_eq!(
        ProtocolError::AlignmentError.describe(),
        "Image size is no multiple of 64 bytes"
    );
}

#[test]
fn errors_name_their_cause() {
    assert_eq!(ProtocolError::TransferError(UsbFailure::Pipe).cause(), Some(UsbFailure::Pipe));
    assert_eq!(
        ProtocolError::DeviceOpenError(UsbFailure::Busy).cause(),
        Some(UsbFailure::Busy)
    );
    assert_eq!(ProtocolError::SizeExceeded.cause(), None);
    assert_eq!(ProtocolError::CommandTooLong.cause(), None);
    assert_eq!(ProtocolError::DeviceNotFound.cause(), None);
    assert_eq!(ProtocolError::AlignmentError.cause(), None);
}

#[test]
fn c_string_holds_no_zero_byte() {
    assert!(is_c_string("fastboot"));
    assert!(is_c_string(""));
    assert!(is_c_string("\u{e9}t\u{e9}"));
    assert!(!is_c_string("fast\0boot"));
    assert!(!is_c_string("\0"));
    assert!(!is_c_string("fastboot\0"));
}
