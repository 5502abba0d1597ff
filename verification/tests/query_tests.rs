use aml_boot::codec::Direction;
use aml_boot::error::{ProtocolError, UsbFailure};
use aml_boot::query::{
    brute_force_cmds, chip_gen, chip_info, chip_info_label, chip_info_n, flag, info,
    int_to_bool_str, ChipInfo,
};

#[test]
fn flag_is_yes_only_for_one() {
    assert_eq!(int_to_bool_str(1), "yes");
    assert_eq!(int_to_bool_str(0), "no");
    assert_eq!(int_to_bool_str(2), "no");
    assert_eq!(int_to_bool_str(255), "no");
    assert!(flag(1));
    assert!(!flag(0));
    assert!(!flag(2));
    assert!(!flag(0xff));
}

#[test]
fn identify_host_decodes_versions_and_flags() {
    let id = info(Ok([1, 0, 2, 0, 1, 0])).unwrap();
    assert_eq!(id.rom_version, (1, 0));
    assert_eq!(id.stage_version, (2, 0));
    assert!(id.need_password);
    assert!(!id.password_ok);
}

#[test]
fn identify_host_takes_only_one_for_true() {
    let id = info(Ok([1, 0, 2, 0, 2, 1])).unwrap();
    assert_eq!(id.rom_version, (1, 0));
    assert_eq!(id.stage_version, (2, 0));
    assert!(!id.need_password);
    assert!(id.password_ok);
}

#[test]
fn identify_host_reports_a_failed_transfer() {
    assert_eq!(
        info(Err(UsbFailure::Timeout)),
        Err(ProtocolError::TransferError(UsbFailure::Timeout))
    );
}

#[test]
fn chip_gen_decodes_family_generation_and_name() {
    let bytes = [
        0x03, 0x10, 0x47, 0, 0x58, 0, 0x2d, 0, 0x43, 0, 0x48, 0, 0x49, 0, 0x50, 0,
    ];
    let gen = chip_gen(Ok(bytes)).unwrap();
    assert_eq!(gen.family, 0x03);
    assert_eq!(gen.generation, 0x10);
    assert_eq!(gen.name, "GX-CHIP");
}

#[test]
fn chip_gen_ignores_the_high_bytes() {
    let bytes = [
        0x10, 0x03, 0x47, 0xff, 0x58, 1, 0x2d, 2, 0x43, 3, 0x48, 4, 0x49, 5, 0x50, 6,
    ];
    let gen = chip_gen(Ok(bytes)).unwrap();
    assert_eq!(gen.family, 0x10);
    assert_eq!(gen.generation, 0x03);
    assert_eq!(gen.name, "GX-CHIP");
}

#[test]
fn chip_gen_name_has_seven_characters() {
    let gen = chip_gen(Ok([0u8; 16])).unwrap();
    assert_eq!(gen.name.chars().count(), 7);
    assert_eq!(gen.name, "\0\0\0\0\0\0\0");
    let mut bytes = [0u8; 16];
    bytes[2] = 0xe9;
    let gen = chip_gen(Ok(bytes)).unwrap();
    assert_eq!(gen.name.chars().next(), Some('\u{e9}'));
}

#[test]
fn chip_gen_reports_a_failed_transfer() {
    assert_eq!(
        chip_gen(Err(UsbFailure::Pipe)),
        Err(ProtocolError::TransferError(UsbFailure::Pipe))
    );
}

#[test]
fn chip_info_block_is_sixteen_words() {
    let mut bytes = [0u8; 64];
    bytes[0] = 0x78;
    bytes[1] = 0x56;
    bytes[2] = 0x34;
    bytes[3] = 0x12;
    bytes[63] = 0x80;
    match chip_info_n(Ok(bytes)) {
        ChipInfo::Block(words) => {
            assert_eq!(words.len(), 16);
            assert_eq!(words[0], 0x1234_5678);
            assert_eq!(words[1], 0);
            assert_eq!(words[15], 0x8000_0000);
        }
        ChipInfo::Unavailable(_) => panic!("a block was sent"),
    }
}

#[test]
fn chip_info_may_be_unavailable() {
    assert_eq!(chip_info_n(Err(UsbFailure::Pipe)), ChipInfo::Unavailable(UsbFailure::Pipe));
}

#[test]
fn chip_info_asks_for_four_blocks_in_order() {
    let requests = chip_info();
    assert_eq!(requests.len(), 4);
    for (i, t) in requests.iter().enumerate() {
        assert_eq!(t.direction, Direction::In);
        assert_eq!(t.request_code, 0x40);
        assert_eq!(t.field_hi, 0);
        assert_eq!(t.field_lo, i as u16);
        assert_eq!(t.length, 64);
        assert!(t.payload.is_empty());
    }
}

#[test]
fn chip_info_blocks_have_names() {
    assert_eq!(chip_info_label(0), "INDEX");
    assert_eq!(chip_info_label(1), "CHIP");
    assert_eq!(chip_info_label(2), "OPS");
    assert_eq!(chip_info_label(3), "ROM-VERSION");
}

#[test]
fn brute_force_tries_every_request_code() {
    let probes = brute_force_cmds();
    assert_eq!(probes.len(), 256);
    for (i, t) in probes.iter().enumerate() {
        assert_eq!(t.direction, Direction::In);
        assert_eq!(t.request_code, i as u8);
        assert_eq!((t.field_hi, t.field_lo), (0, 0));
        assert_eq!(t.length, 16);
        assert!(t.payload.is_empty());
    }
}
