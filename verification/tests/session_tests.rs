use aml_boot::codec::{encode_nop, encode_password};
use aml_boot::error::{ProtocolError, UsbFailure};
use aml_boot::session::{
    open, password_test, select, DeviceId, Session, Variant, USB_PID_AML_DNL, USB_PID_GADGET,
    USB_PID_GX_CHIP, USB_VID_AMLOGIC,
};

const PRODUCTS: [u16; 3] = [USB_PID_GX_CHIP, USB_PID_AML_DNL, USB_PID_GADGET];

fn id(vendor: u16, product: u16) -> DeviceId {
    DeviceId { vendor, product }
}

#[test]
fn product_id_selects_the_variant() {
    assert_eq!(Variant::of_product(0xc003), Some(Variant::MaskRom));
    assert_eq!(Variant::of_product(0xc004), Some(Variant::PasswordGated));
    assert_eq!(Variant::of_product(0xfada), Some(Variant::Gadget));
    assert_eq!(Variant::of_product(0xc005), None);
    assert_eq!(Variant::of_product(0), None);
}

#[test]
fn only_mask_rom_runs_commands() {
    assert!(Variant::MaskRom.runs_commands());
    assert!(!Variant::Gadget.runs_commands());
    assert!(!Variant::PasswordGated.runs_commands());
}

#[test]
fn variants_name_their_chips() {
    assert_eq!(Variant::MaskRom.soc_name(), Some("S905X, S905X2 or S905X3"));
    assert_eq!(Variant::PasswordGated.soc_name(), Some("S905X4"));
    assert_eq!(Variant::Gadget.soc_name(), None);
}

#[test]
fn select_takes_the_first_match() {
    let devices = [
        id(0x1d6b, 0x0002),
        id(0x1b8e, 0x1234),
        id(0x1b8e, 0xc004),
        id(0x1b8e, 0xc003),
    ];
    assert_eq!(select(&devices, USB_VID_AMLOGIC, &PRODUCTS), Ok(2));
    assert_eq!(select(&devices, USB_VID_AMLOGIC, &[USB_PID_GX_CHIP]), Ok(3));
}

#[test]
fn select_finds_nothing_among_strangers() {
    let devices = [id(0x1d6b, 0x0002), id(0x1b8e, 0x1234), id(0x0bda, 0xc003)];
    assert_eq!(
        select(&devices, USB_VID_AMLOGIC, &PRODUCTS),
        Err(ProtocolError::DeviceNotFound)
    );
    assert_eq!(select(&[], USB_VID_AMLOGIC, &PRODUCTS), Err(ProtocolError::DeviceNotFound));
    assert_eq!(
        select(&[id(0x1b8e, 0xc003)], USB_VID_AMLOGIC, &[]),
        Err(ProtocolError::DeviceNotFound)
    );
}

#[test]
fn open_makes_a_session_of_the_variant() {
    assert_eq!(
        open(id(0x1b8e, 0xc003), Ok(())),
        Ok(Session { id: id(0x1b8e, 0xc003), variant: Variant::MaskRom })
    );
    assert_eq!(open(id(0x1b8e, 0xfada), Ok(())).unwrap().variant, Variant::Gadget);
    assert_eq!(open(id(0x1b8e, 0xc004), Ok(())).unwrap().variant, Variant::PasswordGated);
}

#[test]
fn open_wraps_the_cause_of_a_failure() {
    assert_eq!(
        open(id(0x1b8e, 0xc003), Err(UsbFailure::Access)),
        Err(ProtocolError::DeviceOpenError(UsbFailure::Access))
    );
}

#[test]
fn open_does_not_find_an_unknown_device() {
    assert_eq!(open(id(0x1b8e, 0x0001), Ok(())), Err(ProtocolError::DeviceNotFound));
    assert_eq!(open(id(0x0001, 0xc003), Ok(())), Err(ProtocolError::DeviceNotFound));
    assert_eq!(
        open(id(0x0001, 0xc003), Err(UsbFailure::Access)),
        Err(ProtocolError::DeviceNotFound)
    );
}

#[test]
fn password_test_is_nop_then_password() {
    let handshake = password_test();
    assert_eq!(handshake.len(), 2);
    assert_eq!(handshake[0], encode_nop());
    assert_eq!(handshake[1], encode_password(&[0xff; 64]));
    assert_eq!(handshake[1].request_code, 0x35);
    assert_eq!(handshake[1].payload, vec![0xffu8; 64]);
}

#[test]
fn only_a_password_gated_session_shakes_hands() {
    let gated = open(id(0x1b8e, 0xc004), Ok(())).unwrap();
    assert_eq!(gated.handshake(), password_test());
    let plain = open(id(0x1b8e, 0xc003), Ok(())).unwrap();
    assert!(plain.handshake().is_empty());
    let gadget = open(id(0x1b8e, 0xfada), Ok(())).unwrap();
    assert!(gadget.handshake().is_empty());
}
