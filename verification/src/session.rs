//! Choosing the device to talk to and the protocol variant it speaks.
//!
//! A session belongs to one device, which it owns for as long as it lasts:
//! requests carry no transaction number, so one transfer is in flight at a
//! time and every operation waits for the one before it.

use vstd::prelude::*;
use crate::codec::{
    encode_nop, encode_password, out_transfer, Transfer, REQ_NOP, REQ_PASSWORD,
};
use crate::error::{ProtocolError, UsbFailure};

verus! {

/// Vendor ID of Amlogic.
pub const USB_VID_AMLOGIC: u16 = 0x1b8e;

/// Product ID of a chip in mask-ROM mode.
pub const USB_PID_GX_CHIP: u16 = 0xc003;

/// Product ID of a chip whose ROM wants a password.
pub const USB_PID_AML_DNL: u16 = 0xc004;

/// Product ID of a device in gadget mode.
pub const USB_PID_GADGET: u16 = 0xfada;

/// Timeout of a transfer in milliseconds, where the caller has no other.
pub const DEFAULT_TIMEOUT_MS: u64 = 2500;

/// The byte that the placeholder password is made of.
pub const PASSWORD_FILL: u8 = 0xff;

/// Vendor and product ID of an attached device.
#[derive(Clone, Copy, Debug, PartialEq, Eq, Structural)]
pub struct DeviceId {
    pub vendor: u16,
    pub product: u16,
}

/// The protocol variant that a device speaks.
#[derive(Clone, Copy, Debug, PartialEq, Eq, Structural)]
pub enum Variant {
    /// Mask-ROM mode: the ROM takes requests.
    MaskRom,
    /// Gadget mode: the device passes data through and takes no request of
    /// this protocol.
    Gadget,
    /// The ROM takes no request before a password was handed in.
    PasswordGated,
}

/// The variant that a product ID stands for, if it is a known one.
pub open spec fn variant_of(product: u16) -> Option<Variant> {
    if product == USB_PID_GX_CHIP {
        Some(Variant::MaskRom)
    } else if product == USB_PID_AML_DNL {
        Some(Variant::PasswordGated)
    } else if product == USB_PID_GADGET {
        Some(Variant::Gadget)
    } else {
        None
    }
}

/// Whether a device has the vendor ID `vendor` and one of the product IDs
/// `products`.
pub open spec fn matches_ids(id: DeviceId, vendor: u16, products: Seq<u16>) -> bool {
    id.vendor == vendor && products.contains(id.product)
}

/// Whether a device is one of Amlogic's with a known product ID.
pub open spec fn is_known(id: DeviceId) -> bool {
    id.vendor == USB_VID_AMLOGIC && variant_of(id.product) is Some
}

impl Variant {
    /// The variant that a product ID stands for, if it is a known one.
    pub fn of_product(product: u16) -> (v: Option<Variant>)
        ensures
            v == variant_of(product),
    {
        if product == USB_PID_GX_CHIP {
            Some(Variant::MaskRom)
        } else if product == USB_PID_AML_DNL {
            Some(Variant::PasswordGated)
        } else if product == USB_PID_GADGET {
            Some(Variant::Gadget)
        } else {
            None
        }
    }

    /// Whether commands can be run in a session of this variant: only in
    /// mask-ROM mode. In gadget mode the session reports that and does
    /// nothing; a password-gated session ends with its handshake.
    pub fn runs_commands(&self) -> (b: bool)
        ensures
            b == (*self == Variant::MaskRom),
    {
        match self {
            Variant::MaskRom => true,
            _ => false,
        }
    }

    /// The names of the chips that speak this variant. None are known for
    /// gadget mode.
    pub open spec fn spec_soc_name(self) -> Option<Seq<char>> {
        match self {
            Variant::MaskRom => Some("S905X, S905X2 or S905X3"@),
            Variant::PasswordGated => Some("S905X4"@),
            Variant::Gadget => None,
        }
    }

    /// The names of the chips that speak this variant, for the user.
    pub fn soc_name(&self) -> (s: Option<&'static str>)
        ensures
            s is Some == self.spec_soc_name() is Some,
            s is Some ==> s->Some_0@ == self.spec_soc_name()->Some_0,
    {
        match self {
            Variant::MaskRom => Some("S905X, S905X2 or S905X3"),
            Variant::PasswordGated => Some("S905X4"),
            Variant::Gadget => None,
        }
    }
}

fn contains(products: &[u16], product: u16) -> (b: bool)
    ensures
        b == products@.contains(product),
{
    let mut i: usize = 0;
    while i < products.len()
        invariant
            i <= products.len(),
            forall|j: int| 0 <= j < i ==> products[j] != product,
        decreases products.len() - i,
    {
        if products[i] == product {
            return true;
        }
        i = i + 1;
    }
    false
}

/// Picks the device to open: the first of the attached devices that has the
/// vendor ID `vendor` and one of the product IDs `products`. Where there is
/// none, the device is not found.
pub fn select(devices: &[DeviceId], vendor: u16, products: &[u16]) -> (r: Result<
    usize,
    ProtocolError,
>)
    ensures
        (forall|i: int| 0 <= i < devices@.len() ==> !matches_ids(devices[i], vendor, products@))
            ==> r == Err::<usize, ProtocolError>(ProtocolError::DeviceNotFound),
        (exists|i: int| 0 <= i < devices@.len() && matches_ids(devices[i], vendor, products@))
            ==> r is Ok && r->Ok_0 < devices@.len() && matches_ids(
            devices[r->Ok_0 as int],
            vendor,
            products@,
        ) && forall|j: int| 0 <= j < r->Ok_0 ==> !matches_ids(devices[j], vendor, products@),
{
    let mut i: usize = 0;
    while i < devices.len()
        invariant
            i <= devices.len(),
            forall|j: int| 0 <= j < i ==> !matches_ids(devices[j], vendor, products@),
        decreases devices.len() - i,
    {
        if devices[i].vendor == vendor && contains(products, devices[i].product) {
            return Ok(i);
        }
        i = i + 1;
    }
    Err(ProtocolError::DeviceNotFound)
}

/// An open device and the variant it speaks.
#[derive(Clone, Copy, Debug, PartialEq, Eq, Structural)]
pub struct Session {
    /// The IDs of the device.
    pub id: DeviceId,
    /// The variant that the product ID stands for.
    pub variant: Variant,
}

/// Makes the session for a device that the caller tried to open. A device
/// of another vendor or with an unknown product ID is not found; one that
/// could not be opened gives the error that wraps the cause.
pub fn open(id: DeviceId, opened: Result<(), UsbFailure>) -> (r: Result<Session, ProtocolError>)
    ensures
        !is_known(id) ==> r == Err::<Session, ProtocolError>(ProtocolError::DeviceNotFound),
        is_known(id) && opened is Err ==> r == Err::<Session, ProtocolError>(
            ProtocolError::DeviceOpenError(opened->Err_0),
        ),
        is_known(id) && opened is Ok ==> r == Ok::<Session, ProtocolError>(
            Session { id: id, variant: variant_of(id.product)->Some_0 },
        ),
{
    if id.vendor != USB_VID_AMLOGIC {
        return Err(ProtocolError::DeviceNotFound);
    }
    match Variant::of_product(id.product) {
        None => Err(ProtocolError::DeviceNotFound),
        Some(variant) => match opened {
            Err(f) => Err(ProtocolError::DeviceOpenError(f)),
            Ok(_) => Ok(Session { id, variant }),
        },
    }
}

/// The handshake of a password-gated session: the request that does nothing,
/// then a password of 64 bytes that are all `0xff`. How the true password
/// is made is not known, so the handshake may leave the device locked.
pub fn password_test() -> (r: Vec<Transfer>)
    ensures
        r.len() == 2,
        r[0]@ == out_transfer(REQ_NOP, 0, 0, Seq::empty()),
        r[1]@ == out_transfer(REQ_PASSWORD, 0, 0, Seq::new(64, |i: int| PASSWORD_FILL)),
{
    let pw: [u8; 64] = [PASSWORD_FILL;64];
    let mut r: Vec<Transfer> = Vec::new();
    r.push(encode_nop());
    r.push(encode_password(&pw));
    assert(pw@ =~= Seq::new(64, |i: int| PASSWORD_FILL));
    r
}

impl Session {
    /// The transfers to send before anything else: the handshake in a
    /// password-gated session, none in the others.
    pub fn handshake(&self) -> (r: Vec<Transfer>)
        ensures
            self.variant != Variant::PasswordGated ==> r.len() == 0,
            self.variant == Variant::PasswordGated ==> r.len() == 2 && r[0]@ == out_transfer(
                REQ_NOP,
                0,
                0,
                Seq::empty(),
            ) && r[1]@ == out_transfer(
                REQ_PASSWORD,
                0,
                0,
                Seq::new(64, |i: int| PASSWORD_FILL),
            ),
    {
        match self.variant {
            Variant::PasswordGated => password_test(),
            _ => Vec::new(),
        }
    }
}

} // verus!
