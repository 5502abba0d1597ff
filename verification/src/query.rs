//! Decoding of what the ROM answers to the diagnostic requests.

use vstd::prelude::*;
use crate::codec::{encode_chip_info, in_transfer, Transfer, CHIP_INFO_LEN, REQ_CHIPINFO};
use crate::error::{ProtocolError, UsbFailure};
use crate::wire::{conv_64u8_as_16u32, le_words};

verus! {

/// What the ROM says of itself when the host identifies.
#[derive(Clone, Copy, Debug, PartialEq, Eq)]
pub struct ChipIdentity {
    /// Major and minor version of the ROM.
    pub rom_version: (u8, u8),
    /// Major and minor version of the boot stage.
    pub stage_version: (u8, u8),
    /// Whether the ROM wants a password before it takes further commands.
    pub need_password: bool,
    /// Whether the password was handed in and accepted.
    pub password_ok: bool,
}

/// A flag byte stands for "yes" only when it is exactly one.
pub open spec fn flag_of(v: u8) -> bool {
    v == 1
}

/// The identity that six bytes of an answer stand for.
pub open spec fn identity_of(b: Seq<u8>) -> ChipIdentity
    recommends
        b.len() == 6,
{
    ChipIdentity {
        rom_version: (b[0], b[1]),
        stage_version: (b[2], b[3]),
        need_password: flag_of(b[4]),
        password_ok: flag_of(b[5]),
    }
}

/// Whether a flag byte stands for "yes".
pub fn flag(v: u8) -> (b: bool)
    ensures
        b == flag_of(v),
{
    v == 1
}

/// The word that tells the user what a flag byte stands for: "yes" for one,
/// "no" for every other value.
pub fn int_to_bool_str(v: u8) -> (s: &'static str)
    ensures
        s@ == (if flag_of(v) {
            "yes"@
        } else {
            "no"@
        }),
{
    match v {
        1 => "yes",
        _ => "no",
    }
}

/// Reads the answer to the identify request. A failed transfer is reported
/// as such.
pub fn info(reply: Result<[u8; 6], UsbFailure>) -> (r: Result<ChipIdentity, ProtocolError>)
    ensures
        r == match reply {
            Ok(b) => Ok::<ChipIdentity, ProtocolError>(identity_of(b@)),
            Err(f) => Err::<ChipIdentity, ProtocolError>(ProtocolError::TransferError(f)),
        },
{
    match reply {
        Ok(b) => Ok(
            ChipIdentity {
                rom_version: (b[0], b[1]),
                stage_version: (b[2], b[3]),
                need_password: flag(b[4]),
                password_ok: flag(b[5]),
            },
        ),
        Err(f) => Err(ProtocolError::TransferError(f)),
    }
}

/// Family, generation and name of a chip.
#[derive(Clone, Debug, PartialEq, Eq)]
pub struct ChipGen {
    /// The chip family.
    pub family: u8,
    /// The generation within the family.
    pub generation: u8,
    /// The name of the device, seven characters.
    pub name: String,
}

/// A chip generation as a mathematical value.
pub struct ChipGenView {
    pub family: u8,
    pub generation: u8,
    pub name: Seq<char>,
}

impl View for ChipGen {
    type V = ChipGenView;

    open spec fn view(&self) -> ChipGenView {
        ChipGenView { family: self.family, generation: self.generation, name: self.name@ }
    }
}

/// The chip generation that sixteen bytes of an answer stand for: family,
/// generation, and seven little-endian 16-bit words of which the low byte is
/// a character of the name. The high bytes are not looked at.
pub open spec fn chip_gen_of(b: Seq<u8>) -> ChipGenView
    recommends
        b.len() == 16,
{
    ChipGenView {
        family: b[0],
        generation: b[1],
        name: Seq::new(7, |i: int| b[2 + 2 * i] as char),
    }
}

/// Appends one character to a string, by `String::push` of the standard
/// library: afterwards the string holds what it held, followed by the
/// character.
#[verifier::external_body]
fn push_char(s: &mut String, c: char)
    ensures
        final(s)@ == old(s)@.push(c),
{
    s.push(c);
}

/// Reads the answer to the chip generation request. A failed transfer is
/// reported as such.
pub fn chip_gen(reply: Result<[u8; 16], UsbFailure>) -> (r: Result<ChipGen, ProtocolError>)
    ensures
        reply is Err ==> r == Err::<ChipGen, ProtocolError>(
            ProtocolError::TransferError(reply->Err_0),
        ),
        reply is Ok ==> r is Ok && r->Ok_0@ == chip_gen_of(reply->Ok_0@),
{
    match reply {
        Ok(b) => {
            let mut name = String::new();
            let mut i: usize = 0;
            while i < 7
                invariant
                    i <= 7,
                    name@.len() == i,
                    forall|j: int| 0 <= j < i ==> name@[j] == b[2 + 2 * j] as char,
                decreases 7 - i,
            {
                push_char(&mut name, b[2 + 2 * i] as char);
                i = i + 1;
            }
            assert(name@ =~= chip_gen_of(b@).name);
            Ok(ChipGen { family: b[0], generation: b[1], name })
        },
        Err(f) => Err(ProtocolError::TransferError(f)),
    }
}

/// What came of asking for one block of chip information.
#[derive(Clone, Debug, PartialEq, Eq)]
pub enum ChipInfo {
    /// The sixteen words of the block. A chip that does not know the request
    /// may answer with its chip generation instead; the words are then those
    /// bytes, and nothing here tells the two apart.
    Block(Vec<u32>),
    /// The chip did not answer. Chips that do not know the request behave so,
    /// and it is no error.
    Unavailable(UsbFailure),
}

/// Reads the answer to a chip information request: sixteen little-endian
/// words, or the note that the chip gave none.
pub fn chip_info_n(reply: Result<[u8; 64], UsbFailure>) -> (r: ChipInfo)
    ensures
        reply is Err ==> r == ChipInfo::Unavailable(reply->Err_0),
        reply is Ok ==> r is Block && r->Block_0@ == le_words(reply->Ok_0@) && r->Block_0.len()
            == 16,
{
    match reply {
        Ok(b) => ChipInfo::Block(conv_64u8_as_16u32(&b)),
        Err(f) => ChipInfo::Unavailable(f),
    }
}

/// The name of each block of chip information.
pub open spec fn spec_chip_info_label(index: u16) -> Seq<char> {
    if index == 0 {
        "INDEX"@
    } else if index == 1 {
        "CHIP"@
    } else if index == 2 {
        "OPS"@
    } else {
        "ROM-VERSION"@
    }
}

/// The name of the block of chip information with the given index.
pub fn chip_info_label(index: u16) -> (s: &'static str)
    requires
        index <= 3,
    ensures
        s@ == spec_chip_info_label(index),
{
    match index {
        0 => "INDEX",
        1 => "CHIP",
        2 => "OPS",
        _ => "ROM-VERSION",
    }
}

/// The requests for all four blocks of chip information, in the order in
/// which they are to be sent: index 0, 1, 2, 3.
pub fn chip_info() -> (r: Vec<Transfer>)
    ensures
        r.len() == 4,
        forall|i: int|
            0 <= i < 4 ==> (#[trigger] r[i])@ == in_transfer(
                REQ_CHIPINFO,
                0,
                i as u16,
                CHIP_INFO_LEN as nat,
            ),
{
    let mut r: Vec<Transfer> = Vec::new();
    let mut i: u16 = 0;
    while i < 4
        invariant
            i <= 4,
            r.len() == i,
            forall|j: int|
                0 <= j < i ==> (#[trigger] r[j])@ == in_transfer(
                    REQ_CHIPINFO,
                    0,
                    j as u16,
                    CHIP_INFO_LEN as nat,
                ),
        decreases 4 - i,
    {
        r.push(encode_chip_info(i));
        i = i + 1;
    }
    r
}

/// Bytes asked for when probing a request code.
pub const PROBE_LEN: usize = 16;

/// Pause between two probes, in milliseconds.
pub const PROBE_PAUSE_MS: u64 = 500;

/// The requests that try every request code from `0x00` to `0xff` in turn,
/// each asking the device for 16 bytes. The caller pauses after each.
pub fn brute_force_cmds() -> (r: Vec<Transfer>)
    ensures
        r.len() == 256,
        forall|i: int|
            0 <= i < 256 ==> (#[trigger] r[i])@ == in_transfer(i as u8, 0, 0, PROBE_LEN as nat),
{
    let mut r: Vec<Transfer> = Vec::new();
    let mut code: u16 = 0;
    while code < 256
        invariant
            code <= 256,
            r.len() == code,
            forall|j: int|
                0 <= j < code ==> (#[trigger] r[j])@ == in_transfer(
                    j as u8,
                    0,
                    0,
                    PROBE_LEN as nat,
                ),
        decreases 256 - code,
    {
        r.push(Transfer::asking(code as u8, 0, 0, PROBE_LEN));
        code = code + 1;
    }
    r
}

} // verus!
