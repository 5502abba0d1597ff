//! The request codec: one control transfer for each protocol operation.
//!
//! Every function here is a pure encoder. It decides the direction, the
//! request code, the two 16-bit fields and the payload of a transfer, and
//! rejects what the protocol cannot carry before anything is sent.

use vstd::prelude::*;
use vstd::string::StringSliceAdditionalSpecFns;
use crate::error::ProtocolError;
use crate::wire::{addr_hi, addr_lo, split_address, to_wire, wire_image, Endianness};

verus! {

/// Request type byte of a transfer from the device to the host.
pub const REQ_TYPE_AMLIN: u8 = 0xc0;

/// Request type byte of a transfer from the host to the device.
pub const REQ_TYPE_AMLOUT: u8 = 0x40;

/// Write memory.
pub const REQ_WRITE_MEM: u8 = 0x01;

/// Read memory.
pub const REQ_READ_MEM: u8 = 0x02;

/// Run the code at an address.
pub const REQ_RUN_IN_ADDR: u8 = 0x05;

/// Read the chip generation. Requests that the ROM does not know are answered
/// in the same way.
pub const REQ_CHIP_GEN: u8 = 0x12;

/// Identify the host, which answers with the ROM's versions and password state.
pub const REQ_IDENTIFY_HOST: u8 = 0x20;

/// Text command for the second-stage loader.
pub const REQ_TPL_CMD: u8 = 0x30;

/// Text command of the bulk kind.
pub const REQ_BULK: u8 = 0x34;

/// Hand in the password.
pub const REQ_PASSWORD: u8 = 0x35;

/// Do nothing.
pub const REQ_NOP: u8 = 0x36;

/// Read one block of chip information.
pub const REQ_CHIPINFO: u8 = 0x40;

/// Most bytes that one memory transfer carries.
pub const MAX_TRANSFER: usize = 64;

/// Size of the buffer that carries a bulk command.
pub const BULK_CMD_BUFFER: usize = 512;

/// Size of the buffer that carries a command for the second-stage loader.
pub const TPL_CMD_BUFFER: usize = 512;

/// Sub-code of a command for the second-stage loader.
pub const TPL_CMD_SUBCODE: u16 = 1;

/// Sub-code of a bulk command.
pub const BULK_CMD_SUBCODE: u16 = 2;

/// Bytes asked for when identifying the host.
pub const IDENTIFY_LEN: usize = 6;

/// Bytes asked for when reading the chip generation.
pub const CHIP_GEN_LEN: usize = 16;

/// Bytes of one block of chip information.
pub const CHIP_INFO_LEN: usize = 64;

/// Bytes of the password.
pub const PASSWORD_LEN: usize = 64;

/// Which way the payload of a transfer travels.
#[derive(Clone, Copy, Debug, PartialEq, Eq, Structural)]
pub enum Direction {
    /// From the device to the host.
    In,
    /// From the host to the device.
    Out,
}

impl Direction {
    /// The request type byte that stands for a direction.
    pub open spec fn spec_request_type(self) -> u8 {
        match self {
            Direction::In => REQ_TYPE_AMLIN,
            Direction::Out => REQ_TYPE_AMLOUT,
        }
    }

    /// The request type byte to hand to the USB stack.
    pub fn request_type(&self) -> (b: u8)
        ensures
            b == self.spec_request_type(),
    {
        match self {
            Direction::In => REQ_TYPE_AMLIN,
            Direction::Out => REQ_TYPE_AMLOUT,
        }
    }
}

/// One control transfer, ready to be handed to the USB stack.
#[derive(Clone, Debug, PartialEq, Eq)]
pub struct Transfer {
    /// Which way the payload travels.
    pub direction: Direction,
    /// The request code.
    pub request_code: u8,
    /// First 16-bit field: the upper half of an address, else zero.
    pub field_hi: u16,
    /// Second 16-bit field: the lower half of an address, or a sub-index.
    pub field_lo: u16,
    /// The bytes to send; empty for a transfer from the device.
    pub payload: Vec<u8>,
    /// The number of bytes that travel: those of the payload, or those asked
    /// of the device.
    pub length: usize,
}

/// A transfer as a mathematical value.
pub struct TransferView {
    pub direction: Direction,
    pub request_code: u8,
    pub field_hi: u16,
    pub field_lo: u16,
    pub payload: Seq<u8>,
    pub length: nat,
}

impl View for Transfer {
    type V = TransferView;

    open spec fn view(&self) -> TransferView {
        TransferView {
            direction: self.direction,
            request_code: self.request_code,
            field_hi: self.field_hi,
            field_lo: self.field_lo,
            payload: self.payload@,
            length: self.length as nat,
        }
    }
}

impl TransferView {
    /// A transfer carries either a payload to the device and as many bytes as
    /// the payload has, or no payload and the number of bytes asked for. Only
    /// a text command carries more than 64 bytes.
    pub open spec fn well_formed(self) -> bool {
        &&& self.direction == Direction::Out ==> self.length == self.payload.len()
        &&& self.direction == Direction::In ==> self.payload.len() == 0
        &&& self.length <= MAX_TRANSFER || (self.direction == Direction::Out && (
            self.request_code == REQ_BULK && self.length == BULK_CMD_BUFFER
            || self.request_code == REQ_TPL_CMD && self.length == TPL_CMD_BUFFER))
    }

    /// The address that the two fields name.
    pub open spec fn address(self) -> u32 {
        crate::wire::addr_join(self.field_hi, self.field_lo)
    }
}

/// The transfer that sends `payload` to the device.
pub open spec fn out_transfer(code: u8, hi: u16, lo: u16, payload: Seq<u8>) -> TransferView {
    TransferView {
        direction: Direction::Out,
        request_code: code,
        field_hi: hi,
        field_lo: lo,
        payload: payload,
        length: payload.len(),
    }
}

/// The transfer that asks the device for `length` bytes.
pub open spec fn in_transfer(code: u8, hi: u16, lo: u16, length: nat) -> TransferView {
    TransferView {
        direction: Direction::In,
        request_code: code,
        field_hi: hi,
        field_lo: lo,
        payload: Seq::empty(),
        length: length,
    }
}

/// The transfer that reads `size` bytes of memory at `addr`.
pub open spec fn read_request(addr: u32, size: nat) -> TransferView {
    in_transfer(REQ_READ_MEM, addr_hi(addr), addr_lo(addr), size)
}

/// The transfer that writes `bytes` to memory at `addr`, whole words in the
/// byte order `order`.
pub open spec fn write_request(addr: u32, bytes: Seq<u8>, order: Endianness) -> TransferView {
    out_transfer(REQ_WRITE_MEM, addr_hi(addr), addr_lo(addr), wire_image(bytes, order))
}

/// The transfer that runs the code at `addr`.
pub open spec fn exec_request(addr: u32) -> TransferView {
    out_transfer(REQ_RUN_IN_ADDR, addr_hi(addr), addr_lo(addr), Seq::empty())
}

/// A buffer of `capacity` bytes that starts with `text` and is zero after it.
pub open spec fn command_image(text: Seq<u8>, capacity: nat) -> Seq<u8> {
    Seq::new(capacity, |i: int| crate::wire::padded(text, i))
}

/// A text is a C string when no byte of it is zero.
pub open spec fn is_c_text(text: Seq<u8>) -> bool {
    forall|i: int| 0 <= i < text.len() ==> text[i] != 0
}

impl Transfer {
    /// See [`TransferView::well_formed`].
    pub open spec fn well_formed(&self) -> bool {
        self@.well_formed()
    }

    pub(crate) fn sending(code: u8, hi: u16, lo: u16, payload: Vec<u8>) -> (t: Transfer)
        ensures
            t@ == out_transfer(code, hi, lo, payload@),
    {
        let length = payload.len();
        Transfer {
            direction: Direction::Out,
            request_code: code,
            field_hi: hi,
            field_lo: lo,
            payload,
            length,
        }
    }

    pub(crate) fn asking(code: u8, hi: u16, lo: u16, length: usize) -> (t: Transfer)
        ensures
            t@ == in_transfer(code, hi, lo, length as nat),
    {
        Transfer {
            direction: Direction::In,
            request_code: code,
            field_hi: hi,
            field_lo: lo,
            payload: Vec::new(),
            length,
        }
    }

    /// The address that the two fields name.
    pub fn address(&self) -> (a: u32)
        ensures
            a == self@.address(),
    {
        crate::wire::join_address(self.field_hi, self.field_lo)
    }
}

/// The request that does nothing, to test the connection.
pub fn encode_nop() -> (t: Transfer)
    ensures
        t@ == out_transfer(REQ_NOP, 0, 0, Seq::empty()),
        t.well_formed(),
{
    Transfer::sending(REQ_NOP, 0, 0, Vec::new())
}

/// The request for the ROM's versions and password state.
pub fn encode_identify() -> (t: Transfer)
    ensures
        t@ == in_transfer(REQ_IDENTIFY_HOST, 0, 0, IDENTIFY_LEN as nat),
        t.well_formed(),
{
    Transfer::asking(REQ_IDENTIFY_HOST, 0, 0, IDENTIFY_LEN)
}

/// The request for the chip generation.
pub fn encode_chip_gen() -> (t: Transfer)
    ensures
        t@ == in_transfer(REQ_CHIP_GEN, 0, 0, CHIP_GEN_LEN as nat),
        t.well_formed(),
{
    Transfer::asking(REQ_CHIP_GEN, 0, 0, CHIP_GEN_LEN)
}

/// The request for the block of chip information with the given index.
pub fn encode_chip_info(index: u16) -> (t: Transfer)
    requires
        index <= 3,
    ensures
        t@ == in_transfer(REQ_CHIPINFO, 0, index, CHIP_INFO_LEN as nat),
        t.well_formed(),
{
    Transfer::asking(REQ_CHIPINFO, 0, index, CHIP_INFO_LEN)
}

/// The request that reads `size` bytes of memory at `addr`. More than 64
/// bytes cannot be read at once.
pub fn encode_read(addr: u32, size: u8) -> (r: Result<Transfer, ProtocolError>)
    ensures
        size > MAX_TRANSFER ==> r == Err::<Transfer, ProtocolError>(ProtocolError::SizeExceeded),
        size <= MAX_TRANSFER ==> r is Ok && r->Ok_0@ == read_request(addr, size as nat)
            && r->Ok_0.well_formed() && r->Ok_0@.address() == addr,
{
    if size as usize > MAX_TRANSFER {
        return Err(ProtocolError::SizeExceeded);
    }
    let (hi, lo) = split_address(addr);
    Ok(Transfer::asking(REQ_READ_MEM, hi, lo, size as usize))
}

/// The request that writes `bytes` to memory at `addr`. The bytes are the
/// little-endian image of 32-bit words; the payload holds whole words, each in
/// the byte order `order`, the last one filled up with zero bytes. More than
/// 64 bytes cannot be written at once.
pub fn encode_write(addr: u32, bytes: &[u8], order: Endianness) -> (r: Result<
    Transfer,
    ProtocolError,
>)
    ensures
        bytes@.len() > MAX_TRANSFER ==> r == Err::<Transfer, ProtocolError>(
            ProtocolError::SizeExceeded,
        ),
        bytes@.len() <= MAX_TRANSFER ==> r is Ok && r->Ok_0@ == write_request(
            addr,
            bytes@,
            order,
        ) && r->Ok_0.well_formed() && r->Ok_0@.address() == addr,
{
    if bytes.len() > MAX_TRANSFER {
        return Err(ProtocolError::SizeExceeded);
    }
    let (hi, lo) = split_address(addr);
    let payload = to_wire(bytes, order);
    Ok(Transfer::sending(REQ_WRITE_MEM, hi, lo, payload))
}

/// The request that runs the code at `addr`. It carries no payload.
pub fn encode_exec(addr: u32) -> (t: Transfer)
    ensures
        t@ == exec_request(addr),
        t.well_formed(),
        t@.address() == addr,
{
    let (hi, lo) = split_address(addr);
    Transfer::sending(REQ_RUN_IN_ADDR, hi, lo, Vec::new())
}

/// The request that hands in a password of 64 bytes.
pub fn encode_password(password: &[u8; 64]) -> (t: Transfer)
    ensures
        t@ == out_transfer(REQ_PASSWORD, 0, 0, password@),
        t.well_formed(),
{
    let mut payload: Vec<u8> = Vec::new();
    let mut i: usize = 0;
    while i < 64
        invariant
            i <= 64,
            payload.len() == i,
            forall|j: int| 0 <= j < i ==> payload[j] == password[j],
        decreases 64 - i,
    {
        payload.push(password[i]);
        i = i + 1;
    }
    assert(payload@ =~= password@);
    Transfer::sending(REQ_PASSWORD, 0, 0, payload)
}

/// Whether a command is a C string, that is, holds no zero byte. Only such a
/// command can be sent: a zero byte in it would end it early on the device.
pub fn is_c_string(cmd: &str) -> (b: bool)
    ensures
        b == is_c_text(cmd.spec_bytes()),
{
    let text = cmd.as_bytes();
    let mut i: usize = 0;
    while i < text.len()
        invariant
            text@ == cmd.spec_bytes(),
            i <= text@.len(),
            forall|j: int| 0 <= j < i ==> text@[j] != 0,
        decreases text@.len() - i,
    {
        if text[i] == 0 {
            assert(cmd.spec_bytes()[i as int] == 0);
            return false;
        }
        i = i + 1;
    }
    true
}

/// Copies a text into a zeroed buffer of `capacity` bytes, if the text and
/// the zero byte that ends it fit.
fn command_buffer(text: &[u8], capacity: usize) -> (r: Option<Vec<u8>>)
    ensures
        text@.len() >= capacity ==> r is None,
        text@.len() < capacity ==> r is Some && r->Some_0@ == command_image(
            text@,
            capacity as nat,
        ),
{
    if text.len() >= capacity {
        return None;
    }
    let mut buf: Vec<u8> = Vec::new();
    let mut i: usize = 0;
    while i < capacity
        invariant
            i <= capacity,
            buf.len() == i,
            forall|j: int| 0 <= j < i ==> buf[j] == crate::wire::padded(text@, j),
        decreases capacity - i,
    {
        let b: u8 = if i < text.len() {
            text[i]
        } else {
            0
        };
        buf.push(b);
        i = i + 1;
    }
    assert(buf@ =~= command_image(text@, capacity as nat));
    Some(buf)
}

/// The request that carries a text command for the second-stage loader. The
/// command travels in a buffer of fixed size, followed by zero bytes; a
/// command that does not fit together with the zero byte that ends it is
/// rejected.
pub fn encode_tpl_cmd(cmd: &str) -> (r: Result<Transfer, ProtocolError>)
    requires
        is_c_text(cmd.spec_bytes()),
    ensures
        cmd.spec_bytes().len() >= TPL_CMD_BUFFER ==> r == Err::<Transfer, ProtocolError>(
            ProtocolError::CommandTooLong,
        ),
        cmd.spec_bytes().len() < TPL_CMD_BUFFER ==> r is Ok && r->Ok_0@ == out_transfer(
            REQ_TPL_CMD,
            0,
            TPL_CMD_SUBCODE,
            command_image(cmd.spec_bytes(), TPL_CMD_BUFFER as nat),
        ) && r->Ok_0.well_formed(),
{
    match command_buffer(cmd.as_bytes(), TPL_CMD_BUFFER) {
        Some(buf) => Ok(Transfer::sending(REQ_TPL_CMD, 0, TPL_CMD_SUBCODE, buf)),
        None => Err(ProtocolError::CommandTooLong),
    }
}

/// The request that carries a bulk command. The command travels in a buffer
/// of 512 bytes, followed by zero bytes; a command that does not fit together
/// with the zero byte that ends it is rejected.
pub fn encode_bulk_cmd(cmd: &str) -> (r: Result<Transfer, ProtocolError>)
    requires
        is_c_text(cmd.spec_bytes()),
    ensures
        cmd.spec_bytes().len() >= BULK_CMD_BUFFER ==> r == Err::<Transfer, ProtocolError>(
            ProtocolError::CommandTooLong,
        ),
        cmd.spec_bytes().len() < BULK_CMD_BUFFER ==> r is Ok && r->Ok_0@ == out_transfer(
            REQ_BULK,
            0,
            BULK_CMD_SUBCODE,
            command_image(cmd.spec_bytes(), BULK_CMD_BUFFER as nat),
        ) && r->Ok_0.well_formed(),
{
    match command_buffer(cmd.as_bytes(), BULK_CMD_BUFFER) {
        Some(buf) => Ok(Transfer::sending(REQ_BULK, 0, BULK_CMD_SUBCODE, buf)),
        None => Err(ProtocolError::CommandTooLong),
    }
}

} // verus!
