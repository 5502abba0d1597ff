//! Reading and writing memory and registers, one transfer at a time.

use vstd::prelude::*;
use crate::codec::{
    in_transfer, out_transfer, read_request, write_request, Transfer, TransferView, REQ_READ_MEM,
    REQ_WRITE_MEM,
};
use crate::error::{ProtocolError, UsbFailure};
use crate::wire::{
    addr_hi, addr_lo, from_wire, host_image, register_from_wire, register_image,
    register_to_wire, register_value, split_address, Endianness,
};

verus! {

/// Where the S905X keeps its chip ID.
pub const S905X_CHIP_ID_ADDR: u32 = 0xd900_d400;

/// Where the S905X keeps the power states of its CPUs.
pub const S905X_CPU_POWER_STATE: u32 = 0xc810_00e0;

/// Start of the SRAM of the S905D3, of which the first 64 KiB can be read.
pub const S905D3_AHB_SRAM_BASE: u32 = 0xfffa_0000;

/// Bytes of the chip ID.
pub const CHIP_ID_LEN: u8 = 12;

/// Bytes of the power states.
pub const POWER_STATES_LEN: u8 = 8;

/// Tells what came of a transfer to the device: the number of bytes sent,
/// or the failure as a protocol error.
pub fn sent(reply: Result<usize, UsbFailure>) -> (r: Result<usize, ProtocolError>)
    ensures
        r == match reply {
            Ok(n) => Ok::<usize, ProtocolError>(n),
            Err(f) => Err::<usize, ProtocolError>(ProtocolError::TransferError(f)),
        },
{
    match reply {
        Ok(n) => Ok(n),
        Err(f) => Err(ProtocolError::TransferError(f)),
    }
}

/// The request that reads the register at `addr`.
pub fn encode_read_reg(addr: u32) -> (t: Transfer)
    ensures
        t@ == in_transfer(REQ_READ_MEM, addr_hi(addr), addr_lo(addr), 4),
        t.well_formed(),
        t@.address() == addr,
{
    let (hi, lo) = split_address(addr);
    Transfer::asking(REQ_READ_MEM, hi, lo, 4)
}

/// Reads the answer to a register read: the value that the four bytes stand
/// for in the byte order `order`. A failed transfer is reported as such.
pub fn read_reg(reply: Result<[u8; 4], UsbFailure>, order: Endianness) -> (r: Result<
    u32,
    ProtocolError,
>)
    ensures
        r == match reply {
            Ok(b) => Ok::<u32, ProtocolError>(register_value(b@, order)),
            Err(f) => Err::<u32, ProtocolError>(ProtocolError::TransferError(f)),
        },
{
    match reply {
        Ok(b) => Ok(register_from_wire(&b, order)),
        Err(f) => Err(ProtocolError::TransferError(f)),
    }
}

/// The request that writes `val` to the register at `addr`, with the bytes of
/// the value in the order `order`.
pub fn write_reg(addr: u32, val: u32, order: Endianness) -> (t: Transfer)
    ensures
        t@ == out_transfer(
            REQ_WRITE_MEM,
            addr_hi(addr),
            addr_lo(addr),
            register_image(val, order),
        ),
        t.well_formed(),
        t@.address() == addr,
{
    let (hi, lo) = split_address(addr);
    Transfer::sending(REQ_WRITE_MEM, hi, lo, register_to_wire(val, order))
}

/// Reads the answer to a memory read: the bytes that were received, put
/// into host order from the byte order `order`. A failed transfer is
/// reported as such.
pub fn read_mem(reply: Result<Vec<u8>, UsbFailure>, order: Endianness) -> (r: Result<
    Vec<u8>,
    ProtocolError,
>)
    ensures
        reply is Err ==> r == Err::<Vec<u8>, ProtocolError>(
            ProtocolError::TransferError(reply->Err_0),
        ),
        reply is Ok ==> r is Ok && r->Ok_0@ == host_image(reply->Ok_0@, order),
{
    match reply {
        Ok(buf) => Ok(from_wire(buf.as_slice(), order)),
        Err(f) => Err(ProtocolError::TransferError(f)),
    }
}

/// What a device that keeps what it is sent answers when it is asked for
/// what was written: the payload, as far as it is asked for.
pub open spec fn echo(written: TransferView, asked: TransferView) -> Seq<u8> {
    written.payload.take(asked.length as int)
}

/// Writing at most 64 bytes at an address and reading as many bytes back
/// from there gives the bytes that were written, if the device keeps what it
/// is sent. This holds in little-endian order for every length, and in
/// big-endian order for whole words.
pub proof fn lemma_write_read_loopback(addr: u32, bytes: Seq<u8>, order: Endianness)
    requires
        bytes.len() <= 64,
        order == Endianness::Little || bytes.len() % 4 == 0,
    ensures
        write_request(addr, bytes, order).well_formed(),
        read_request(addr, bytes.len()).well_formed(),
        write_request(addr, bytes, order).address() == addr,
        read_request(addr, bytes.len()).address() == addr,
        read_request(addr, bytes.len()).length <= write_request(addr, bytes, order).length,
        host_image(
            echo(write_request(addr, bytes, order), read_request(addr, bytes.len())),
            order,
        ) == bytes,
{
    crate::wire::lemma_address_split_lossless(addr);
    crate::wire::lemma_wire_image_bytes(bytes, order);
    crate::wire::lemma_wire_round_trip(bytes, order);
}

/// The request that reads the chip ID of an S905X.
pub fn chip_id() -> (t: Transfer)
    ensures
        t@ == in_transfer(
            REQ_READ_MEM,
            addr_hi(S905X_CHIP_ID_ADDR),
            addr_lo(S905X_CHIP_ID_ADDR),
            CHIP_ID_LEN as nat,
        ),
        t.well_formed(),
{
    let (hi, lo) = split_address(S905X_CHIP_ID_ADDR);
    Transfer::asking(REQ_READ_MEM, hi, lo, CHIP_ID_LEN as usize)
}

/// The request that reads the power states of the CPUs of an S905X.
pub fn power_states() -> (t: Transfer)
    ensures
        t@ == in_transfer(
            REQ_READ_MEM,
            addr_hi(S905X_CPU_POWER_STATE),
            addr_lo(S905X_CPU_POWER_STATE),
            POWER_STATES_LEN as nat,
        ),
        t.well_formed(),
{
    let (hi, lo) = split_address(S905X_CPU_POWER_STATE);
    Transfer::asking(REQ_READ_MEM, hi, lo, POWER_STATES_LEN as usize)
}

} // verus!
