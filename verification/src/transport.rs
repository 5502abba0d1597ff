//! Reading and writing a range of memory in blocks of 64 bytes.
//!
//! A range operation is a sequence of transfers, one in flight at a time. The
//! library decides which transfer comes next and what the answers add up to;
//! the caller sends each transfer and hands back what came of it. The first
//! transfer that fails ends the operation, and what was gathered until then
//! is dropped.

use vstd::prelude::*;
use vstd::slice::slice_subrange;
use crate::codec::{
    read_request, write_request, Transfer, TransferView, MAX_TRANSFER, REQ_READ_MEM,
    REQ_WRITE_MEM,
};
use crate::error::{ProtocolError, UsbFailure};
use crate::memory::S905D3_AHB_SRAM_BASE;
use crate::wire::{from_wire, host_image, split_address, to_wire, Endianness};

verus! {

/// Number of blocks of 64 bytes that cover `length` bytes.
pub open spec fn block_count(length: nat) -> nat {
    ((length + 63) / 64) as nat
}

/// Address of block `k` of a range that starts at `addr`.
pub open spec fn block_addr(addr: u32, k: int) -> u32 {
    (addr + 64 * k) as u32
}

/// The transfers that read `length` bytes at `addr`: one for each block of 64
/// bytes, in rising order of address. Every block is read whole, the last one
/// too.
pub open spec fn read_plan(addr: u32, length: u32) -> Seq<TransferView> {
    Seq::new(block_count(length as nat), |k: int| read_request(block_addr(addr, k), 64))
}

/// Block `k` of the bytes to write: 64 bytes, or what is left of them.
pub open spec fn chunk(bytes: Seq<u8>, k: int) -> Seq<u8> {
    bytes.subrange(
        64 * k,
        if 64 * k + 64 <= bytes.len() {
            64 * k + 64
        } else {
            bytes.len() as int
        },
    )
}

/// The transfers that write `bytes` at `addr`: one for each block of 64
/// bytes, in rising order of address, the last one with what is left.
pub open spec fn write_plan(addr: u32, bytes: Seq<u8>, order: Endianness) -> Seq<TransferView> {
    Seq::new(
        block_count(bytes.len()),
        |k: int| write_request(block_addr(addr, k), chunk(bytes, k), order),
    )
}

/// The transfers of a read plan are reads of 64 bytes each, at addresses that
/// start at `addr`, rise by 64 from one to the next and stay below the end of
/// the range: they come in strictly rising order and leave no gap and no
/// overlap.
pub proof fn lemma_read_plan_sequential(addr: u32, length: u32)
    requires
        addr + length <= 0x1_0000_0000,
    ensures
        read_plan(addr, length).len() == block_count(length as nat),
        forall|k: int|
            0 <= k < read_plan(addr, length).len() ==> {
                let t = #[trigger] read_plan(addr, length)[k];
                &&& t.well_formed()
                &&& t.direction == crate::codec::Direction::In
                &&& t.request_code == REQ_READ_MEM
                &&& t.length == 64
                &&& t.address() == addr + 64 * k
                &&& t.address() < addr + length
            },
        forall|k: int|
            0 <= k && k + 1 < read_plan(addr, length).len() ==> (#[trigger] read_plan(
                addr,
                length,
            )[k + 1]).address() == read_plan(addr, length)[k].address() + read_plan(
                addr,
                length,
            )[k].length,
        forall|j: int, k: int|
            0 <= j < k < read_plan(addr, length).len() ==> (#[trigger] read_plan(
                addr,
                length,
            )[j]).address() < (#[trigger] read_plan(addr, length)[k]).address(),
{
    let plan = read_plan(addr, length);
    assert forall|k: int| 0 <= k < plan.len() implies {
        let t = #[trigger] plan[k];
        &&& t.well_formed()
        &&& t.direction == crate::codec::Direction::In
        &&& t.request_code == REQ_READ_MEM
        &&& t.length == 64
        &&& t.address() == addr + 64 * k
        &&& t.address() < addr + length
    } by {
        crate::wire::lemma_address_split_lossless(block_addr(addr, k));
    }
    assert forall|k: int| 0 <= k && k + 1 < plan.len() implies (#[trigger] plan[k + 1]).address()
        == plan[k].address() + plan[k].length by {
        assert(plan[k].address() == addr + 64 * k);
    }
    assert forall|j: int, k: int| 0 <= j < k < plan.len() implies (#[trigger] plan[j]).address() < (
    #[trigger] plan[k]).address() by {
        assert(plan[j].address() == addr + 64 * j);
        assert(plan[k].address() == addr + 64 * k);
    }
}

/// Reading 64 KiB takes exactly 1024 transfers of 64 bytes, at `base`,
/// `base + 64`, and so on up to `base + 65472`.
pub proof fn lemma_dump_plan(base: u32)
    requires
        base + 65536 <= 0x1_0000_0000,
    ensures
        read_plan(base, 65536).len() == 1024,
        forall|k: int|
            0 <= k < 1024 ==> (#[trigger] read_plan(base, 65536)[k]) == read_request(
                (base + 64 * k) as u32,
                64,
            ) && read_plan(base, 65536)[k].address() == base + 64 * k,
        read_plan(base, 65536)[1023].address() == base + 65472,
{
    lemma_read_plan_sequential(base, 65536);
}

/// A range read that waits for the answer to one of its transfers.
pub struct RangeRead {
    base: u32,
    length: u32,
    order: Endianness,
    received: u32,
    data: Vec<u8>,
}

/// What a range read asks of its caller.
pub enum ReadStep {
    /// Send this transfer and hand its outcome to the range read.
    Issue(RangeRead, Transfer),
    /// The range was read; these are its bytes in host order.
    Done(Vec<u8>),
    /// A transfer failed; nothing of the range is handed out.
    Failed(ProtocolError),
}

impl RangeRead {
    #[verifier::type_invariant]
    spec fn inv(self) -> bool {
        &&& self.base + self.length <= 0x1_0000_0000
        &&& self.received < block_count(self.length as nat)
        &&& self.data@.len() == 64 * self.received
    }

    /// Address of the first byte of the range.
    pub closed spec fn base(self) -> u32 {
        self.base
    }

    /// Bytes in the range.
    pub closed spec fn length(self) -> u32 {
        self.length
    }

    /// Byte order of the words on the wire.
    pub closed spec fn order(self) -> Endianness {
        self.order
    }

    /// Number of blocks received so far, which is also the place in the plan
    /// of the transfer that is in flight.
    pub closed spec fn received(self) -> nat {
        self.received as nat
    }

    /// The bytes gathered so far, in host order.
    pub closed spec fn collected(self) -> Seq<u8> {
        self.data@
    }

    fn request(base: u32, length: u32, k: u32) -> (t: Transfer)
        requires
            base + length <= 0x1_0000_0000,
            k < block_count(length as nat),
        ensures
            t@ == read_plan(base, length)[k as int],
    {
        let (hi, lo) = split_address(base + 64 * k);
        Transfer::asking(REQ_READ_MEM, hi, lo, MAX_TRANSFER)
    }

    /// Takes the outcome of the transfer in flight. A failure ends the read.
    /// An answer is put into host order and added to what was gathered; then
    /// the next transfer of the plan is due, or the range is complete.
    pub fn step(self, reply: Result<[u8; 64], UsbFailure>) -> (r: ReadStep)
        ensures
            self.base() + self.length() <= 0x1_0000_0000,
            self.received() < block_count(self.length() as nat),
            self.collected().len() == 64 * self.received(),
            reply is Err ==> r == ReadStep::Failed(ProtocolError::TransferError(reply->Err_0)),
            reply is Ok && self.received() + 1 == block_count(self.length() as nat) ==> r is Done
                && r->Done_0@ == self.collected() + host_image(reply->Ok_0@, self.order()),
            reply is Ok && self.received() + 1 < block_count(self.length() as nat) ==> r is Issue
                && r->Issue_0.base() == self.base() && r->Issue_0.length() == self.length()
                && r->Issue_0.order() == self.order() && r->Issue_0.received() == self.received()
                + 1 && r->Issue_0.collected() == self.collected() + host_image(
                reply->Ok_0@,
                self.order(),
            ) && r->Issue_1@ == read_plan(self.base(), self.length())[self.received() as int + 1],
    {
        proof {
            use_type_invariant(&self);
        }
        match reply {
            Err(f) => ReadStep::Failed(ProtocolError::TransferError(f)),
            Ok(block) => {
                let RangeRead { base, length, order, received, data } = self;
                let mut data = data;
                let mut host = from_wire(block.as_slice(), order);
                data.append(&mut host);
                let received: u32 = received + 1;
                if received == blocks_of(length) {
                    ReadStep::Done(data)
                } else {
                    let t = RangeRead::request(base, length, received);
                    ReadStep::Issue(RangeRead { base, length, order, received, data }, t)
                }
            },
        }
    }
}

/// Number of blocks of 64 bytes that cover `length` bytes.
fn blocks_of(length: u32) -> (n: u32)
    ensures
        n == block_count(length as nat),
{
    let tail: u32 = if length % 64 == 0 {
        0
    } else {
        1
    };
    length / 64 + tail
}

/// How a read of `length` bytes at `addr` starts: an empty range is complete
/// at once; otherwise the first transfer of the plan is due, and nothing has
/// been received.
pub open spec fn read_starts(r: ReadStep, addr: u32, length: u32, order: Endianness) -> bool {
    if length == 0 {
        r is Done && r->Done_0@ == Seq::<u8>::empty()
    } else {
        &&& r is Issue
        &&& r->Issue_0.base() == addr
        &&& r->Issue_0.length() == length
        &&& r->Issue_0.order() == order
        &&& r->Issue_0.received() == 0
        &&& r->Issue_0.collected() == Seq::<u8>::empty()
        &&& r->Issue_1@ == read_plan(addr, length)[0]
    }
}

/// Starts reading `length` bytes at `addr`, with the words on the wire in the
/// byte order `order`. The range must not reach past the end of the 32-bit
/// address space.
pub fn read_range(addr: u32, length: u32, order: Endianness) -> (r: ReadStep)
    requires
        addr + length <= 0x1_0000_0000,
    ensures
        read_starts(r, addr, length, order),
{
    if length == 0 {
        ReadStep::Done(Vec::new())
    } else {
        let t = RangeRead::request(addr, length, 0);
        ReadStep::Issue(RangeRead { base: addr, length, order, received: 0, data: Vec::new() }, t)
    }
}

/// Starts dumping `size` bytes of memory at `addr`: a read of the range in
/// big-endian byte order, so that the dump holds each group of four bytes in
/// the reverse of the order in which the device sent them.
pub fn dump(addr: u32, size: u32) -> (r: ReadStep)
    requires
        addr + size <= 0x1_0000_0000,
    ensures
        read_starts(r, addr, size, Endianness::Big),
{
    read_range(addr, size, Endianness::Big)
}

/// A range of memory, as a dump or a bootstrap aims at.
#[derive(Clone, Copy, Debug, PartialEq, Eq, Structural)]
pub struct MemoryRegion {
    /// Address of the first byte.
    pub base: u32,
    /// Number of bytes.
    pub length: u32,
}

impl MemoryRegion {
    /// Whether the region ends within the 32-bit address space.
    pub open spec fn in_memory(self) -> bool {
        self.base + self.length <= 0x1_0000_0000
    }

    /// Whether the region ends within the 32-bit address space.
    pub fn fits(&self) -> (b: bool)
        ensures
            b == self.in_memory(),
    {
        self.length == 0 || self.base <= u32::MAX - (self.length - 1)
    }

    /// Starts reading the region, if it ends within the address space.
    pub fn read(&self, order: Endianness) -> (r: Option<ReadStep>)
        ensures
            r is Some == self.in_memory(),
            r is Some ==> read_starts(r->Some_0, self.base, self.length, order),
    {
        if self.fits() {
            Some(read_range(self.base, self.length, order))
        } else {
            None
        }
    }

    /// Starts dumping the region, if it ends within the address space.
    pub fn dump(&self) -> (r: Option<ReadStep>)
        ensures
            r is Some == self.in_memory(),
            r is Some ==> read_starts(r->Some_0, self.base, self.length, Endianness::Big),
    {
        if self.fits() {
            Some(dump(self.base, self.length))
        } else {
            None
        }
    }
}

/// The first 64 KiB of the SRAM of the S905D3, which is what can be read of
/// it.
pub fn s905d3_sram() -> (r: MemoryRegion)
    ensures
        r == (MemoryRegion { base: S905D3_AHB_SRAM_BASE, length: 0x1_0000 }),
        r.in_memory(),
{
    MemoryRegion { base: S905D3_AHB_SRAM_BASE, length: 0x1_0000 }
}

/// The transfers of a write plan are writes of the blocks of the bytes, at
/// addresses that start at `addr` and rise by 64 from one to the next. Each
/// carries at most 64 bytes, all but the last one carry exactly 64, and the
/// blocks put together are the bytes.
pub proof fn lemma_write_plan_sequential(addr: u32, bytes: Seq<u8>, order: Endianness)
    requires
        addr + bytes.len() <= 0x1_0000_0000,
    ensures
        write_plan(addr, bytes, order).len() == block_count(bytes.len()),
        forall|k: int|
            0 <= k < write_plan(addr, bytes, order).len() ==> {
                let t = #[trigger] write_plan(addr, bytes, order)[k];
                &&& t.well_formed()
                &&& t.direction == crate::codec::Direction::Out
                &&& t.request_code == REQ_WRITE_MEM
                &&& t.address() == addr + 64 * k
                &&& 0 < chunk(bytes, k).len() <= 64
                &&& t.length <= 64
                &&& k + 1 < write_plan(addr, bytes, order).len() ==> chunk(bytes, k).len() == 64
                &&& forall|i: int|
                    0 <= i < chunk(bytes, k).len() ==> chunk(bytes, k)[i] == bytes[64 * k + i]
            },
{
    let plan = write_plan(addr, bytes, order);
    assert forall|k: int| 0 <= k < plan.len() implies {
        let t = #[trigger] plan[k];
        &&& t.well_formed()
        &&& t.direction == crate::codec::Direction::Out
        &&& t.request_code == REQ_WRITE_MEM
        &&& t.address() == addr + 64 * k
        &&& 0 < chunk(bytes, k).len() <= 64
        &&& t.length <= 64
        &&& k + 1 < plan.len() ==> chunk(bytes, k).len() == 64
        &&& forall|i: int|
            0 <= i < chunk(bytes, k).len() ==> chunk(bytes, k)[i] == bytes[64 * k + i]
    } by {
        crate::wire::lemma_address_split_lossless(block_addr(addr, k));
        crate::wire::lemma_wire_image_bytes(chunk(bytes, k), order);
    }
}

/// A range write that waits for the outcome of one of its transfers.
pub struct RangeWrite {
    base: u32,
    data: Vec<u8>,
    order: Endianness,
    sent: usize,
}

/// What a range write asks of its caller.
pub enum WriteStep {
    /// Send this transfer and hand its outcome to the range write.
    Issue(RangeWrite, Transfer),
    /// All blocks were sent; this is the number of bytes that were to be
    /// written.
    Done(usize),
    /// A transfer failed; the blocks after it were not sent.
    Failed(ProtocolError),
}

impl RangeWrite {
    #[verifier::type_invariant]
    spec fn inv(self) -> bool {
        &&& self.base + self.data@.len() <= 0x1_0000_0000
        &&& self.sent < block_count(self.data@.len())
    }

    /// Address of the first byte of the range.
    pub closed spec fn base(self) -> u32 {
        self.base
    }

    /// The bytes to write, in host order.
    pub closed spec fn bytes(self) -> Seq<u8> {
        self.data@
    }

    /// Byte order of the words on the wire.
    pub closed spec fn order(self) -> Endianness {
        self.order
    }

    /// Number of blocks sent so far, which is also the place in the plan of
    /// the transfer that is in flight.
    pub closed spec fn sent(self) -> nat {
        self.sent as nat
    }

    fn request(base: u32, data: &Vec<u8>, order: Endianness, k: usize) -> (t: Transfer)
        requires
            base + data@.len() <= 0x1_0000_0000,
            k < block_count(data@.len()),
        ensures
            t@ == write_plan(base, data@, order)[k as int],
    {
        let start: usize = 64 * k;
        let end: usize = if data.len() - start >= 64 {
            start + 64
        } else {
            data.len()
        };
        let block = slice_subrange(data.as_slice(), start, end);
        let (hi, lo) = split_address(base + (start as u32));
        Transfer::sending(REQ_WRITE_MEM, hi, lo, to_wire(block, order))
    }

    /// Takes the outcome of the transfer in flight. A failure ends the
    /// write. After a success the next transfer of the plan is due, or the
    /// range is complete.
    pub fn step(self, reply: Result<usize, UsbFailure>) -> (r: WriteStep)
        ensures
            self.base() + self.bytes().len() <= 0x1_0000_0000,
            self.sent() < block_count(self.bytes().len()),
            reply is Err ==> r == WriteStep::Failed(ProtocolError::TransferError(reply->Err_0)),
            reply is Ok && self.sent() + 1 == block_count(self.bytes().len()) ==> r
                == WriteStep::Done(self.bytes().len() as usize),
            reply is Ok && self.sent() + 1 < block_count(self.bytes().len()) ==> r is Issue
                && r->Issue_0.base() == self.base() && r->Issue_0.bytes() == self.bytes()
                && r->Issue_0.order() == self.order() && r->Issue_0.sent() == self.sent() + 1
                && r->Issue_1@ == write_plan(self.base(), self.bytes(), self.order())[self.sent() as int
                + 1],
    {
        proof {
            use_type_invariant(&self);
        }
        match reply {
            Err(f) => WriteStep::Failed(ProtocolError::TransferError(f)),
            Ok(_) => {
                let RangeWrite { base, data, order, sent } = self;
                let sent: usize = sent + 1;
                if sent == chunks_of(data.len()) {
                    WriteStep::Done(data.len())
                } else {
                    let t = RangeWrite::request(base, &data, order, sent);
                    WriteStep::Issue(RangeWrite { base, data, order, sent }, t)
                }
            },
        }
    }
}

/// Number of blocks of 64 bytes that cover `length` bytes.
fn chunks_of(length: usize) -> (n: usize)
    ensures
        n == block_count(length as nat),
{
    let tail: usize = if length % 64 == 0 {
        0
    } else {
        1
    };
    length / 64 + tail
}

/// How a write of `bytes` at `addr` starts: nothing to write is complete at
/// once; otherwise the first transfer of the plan is due.
pub open spec fn write_starts(r: WriteStep, addr: u32, bytes: Seq<u8>, order: Endianness) -> bool {
    if bytes.len() == 0 {
        r == WriteStep::Done(0)
    } else {
        &&& r is Issue
        &&& r->Issue_0.base() == addr
        &&& r->Issue_0.bytes() == bytes
        &&& r->Issue_0.order() == order
        &&& r->Issue_0.sent() == 0
        &&& r->Issue_1@ == write_plan(addr, bytes, order)[0]
    }
}

/// Whether `length` bytes written at `base` end within the 32-bit address
/// space.
pub fn image_fits(base: u32, length: usize) -> (b: bool)
    ensures
        b == (base + length <= 0x1_0000_0000),
{
    length == 0 || (length - 1 <= u32::MAX as usize && base <= u32::MAX - ((length - 1) as u32))
}

/// Starts writing `bytes` at `addr`, with the words on the wire in the byte
/// order `order`. The length need not be a multiple of 64. The range must not
/// reach past the end of the 32-bit address space.
pub fn write_range(addr: u32, bytes: Vec<u8>, order: Endianness) -> (r: WriteStep)
    requires
        addr + bytes@.len() <= 0x1_0000_0000,
    ensures
        write_starts(r, addr, bytes@, order),
{
    if bytes.len() == 0 {
        WriteStep::Done(0)
    } else {
        let t = RangeWrite::request(addr, &bytes, order, 0);
        WriteStep::Issue(RangeWrite { base: addr, data: bytes, order, sent: 0 }, t)
    }
}

} // verus!
