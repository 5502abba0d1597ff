//! Loading code into SRAM and running it.
//!
//! The pipeline goes from idle to loaded to executing. Loading writes the
//! image block by block; executing is one transfer that names the entry
//! address. The device does not acknowledge that it runs the code: that the
//! transfer did not fail is all that is known, and it is a weak sign. Once
//! the code runs, the ROM no longer answers.
//!
//! The request codec does not know these states. Running an address into
//! which nothing was loaded is accepted, and it is for the caller to load
//! first where that is needed.

use vstd::prelude::*;
use crate::codec::{encode_exec, exec_request, Transfer};
use crate::error::{ProtocolError, UsbFailure};
use crate::transport::{
    block_count, write_plan, write_range, write_starts, RangeWrite, WriteStep,
};
use crate::wire::Endianness;

verus! {

/// How far the pipeline has come.
#[derive(Clone, Copy, Debug, PartialEq, Eq, Structural)]
pub enum BootstrapState {
    /// Nothing was loaded.
    Idle,
    /// The image is in SRAM.
    Loaded,
    /// The device was told to run the code. This is the end: no further
    /// request means anything to the device.
    Executing,
}

/// A pipeline that waits for the outcome of one of its transfers.
pub struct Bootstrap {
    state: BootstrapState,
    writer: Option<RangeWrite>,
    entry: Option<u32>,
}

/// What the pipeline asks of its caller.
pub enum BootStep {
    /// Send this transfer and hand its outcome to the pipeline.
    Issue(Bootstrap, Transfer),
    /// The pipeline is through, and this is the state it ended in.
    Done(BootstrapState),
    /// A transfer failed, and this is the state that the pipeline had
    /// reached before.
    Failed(BootstrapState, ProtocolError),
}

/// Whether an image is made of whole blocks of 64 bytes. One that is not is
/// loaded all the same: the finding is for the caller to report.
pub fn alignment(length: usize) -> (r: Result<(), ProtocolError>)
    ensures
        length % 64 == 0 ==> r == Ok::<(), ProtocolError>(()),
        length % 64 != 0 ==> r == Err::<(), ProtocolError>(ProtocolError::AlignmentError),
{
    if length % 64 == 0 {
        Ok(())
    } else {
        Err(ProtocolError::AlignmentError)
    }
}

impl Bootstrap {
    #[verifier::type_invariant]
    spec fn inv(self) -> bool {
        &&& self.state != BootstrapState::Executing
        &&& self.writer is Some ==> self.state == BootstrapState::Idle
        &&& self.writer is None ==> self.entry is Some
    }

    /// The state that the pipeline has reached.
    pub closed spec fn state(self) -> BootstrapState {
        self.state
    }

    /// The range write that loads the image, while the image is being
    /// loaded; none while the transfer that runs the code is in flight.
    pub closed spec fn writer(self) -> Option<RangeWrite> {
        self.writer
    }

    /// The address to run, if the pipeline is to run code.
    pub closed spec fn entry(self) -> Option<u32> {
        self.entry
    }

    fn loading(step: WriteStep, entry: Option<u32>) -> (r: BootStep)
        ensures
            step is Failed ==> r == BootStep::Failed(BootstrapState::Idle, step->Failed_0),
            step is Issue ==> r is Issue && r->Issue_0.state() == BootstrapState::Idle
                && r->Issue_0.writer() == Some(step->Issue_0) && r->Issue_0.entry() == entry
                && r->Issue_1 == step->Issue_1,
            step is Done && entry is None ==> r == BootStep::Done(BootstrapState::Loaded),
            step is Done && entry is Some ==> r is Issue && r->Issue_0.state()
                == BootstrapState::Loaded && r->Issue_0.writer() is None && r->Issue_0.entry()
                == entry && r->Issue_1@ == exec_request(entry->Some_0),
    {
        match step {
            WriteStep::Failed(e) => BootStep::Failed(BootstrapState::Idle, e),
            WriteStep::Issue(w, t) => BootStep::Issue(
                Bootstrap { state: BootstrapState::Idle, writer: Some(w), entry },
                t,
            ),
            WriteStep::Done(_) => match entry {
                None => BootStep::Done(BootstrapState::Loaded),
                Some(e) => BootStep::Issue(
                    Bootstrap { state: BootstrapState::Loaded, writer: None, entry },
                    encode_exec(e),
                ),
            },
        }
    }

    /// Takes the outcome of the transfer in flight.
    ///
    /// While the image is being loaded, a failure ends the pipeline in the
    /// idle state, and a success brings the next block. After the last block
    /// the image is loaded: the pipeline is through, or, if it is to run the
    /// code, the transfer that names the entry address is due. When that
    /// transfer did not fail the pipeline ends in the executing state; when
    /// it failed, in the state that it had before.
    pub fn step(self, reply: Result<usize, UsbFailure>) -> (r: BootStep)
        ensures
            self.state() != BootstrapState::Executing,
            self.writer() is Some ==> self.state() == BootstrapState::Idle,
            self.writer() is None ==> self.entry() is Some,
            reply is Err ==> r == BootStep::Failed(
                self.state(),
                ProtocolError::TransferError(reply->Err_0),
            ),
            reply is Ok && self.writer() is None ==> r == BootStep::Done(
                BootstrapState::Executing,
            ),
            reply is Ok && self.writer() is Some ==> {
                let w = self.writer()->Some_0;
                let blocks = block_count(w.bytes().len());
                &&& w.sent() < blocks
                &&& w.sent() + 1 < blocks ==> r is Issue && r->Issue_0.state()
                    == BootstrapState::Idle && r->Issue_0.entry() == self.entry()
                    && r->Issue_0.writer() is Some && r->Issue_0.writer()->Some_0.base()
                    == w.base() && r->Issue_0.writer()->Some_0.bytes() == w.bytes()
                    && r->Issue_0.writer()->Some_0.order() == w.order()
                    && r->Issue_0.writer()->Some_0.sent() == w.sent() + 1 && r->Issue_1@
                    == write_plan(w.base(), w.bytes(), w.order())[w.sent() as int + 1]
                &&& w.sent() + 1 == blocks && self.entry() is None ==> r == BootStep::Done(
                    BootstrapState::Loaded,
                )
                &&& w.sent() + 1 == blocks && self.entry() is Some ==> r is Issue
                    && r->Issue_0.state() == BootstrapState::Loaded && r->Issue_0.writer() is None
                    && r->Issue_0.entry() == self.entry() && r->Issue_1@ == exec_request(
                    self.entry()->Some_0,
                )
            },
    {
        proof {
            use_type_invariant(&self);
        }
        let Bootstrap { state, writer, entry } = self;
        match writer {
            Some(w) => Bootstrap::loading(w.step(reply), entry),
            None => match reply {
                Ok(_) => BootStep::Done(BootstrapState::Executing),
                Err(f) => BootStep::Failed(state, ProtocolError::TransferError(f)),
            },
        }
    }
}

/// How loading `image` at `base` starts, to run `entry` afterwards if there
/// is one. With an image, the pipeline is idle and the first block is due.
/// Without one, the image is loaded at once: the pipeline is through, or the
/// transfer that runs the code is due.
pub open spec fn load_starts(
    r: BootStep,
    base: u32,
    image: Seq<u8>,
    order: Endianness,
    entry: Option<u32>,
) -> bool {
    if image.len() > 0 {
        &&& r is Issue
        &&& r->Issue_0.state() == BootstrapState::Idle
        &&& r->Issue_0.entry() == entry
        &&& r->Issue_0.writer() is Some
        &&& write_starts(
            WriteStep::Issue(r->Issue_0.writer()->Some_0, r->Issue_1),
            base,
            image,
            order,
        )
    } else if entry is Some {
        &&& r is Issue
        &&& r->Issue_0.state() == BootstrapState::Loaded
        &&& r->Issue_0.entry() == entry
        &&& r->Issue_0.writer() is None
        &&& r->Issue_1@ == exec_request(entry->Some_0)
    } else {
        r == BootStep::Done(BootstrapState::Loaded)
    }
}

/// Starts loading `image` into memory at `base`. The image must not reach
/// past the end of the 32-bit address space; its length need not be a
/// multiple of 64.
pub fn load(base: u32, image: Vec<u8>, order: Endianness) -> (r: BootStep)
    requires
        base + image@.len() <= 0x1_0000_0000,
    ensures
        load_starts(r, base, image@, order, None),
{
    Bootstrap::loading(write_range(base, image, order), None)
}

/// Starts loading `image` into memory at `base`, to run it from there once it
/// is loaded. The image must not reach past the end of the 32-bit address
/// space.
pub fn run(base: u32, image: Vec<u8>, order: Endianness) -> (r: BootStep)
    requires
        base + image@.len() <= 0x1_0000_0000,
    ensures
        load_starts(r, base, image@, order, Some(base)),
{
    Bootstrap::loading(write_range(base, image, order), Some(base))
}

/// Starts running the code at `entry`, whatever was loaded before: the
/// pipeline is idle, and the transfer that names the entry address is due.
pub fn exec(entry: u32) -> (r: BootStep)
    ensures
        r is Issue,
        r->Issue_0.state() == BootstrapState::Idle,
        r->Issue_0.writer() is None,
        r->Issue_0.entry() == Some(entry),
        r->Issue_1@ == exec_request(entry),
{
    BootStep::Issue(
        Bootstrap { state: BootstrapState::Idle, writer: None, entry: Some(entry) },
        encode_exec(entry),
    )
}

} // verus!
