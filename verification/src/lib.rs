//! Client side of the Amlogic mask-ROM USB control protocol, without the I/O.
//!
//! The library builds the control transfers that identify a chip, read and
//! write its memory and start code in its SRAM, and it decodes what the
//! device answers. Sending a transfer and receiving its reply is left to the
//! caller: every function here maps plain values to plain values.

pub mod blinky;
pub mod bootstrap;
pub mod codec;
pub mod error;
pub mod memory;
pub mod query;
pub mod session;
pub mod transport;
pub mod wire;
