//! Accesses to the processor's I/O port space, described as plain values.
//!
//! The driver never touches a port itself. Each routine that has to talk to
//! a controller says which single-byte accesses are to be made, in order, and
//! the platform code around the driver performs them.

use vstd::prelude::*;

verus! {

/// One single-byte access to the I/O port space.
#[derive(Clone, Copy, Debug, PartialEq, Eq, Structural)]
pub enum PortOp {
    /// Read one byte from `port`.
    Read { port: u16 },
    /// Write `value` to `port`.
    Write { port: u16, value: u8 },
}

} // verus!
