//! The abstract register bus the driver talks through.

use vstd::prelude::*;

verus! {

/// The two exchange primitives the tracker needs from its transport:
/// "read N bytes from register R" (here N is one or two) and "write one
/// byte to register R". Callers supply the concrete transport; a blocking
/// bus and a cooperatively suspending one must decode identically, since
/// the lifecycle logic sees only the bytes.
///
/// Nothing is promised about the bytes a read yields: register contents
/// are the hardware's to choose, and every exchange may fail with the
/// transport's own error.
pub trait RegisterBus {
    /// The transport's native error, surfaced unmodified.
    type BusError;

    /// Read one byte from register `reg`.
    fn read_reg(&mut self, reg: u8) -> Result<u8, Self::BusError>;

    /// Read two consecutive bytes starting at register `reg`.
    fn read_reg_pair(&mut self, reg: u8) -> Result<(u8, u8), Self::BusError>;

    /// Write one byte to register `reg`.
    fn write_reg(&mut self, reg: u8, value: u8) -> Result<(), Self::BusError>;
}

} // verus!
