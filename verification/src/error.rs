//! Error surface of the driver.

use vstd::prelude::*;

verus! {

/// What can go wrong while talking to the controller.
///
/// Every bus failure aborts the operation in progress and is handed back
/// unmodified, wrapped in [`Error::I2c`]; this layer performs no retries.
#[derive(Debug)]
pub enum Error<E> {
    /// The underlying bus exchange failed; carries the transport's error.
    I2c(E),
    /// Invalid data received from the device. No decode rule currently
    /// raises it: unmatched enumeration values degrade to `None` instead.
    InvalidData,
}

} // verus!
