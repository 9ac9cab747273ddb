//! The byte-addressed transport that carries register traffic to the device.

use vstd::prelude::*;

verus! {

/// A synchronous register transport shared by every handle of one device.
///
/// Implementations are supplied by the platform, most often an I2C master
/// behind a mutual-exclusion guard; a transport whose exclusion is
/// non-blocking surfaces contention as its own failure. The driver holds no
/// expectation about the byte a read returns, nor about when a transaction
/// fails: the device and the transport decide both.
pub trait Bus {
    /// The transport's failure type.
    type Error;

    /// Send one byte to a register of the device at `address`.
    fn write(&mut self, address: u8, register: u8, value: u8) -> Result<(), Self::Error>;

    /// Send a register address to the device at `address`, then read one
    /// byte back in the same transaction.
    fn write_read(&mut self, address: u8, register: u8) -> Result<u8, Self::Error>;
}

} // verus!
