//! Common I2C abstractions shared by bus-adapter drivers: the flag set of a
//! transaction segment, the message with its cursor-based buffer access, and
//! the interface an adapter offers to run a batch of messages.

use vstd::prelude::*;

pub mod bits;
pub mod flags;
pub mod msg;
pub mod state;
pub mod transfer;

verus! {

/// I2C operation mode.
#[derive(Debug, Clone, Copy, PartialEq, Eq, Structural)]
pub enum I2cMode {
    /// The controller drives the bus and is programmed only as a master.
    Master,
    /// The controller answers on the bus and is programmed only as a slave.
    Slave,
}

} // verus!
