//! The two capabilities the driver needs from its surroundings: a blocking
//! I2C byte-write primitive and a blocking millisecond delay. Both are
//! supplied by the platform; the driver owns the bus exclusively.

use vstd::prelude::*;

verus! {

/// A frame is one atomic I2C write: a target 7-bit address and the bytes
/// sent in that single transaction.
pub type Frame = (u8, Seq<u8>);

/// Synchronous byte-write capability over an I2C bus.
///
/// The ghost view `frames` is the ordered history of writes the bus has
/// carried. A successful `write` appends exactly one frame; a failed one
/// appends nothing.
pub trait I2cBus: Sized {
    /// The bus implementation's own error for a failed write.
    type BusError;

    /// The ordered history of writes carried so far. An implementation
    /// overrides this with its own model of the bus; the default, an
    /// always-empty history, is only for implementations that live outside
    /// the verified world and prove nothing about their writes.
    open spec fn frames(&self) -> Seq<Frame> {
        Seq::empty()
    }

    /// Write `bytes` to the device at 7-bit address `address`, blocking
    /// until the transaction completes or fails.
    fn write(&mut self, address: u8, bytes: &[u8]) -> (r: Result<(), Self::BusError>)
        ensures
            r is Ok ==> final (self).frames() == old(self).frames().push((address, bytes@)),
            r is Err ==> final (self).frames() == old(self).frames(),
    ;
}

/// Blocking millisecond delay capability.
pub trait Delay: Sized {
    /// Block the caller for at least `ms` milliseconds.
    fn delay_ms(&mut self, ms: u16);
}

} // verus!
