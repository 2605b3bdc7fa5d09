//! In-memory implementations of the bus and delay capabilities, for tests
//! and for running the driver off real hardware: a bus that records every
//! frame (and can be set to start failing at a chosen point), and a delay
//! that returns immediately.

use vstd::prelude::*;

use crate::bus::{Delay, Frame, I2cBus};

verus! {

/// The error a [`RecordingBus`] reports once it has been set to fail.
#[derive(Copy, Clone, PartialEq, Eq, Structural, Debug)]
pub struct BusFault;

/// A bus that keeps every frame written to it, in order. If `fail_from` is
/// set, every write attempted once `writes` holds that many frames fails
/// with [`BusFault`] and records nothing.
pub struct RecordingBus {
    /// The frames carried so far, oldest first.
    pub writes: Vec<(u8, Vec<u8>)>,
    /// If set, writes fail once this many frames have been recorded.
    pub fail_from: Option<usize>,
}

impl RecordingBus {
    /// An empty bus on which every write succeeds.
    pub fn new() -> (r: RecordingBus)
        ensures
            r.frames() == Seq::<Frame>::empty(),
            r.fail_from is None,
    {
        let r = RecordingBus { writes: Vec::new(), fail_from: None };
        proof {
            assert(r.frames() =~= Seq::<Frame>::empty());
        }
        r
    }

    /// An empty bus whose writes succeed until `n` frames are recorded and
    /// fail from then on.
    pub fn failing_from(n: usize) -> (r: RecordingBus)
        ensures
            r.frames() == Seq::<Frame>::empty(),
            r.fail_from == Some(n),
    {
        let r = RecordingBus { writes: Vec::new(), fail_from: Some(n) };
        proof {
            assert(r.frames() =~= Seq::<Frame>::empty());
        }
        r
    }
}

impl I2cBus for RecordingBus {
    type BusError = BusFault;

    open spec fn frames(&self) -> Seq<Frame> {
        self.writes@.map_values(|w: (u8, Vec<u8>)| (w.0, w.1@))
    }

    fn write(&mut self, address: u8, bytes: &[u8]) -> (r: Result<(), BusFault>) {
        let refuse = match self.fail_from {
            Some(n) => self.writes.len() >= n,
            None => false,
        };
        if refuse {
            Err(BusFault)
        } else {
            let mut copy: Vec<u8> = Vec::new();
            let mut i: usize = 0;
            while i < bytes.len()
                invariant
                    i <= bytes@.len(),
                    copy@ == bytes@.take(i as int),
                decreases bytes@.len() - i,
            {
                copy.push(*vstd::slice::slice_index_get(bytes, i));
                proof {
                    assert(copy@ =~= bytes@.take(i + 1 as int));
                }
                i = i + 1;
            }
            proof {
                assert(copy@ =~= bytes@);
            }
            let ghost before = self.writes@;
            self.writes.push((address, copy));
            proof {
                assert(self.frames() =~= before.map_values(|w: (u8, Vec<u8>)| (w.0, w.1@)).push(
                    (address, bytes@),
                ));
            }
            Ok(())
        }
    }
}

/// A delay that returns at once: the timing requirements of the hardware
/// mean nothing to an in-memory bus.
pub struct NoopDelay;

impl Delay for NoopDelay {
    fn delay_ms(&mut self, _ms: u16) {
    }
}

} // verus!
