//! The error kinds the emulator can surface. `Halt` is not a fault: it is
//! the control-flow signal raised by a store to the halt port, and drivers
//! report it as a clean exit.

use vstd::prelude::*;

verus! {

/// Everything a CPU operation can report instead of succeeding.
#[derive(Clone, Copy, Debug, PartialEq, Eq, Structural)]
pub enum J1Error {
    /// A 16-bit word matched no instruction class. Unreachable in practice:
    /// the four classes partition the word space.
    InvalidInstruction(u16),
    /// An image with an odd number of bytes was offered to the loader.
    OddImageLength,
    /// An image with at least `MEMORY_SIZE` words was offered to the loader.
    ImageTooBig,
    /// The program counter left the memory, so no instruction can be fetched.
    PcOutOfRange,
    /// A run executed `u64::MAX` cycles without consuming its input: the
    /// practical equivalent of running forever.
    CycleLimit,
    /// The program wrote to the halt port; the run is over.
    Halt,
}

} // verus!
