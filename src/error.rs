use vstd::prelude::*;

use crate::abi::Arch;

verus! {

/// The two growable regions of guest memory.
#[derive(Clone, Copy, Debug, PartialEq, Eq, Structural)]
pub enum Region {
    Stack,
    Heap,
}

/// Why a call could not be planned, run or decoded.
#[derive(Clone, Debug, PartialEq, Eq)]
pub enum CallError {
    /// A stack or heap growth request would exceed the region's maximum.
    OversizedRegion(Region),
    /// More arguments of one class than the modeled convention has slots for.
    TooManyArguments,
    /// An argument or result type, or a result count, that the modeled
    /// convention does not place.
    UnsupportedShape,
    /// The emulator stopped somewhere other than the return address, or for a
    /// reason other than reaching it.
    UnexpectedHalt { arch: Arch, pc: u64, reason: String },
    /// A guest address that the emulator refused to read or write.
    MemoryFault { addr: u64 },
}

} // verus!
