use vstd::prelude::*;

verus! {

/// A bus access that a device refused, or a DMA whose stall debt the counter
/// cannot hold. A fault aborts the tick in flight.
#[derive(Clone, Copy, Debug, PartialEq, Eq, Structural)]
pub struct BusFault;

/// Why a session operation failed.
#[derive(Clone, Copy, Debug, PartialEq, Eq, Structural)]
pub enum EmuError {
    /// The cartridge image was malformed or asked for an unsupported mapper.
    LoadError,
    /// The operation needs a loaded session and there is none.
    NotLoaded,
    /// A device or a bus faulted while the session was running.
    BusFault,
}

} // verus!
