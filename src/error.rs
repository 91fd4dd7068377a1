use vstd::prelude::*;

verus! {

/// Failure kinds of the emulator core.
#[derive(Debug, Clone, PartialEq, Eq)]
pub enum GBAError {
    /// The cartridge could not be loaded: no input given, an archive without a
    /// `.gba` entry, or an archive that could not be read.
    CartridgeLoadError(String),
    /// An underlying filesystem error, carried as its message.
    IO(String),
    /// Surfaced from the CPU core.
    CpuError(String),
    /// Surfaced from the debugger front-end.
    DebuggerError(String),
}

pub type GBAResult<T> = Result<T, GBAError>;

} // verus!
