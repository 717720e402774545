use vstd::prelude::*;

verus! {

/// The failures that the library reports.
#[derive(Debug, Clone, PartialEq, Eq)]
pub enum CommonError {
    /// A file could not be created.
    CreateFile { f: String },
    /// A file could not be read.
    ReadFile { f: String },
    /// A file could not be written.
    WriteFile { f: String },
    /// A field that must hold an integer does not.
    Parsing,
    /// The lines of a record could not be read.
    RegistryLine,
    /// A flag bit was asked for by a position outside 1 to 12.
    InvalidBitPosition,
    /// The window around a breakpoint does not fit the read sequence.
    BreakpointWindow,
}

} // verus!
