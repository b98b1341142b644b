//! Error kinds of the reload orchestrator.

use vstd::prelude::*;

verus! {

/// A fatal failure of one attempt to construct a loaded module instance.
///
/// Each variant marks the step of the construction sequence that failed:
/// copying the staged artifact, opening the working copy and resolving its
/// entry points, or one of the two foreign calls signalling failure.
#[derive(Clone, Copy, Debug, PartialEq, Eq, Structural)]
pub enum LoadFailure {
    /// Copying the staged artifact to the working-copy path failed.
    IoError,
    /// The working copy could not be opened as a dynamic library, or a
    /// required entry point was missing.
    LoadError,
    /// The module's start entry point signalled failure.
    StartFailed,
    /// The module's enable entry point signalled failure.
    EnableFailed,
}

/// A non-fatal fault in decoding a module's identification buffer.
///
/// Identification text is only diagnostic; a fault here never fails the
/// construction of a module instance.
#[derive(Clone, Copy, Debug, PartialEq, Eq, Structural)]
pub enum DecodeFault {
    /// The buffer holds no nul terminator.
    MissingNul,
    /// The bytes before the first nul terminator are not well-formed UTF-8.
    InvalidUtf8,
}

} // verus!
