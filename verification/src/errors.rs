//! Error taxonomy of the engine.
//!
//! Every expected failure is reported as a value of one of these enums;
//! no verified function of this crate panics.  Background activities treat
//! all of them as non-fatal, and none of the types carries user-facing text:
//! the caller decides how a failure is presented.

use vstd::prelude::*;

verus! {

/// One failure kind for every expected way a capture or a snapshot
/// operation can go wrong.
#[derive(Clone, Copy, Debug, PartialEq, Eq, Structural)]
pub enum CaptureError {
    /// No running process matched the requested executable name.
    ProcessNotFound,
    /// The attached process has no loaded module with the requested name.
    ModuleNotFound,
    /// The file backing the fingerprinted module could not be read.
    BinaryReadFailed,
    /// The offset catalog could not be transported from its remote source.
    FetchFailed,
    /// The offset catalog document could not be parsed.
    ParseFailed,
    /// The loaded catalog has no entry for the computed fingerprint.
    OffsetNotFoundForFingerprint,
    /// A typed read or write did not complete for the full requested width.
    MemoryAccessFailed,
}

/// Failure of one capture attempt: finding the process and reading the
/// file backing its main module.
#[derive(Clone, Copy, Debug, PartialEq, Eq, Structural)]
pub enum AUProcessError {
    /// No running process matched the requested executable name.
    ProcessNotFound,
    /// The module file to fingerprint could not be read.
    DllNotFound,
}

/// Failure of one catalog acquisition: transport and parse failures are
/// distinct kinds.
#[derive(Clone, Copy, Debug, PartialEq, Eq, Structural)]
pub enum AUCaptureOffsetsError {
    /// The catalog document was retrieved but could not be parsed.
    ParseFailed,
    /// The catalog document could not be retrieved at all.
    FetchFailed,
}

} // verus!
