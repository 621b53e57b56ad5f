//! Error values surfaced by the container's lifecycle operations.

use vstd::prelude::*;

verus! {

/// An error raised while filling a slot from persisted bytes.
///
/// A missing file is not an error: construction falls back to the value
/// type's default.  Only bytes that exist but do not decode as the value
/// type are reported, and they are fatal to the load — there is no repair
/// or partial-recovery path.
#[derive(Clone, Copy, Debug, PartialEq, Eq, Structural)]
pub enum Error {
    /// The persisted bytes do not decode as a value of the slot's type.
    Decode,
}

/// Raised by the embedding program when the running program's identity —
/// the executable name that the storage directory is named after — cannot
/// be determined, which blocks path resolution.
#[derive(Clone, Copy, Debug, PartialEq, Eq, Structural)]
pub struct NoneError;

impl NoneError {
    /// A fixed description for diagnostics.
    pub fn message(&self) -> (r: &'static str)
        ensures
            r@ == "NoneError"@,
    {
        "NoneError"
    }
}

} // verus!
