//! Errors of the configuration bridge.

use vstd::prelude::*;
use crate::status::PyStatus;

verus! {

/// Everything that can go wrong while converting an application-level
/// configuration into a native one.
#[derive(Debug)]
pub enum Error {
    /// An argument string holds an interior null byte and therefore cannot
    /// be represented as a null-terminated native byte string. `index` is
    /// the position of the first such argument in the argument vector.
    EncodingError { index: usize },
    /// A runtime call reported failure via its status protocol; the status
    /// carries the runtime's reported function name, message and exit code.
    StatusError { status: PyStatus },
    /// An application-level option is set that this layer cannot yet
    /// translate into a native configuration field.
    UnsupportedOptionError,
}

} // verus!
