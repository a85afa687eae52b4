use vstd::prelude::*;

verus! {

/// Why an operation on an engine was refused before reaching it.
#[derive(Debug, Clone, Copy, PartialEq, Eq, Structural)]
pub enum Error {
    /// The engine behind a weak handle has already been destroyed.
    HandleExpired,
    /// A text argument holds a zero byte and cannot cross the native boundary.
    EncodingError,
}

} // verus!
