//! Why an extraction was refused.

use vstd::prelude::*;

verus! {

/// The two ways in which a buffer can fail to yield a field.
#[derive(Clone, Copy, Debug, PartialEq, Eq, Structural)]
pub enum ExtractError {
    /// A read or a seek would have gone past the end of the bytes in view.
    OutOfBounds,
    /// The buffer is shorter than the header that was asked for.
    Malformed,
}

} // verus!
