//! The errors of the utilities.
use vstd::prelude::*;

verus! {

/// Why a utility refused its input.
#[derive(Debug, Clone, Copy, PartialEq, Eq, Structural)]
pub enum Error {
    /// A network mask that is not a run of one bits followed by zero bits,
    /// or whose prefix is longer than the address allows.
    ErrInvalidMask,
}

} // verus!
