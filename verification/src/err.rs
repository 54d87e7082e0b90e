//! Pixel-geometry failures: a computed rectangle that cannot fit the frame.

use vstd::prelude::*;

verus! {

/// Why a pixel rectangle could not be produced.  For valid configuration
/// and in-bounds clock values these never occur; they are invariant
/// violations, not recoverable conditions.
#[derive(Clone, Copy, Debug, PartialEq, Eq, Structural)]
pub enum RoiError {
    TooWide,
    TooTall,
    NegativeScale,
}

impl RoiError {
    /// A human-readable description of the failure.
    pub fn message(&self) -> (r: &'static str)
        ensures
            *self is TooWide ==> r@ == "Region is too wide for the frame"@,
            *self is TooTall ==> r@ == "Region is too tall for the frame"@,
            *self is NegativeScale ==> r@ == "Cannot scale a region by a negative number"@,
    {
        match self {
            RoiError::TooWide => "Region is too wide for the frame",
            RoiError::TooTall => "Region is too tall for the frame",
            RoiError::NegativeScale => "Cannot scale a region by a negative number",
        }
    }
}

} // verus!
