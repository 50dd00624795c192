//! The failure of a conversion from a numeric code.

use vstd::prelude::*;

verus! {

/// A numeric code that names no variant of the family it was converted to.
#[derive(Clone, Copy, Debug, PartialEq, Eq, Structural, Hash)]
pub struct ConversionError {
    /// The code that was refused.
    pub code: u32,
}

} // verus!
