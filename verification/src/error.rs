use vstd::prelude::*;

verus! {

/// Why a construction was rejected.
#[derive(Clone, Copy, Debug, PartialEq, Eq, Structural)]
pub enum HdlError {
    /// The width of an expression was needed, and the expression has none.
    WidthUndefined,
    /// A bit index lies outside the bits of the value it selects from.
    IndexOutOfRange,
    /// A signal was asked for with no bits at all.
    InvalidWidth,
}

} // verus!
