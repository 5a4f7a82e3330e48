use vstd::prelude::*;

verus! {

/// The failures of the library; every one is recoverable by the caller.
#[derive(Clone, Copy, Debug, PartialEq, Eq, Structural)]
pub enum ConfChangeError {
    /// A handle outlived the generation of its owner.
    StaleReference,
    /// Wire bytes were malformed or truncated.
    DecodeError,
    /// A joint change with other than one entry, or with a transition mode,
    /// cannot become a single change.
    UnsupportedConversion,
    /// A change type outside the closed set.
    InvalidEnumValue,
}

} // verus!
