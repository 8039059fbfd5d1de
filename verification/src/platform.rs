//! The operating-system families, and which of them the tool is driven on.

use vstd::prelude::*;

verus! {

/// The family of the operating system that a resolution runs on.
#[derive(Clone, Copy, Debug, PartialEq, Eq, Structural)]
pub enum Platform {
    Linux,
    MacOs,
    /// Any family on which the tool's conventions were not validated.
    Other,
}

impl Platform {
    /// Whether the tool may be started on this family.
    pub open spec fn spec_is_supported(self) -> bool {
        self is Linux || self is MacOs
    }

    /// Tells whether the tool may be started on this family.
    #[verifier::when_used_as_spec(spec_is_supported)]
    pub fn is_supported(self) -> (r: bool)
        ensures
            r == self.spec_is_supported(),
    {
        match self {
            Platform::Linux | Platform::MacOs => true,
            Platform::Other => false,
        }
    }
}

} // verus!
