//! The failures that the guard reports.

use vstd::prelude::*;

verus! {

/// Why the guard refused an operation.
#[derive(Clone, Copy, Debug, PartialEq, Eq, PartialOrd, Ord, Structural)]
pub enum ContractError {
    /// A state-changing operation was attempted in a state that does not admit it.
    InvalidInitialization,
    /// A routine reserved to an initialization in progress was entered outside one.
    NotInitializing,
}

impl ContractError {
    /// The number under which this failure is reported to the host.
    pub open spec fn spec_code(self) -> u32 {
        match self {
            ContractError::InvalidInitialization => 1u32,
            ContractError::NotInitializing => 2u32,
        }
    }

    /// Returns the number under which this failure is reported to the host.
    #[verifier::when_used_as_spec(spec_code)]
    pub fn code(self) -> (code: u32)
        ensures
            code == self.spec_code(),
    {
        match self {
            ContractError::InvalidInitialization => 1,
            ContractError::NotInitializing => 2,
        }
    }
}

} // verus!
