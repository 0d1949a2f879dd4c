//! Status values reported by the certificate authority for challenges and
//! orders. Polling loops re-fetch these until a terminal status is reached.

use vstd::prelude::*;

verus! {

/// Status of one HTTP-01 challenge as reported by the authority.
#[derive(Clone, Copy, Debug, PartialEq, Eq, Structural)]
pub enum ChallengeStatus {
    Pending,
    Processing,
    Valid,
    Invalid,
}

impl ChallengeStatus {
    /// A terminal status: the authority will not change it any more.
    pub open spec fn is_terminal(self) -> bool {
        self is Valid || self is Invalid
    }

    /// Executable test for a terminal status.
    pub fn terminal(&self) -> (r: bool)
        ensures
            r == self.is_terminal(),
    {
        matches!(self, ChallengeStatus::Valid | ChallengeStatus::Invalid)
    }
}

/// Status of one certificate order as reported by the authority.
#[derive(Clone, Copy, Debug, PartialEq, Eq, Structural)]
pub enum OrderStatus {
    Pending,
    Ready,
    Processing,
    Valid,
    Invalid,
}

impl OrderStatus {
    /// A terminal status: the authority will not change it any more.
    pub open spec fn is_terminal(self) -> bool {
        self is Valid || self is Invalid
    }

    /// Executable test for a terminal status.
    pub fn terminal(&self) -> (r: bool)
        ensures
            r == self.is_terminal(),
    {
        matches!(self, OrderStatus::Valid | OrderStatus::Invalid)
    }
}

} // verus!
