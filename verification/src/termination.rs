//! Why a run stopped.

use vstd::prelude::*;

verus! {

/// The reason a run has stopped, or `NotTerminated` while it goes on.
#[derive(Clone, Copy, PartialEq, Eq, Structural, Debug)]
pub enum TerminationReason {
    NotTerminated,
    MaxItersReached,
    TargetPrecisionReached,
    TargetCostReached,
    LineSearchConditionMet,
    Aborted,
}

impl TerminationReason {
    /// Anything but `NotTerminated` is final: no further step is made.
    pub open spec fn spec_terminated(self) -> bool {
        self != TerminationReason::NotTerminated
    }

    #[verifier::when_used_as_spec(spec_terminated)]
    pub fn terminated(self) -> (b: bool)
        ensures
            b == self.spec_terminated(),
    {
        match self {
            TerminationReason::NotTerminated => false,
            _ => true,
        }
    }

    /// The reason once the abort flag has been looked at: a run that has a
    /// reason to stop keeps it, and a run that goes on is `Aborted` if the
    /// flag is raised.
    pub open spec fn spec_or_aborted(self, raised: bool) -> TerminationReason {
        if self == TerminationReason::NotTerminated && raised {
            TerminationReason::Aborted
        } else {
            self
        }
    }

    #[verifier::when_used_as_spec(spec_or_aborted)]
    pub fn or_aborted(self, raised: bool) -> (reason: TerminationReason)
        ensures
            reason == self.spec_or_aborted(raised),
    {
        match self {
            TerminationReason::NotTerminated => if raised {
                TerminationReason::Aborted
            } else {
                TerminationReason::NotTerminated
            },
            _ => self,
        }
    }
}

} // verus!
