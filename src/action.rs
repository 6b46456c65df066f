use vstd::prelude::*;

verus! {

/// Control input accepted by a running farmer.
#[derive(Debug, Clone, Copy, PartialEq, Eq, Structural)]
pub enum FarmerAction {
    /// Pause (or resume) plotting
    PausePlotting(bool),
}

impl FarmerAction {
    /// The pause state that this action asks for.
    pub fn requested_pause(&self) -> (r: bool)
        ensures
            r == (*self == FarmerAction::PausePlotting(true)),
    {
        match self {
            FarmerAction::PausePlotting(paused) => *paused,
        }
    }
}

} // verus!
