use vstd::prelude::*;

verus! {

/// A discrete user intent produced once per debounce window.
#[derive(Debug, Clone, Copy, PartialEq, Eq, Structural)]
pub enum TriggerAction {
    Toggle,
    Next,
    Previous,
    StepBack,
    StepForward,
    StopOngoing,
}

impl TriggerAction {
    /// Step actions are the ones that repeat while the button is held.
    pub open spec fn spec_is_step(self) -> bool {
        self is StepBack || self is StepForward
    }

    pub fn is_step(&self) -> (r: bool)
        ensures
            r == self.spec_is_step(),
    {
        match self {
            TriggerAction::StepBack => true,
            TriggerAction::StepForward => true,
            _ => false,
        }
    }
}

} // verus!
