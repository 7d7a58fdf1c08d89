//! Error taxonomy of the simulation engine.

use vstd::prelude::*;

verus! {

/// What went wrong, by layer.
///
/// `Configuration` is a malformed or contradictory configuration, detected
/// before any simulation work; `Sampling` is an invalid process parameter;
/// `Schedule` is an agent invoked out of contract (an engine bug);
/// `Agent` is a failed ledger call, aborting the current run only;
/// `Recorder` is an event log that could not be flushed.
#[derive(Clone, Copy, Debug, PartialEq, Eq, Structural)]
pub enum SimulationError {
    Configuration,
    Sampling,
    Schedule,
    Agent,
    Recorder,
}

impl SimulationError {
    /// A short human-readable name for the error.
    pub fn label(&self) -> (r: &'static str)
        ensures
            r@ == self.spec_label(),
    {
        proof {
            reveal_strlit("configuration error");
            reveal_strlit("sampling error");
            reveal_strlit("schedule error");
            reveal_strlit("agent error");
            reveal_strlit("recorder error");
        }
        match self {
            SimulationError::Configuration => "configuration error",
            SimulationError::Sampling => "sampling error",
            SimulationError::Schedule => "schedule error",
            SimulationError::Agent => "agent error",
            SimulationError::Recorder => "recorder error",
        }
    }

    /// The name that `label` returns.
    pub open spec fn spec_label(self) -> Seq<char> {
        match self {
            SimulationError::Configuration => "configuration error"@,
            SimulationError::Sampling => "sampling error"@,
            SimulationError::Schedule => "schedule error"@,
            SimulationError::Agent => "agent error"@,
            SimulationError::Recorder => "recorder error"@,
        }
    }
}

} // verus!
