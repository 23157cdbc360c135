//! Outcomes of submitted calls, and the report of one run.
use crate::address::ChainAddress;
use crate::amount::Amount;
use crate::bootstrap::BootstrapError;
use crate::probe::{ProbeError, ProbeResult};
use crate::resolver::ResolutionError;
use vstd::prelude::*;

verus! {

/// What became of a submitted call.
#[derive(Clone, Copy, Debug, PartialEq, Eq)]
pub enum SubmitOutcome {
    /// Mined without reverting.
    Included,
    /// Mined, but reverted: an answer the caller acts on.
    Reverted,
    /// Nonce, gas or fee fields could not be filled: a fault of the environment.
    FillFailed,
}

impl SubmitOutcome {
    pub fn is_included(&self) -> (r: bool)
        ensures
            r == (*self == SubmitOutcome::Included),
    {
        match self {
            SubmitOutcome::Included => true,
            _ => false,
        }
    }

    /// Whether the outcome must end the run, whoever submitted the call.
    pub fn is_fault(&self) -> (r: bool)
        ensures
            r == (*self == SubmitOutcome::FillFailed),
    {
        match self {
            SubmitOutcome::FillFailed => true,
            _ => false,
        }
    }
}

/// Why a run produced no fee.
#[derive(Clone, Copy, Debug, PartialEq, Eq)]
pub enum RunFailure {
    Resolution(ResolutionError),
    Bootstrap(BootstrapError),
    Probe(ProbeError),
    /// The fork or a call that was expected to exist failed.
    Environment,
}

/// The end of a run: the holder used, when one was resolved, the fee or the
/// reason there is none, and the pool reserves when they could be read.
#[derive(Clone, Copy, Debug, PartialEq, Eq)]
pub struct RunReport {
    pub holder: Option<ChainAddress>,
    pub outcome: Result<ProbeResult, RunFailure>,
    pub reserves: Option<(Amount, Amount)>,
}

} // verus!
