//! The availability precheck: a dry run of the external tool, made once
//! before a job may start downloading.
use vstd::prelude::*;
use crate::job::Error;

verus! {

/// What the dry run of the external tool came to.
pub enum PrecheckOutcome {
    /// The tool ran and accepted the target.
    Accepted,
    /// The tool ran and rejected the target.
    Rejected,
    /// The tool could not be launched; holds the cause.
    NotLaunched(String),
}

/// The verdict on a dry run: success only when the tool ran and accepted.
pub open spec fn spec_precheck_verdict(outcome: PrecheckOutcome) -> Result<(), Error> {
    match outcome {
        PrecheckOutcome::Accepted => Ok(()),
        PrecheckOutcome::Rejected => Err(Error::FailedCheck),
        PrecheckOutcome::NotLaunched(cause) => Err(Error::General { cause }),
    }
}

/// The verdict on a dry run of the external tool.
pub fn precheck_verdict(outcome: PrecheckOutcome) -> (r: Result<(), Error>)
    ensures
        r == spec_precheck_verdict(outcome),
{
    match outcome {
        PrecheckOutcome::Accepted => Ok(()),
        PrecheckOutcome::Rejected => Err(Error::FailedCheck),
        PrecheckOutcome::NotLaunched(cause) => Err(Error::General { cause }),
    }
}

} // verus!
