//! Waiting for the airdrop that funds the payer of a run.

use crate::error::BenchError;
use crate::time::TimeSpan;
use vstd::prelude::*;

verus! {

/// What the server says of the airdrop's signature at the strongest
/// commitment.
#[derive(Clone, Copy, Debug, PartialEq, Eq, Structural)]
pub enum AirdropStatus {
    /// The server has no status for the signature yet.
    Unknown,
    /// The airdrop is there and succeeded.
    Succeeded,
    /// The airdrop is there and failed.
    Failed,
    /// The server could not be asked.
    Unavailable,
}

/// What to do after a look at the airdrop's status.
#[derive(Clone, Copy, Debug, PartialEq, Eq, Structural)]
pub enum FundingStep {
    /// Ask again.
    Wait,
    /// The payer is funded: the run can start.
    Funded,
    /// The run is aborted with this failure.
    Abort(BenchError),
}

/// The step that follows `status`, seen `waited` after the airdrop was
/// requested, where `budget` is the longest time to wait.
pub open spec fn step_after(status: AirdropStatus, waited: nat, budget: nat) -> FundingStep {
    match status {
        AirdropStatus::Succeeded => FundingStep::Funded,
        AirdropStatus::Failed => FundingStep::Abort(BenchError::AirdropRejected),
        AirdropStatus::Unavailable => FundingStep::Abort(BenchError::FundingStatusUnavailable),
        AirdropStatus::Unknown => if waited >= budget {
            FundingStep::Abort(BenchError::FundingTimedOut)
        } else {
            FundingStep::Wait
        },
    }
}

/// The status that a look at the airdrop's signature gave. `reply` is
/// nothing where the server could not be asked; else it holds nothing while
/// the server has no status, and then whether the airdrop succeeded.
pub fn airdrop_status(reply: Option<Option<bool>>) -> (status: AirdropStatus)
    ensures
        status == match reply {
            None => AirdropStatus::Unavailable,
            Some(None) => AirdropStatus::Unknown,
            Some(Some(true)) => AirdropStatus::Succeeded,
            Some(Some(false)) => AirdropStatus::Failed,
        },
{
    match reply {
        None => AirdropStatus::Unavailable,
        Some(None) => AirdropStatus::Unknown,
        Some(Some(true)) => AirdropStatus::Succeeded,
        Some(Some(false)) => AirdropStatus::Failed,
    }
}

/// What becomes of the request for an airdrop: the signature to watch where
/// the server took the request, and the failure of the run where it did not.
pub fn airdrop_outcome(reply: Option<String>) -> (res: Result<String, BenchError>)
    ensures
        res.is_ok() <==> reply.is_some(),
        res.is_ok() ==> res.unwrap() == reply.unwrap(),
        res.is_err() ==> res == Err::<String, BenchError>(BenchError::AirdropRejected),
{
    match reply {
        Some(sig) => Ok(sig),
        None => Err(BenchError::AirdropRejected),
    }
}

/// Decides after each look at the airdrop's status whether the payer is
/// funded, the run is aborted, or the status is asked for again.
pub fn funding_step(status: AirdropStatus, waited: &TimeSpan, budget: &TimeSpan) -> (step:
    FundingStep)
    ensures
        step == step_after(status, waited@, budget@),
{
    match status {
        AirdropStatus::Succeeded => FundingStep::Funded,
        AirdropStatus::Failed => FundingStep::Abort(BenchError::AirdropRejected),
        AirdropStatus::Unavailable => FundingStep::Abort(BenchError::FundingStatusUnavailable),
        AirdropStatus::Unknown => {
            if waited.at_least(budget) {
                FundingStep::Abort(BenchError::FundingTimedOut)
            } else {
                FundingStep::Wait
            }
        },
    }
}

/// What becomes of the fetch of a blockhash: without one the run is
/// aborted.
pub fn blockhash_outcome(reply: Option<[u8; 32]>) -> (res: Result<[u8; 32], BenchError>)
    ensures
        res.is_ok() <==> reply.is_some(),
        res.is_ok() ==> res.unwrap() == reply.unwrap(),
        res.is_err() ==> res == Err::<[u8; 32], BenchError>(BenchError::BlockhashUnavailable),
{
    match reply {
        Some(hash) => Ok(hash),
        None => Err(BenchError::BlockhashUnavailable),
    }
}

} // verus!
