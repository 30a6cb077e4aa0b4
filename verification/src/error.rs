//! The ways in which the harness fails.

use vstd::prelude::*;

verus! {

/// A failure of the harness. All of them end the run in which they occur; a
/// transport error during a confirmation poll is none of them, it counts as
/// "not yet confirmed".
#[derive(Clone, Copy, Debug, PartialEq, Eq, Structural)]
pub enum BenchError {
    /// The airdrop was rejected.
    AirdropRejected,
    /// The funds did not become visible within the time allowed for it.
    FundingTimedOut,
    /// The server could not be asked whether the funds have arrived.
    FundingStatusUnavailable,
    /// A blockhash could not be fetched.
    BlockhashUnavailable,
    /// A transaction could not be signed with the payer's key.
    Signing,
    /// The server did not accept a transaction, or answered with the
    /// signature of another one.
    Send,
    /// An average was asked of no runs.
    Arithmetic,
}

/// The kinds of failure that the harness reports.
#[derive(Clone, Copy, Debug, PartialEq, Eq, Structural)]
pub enum ErrorKind {
    /// The payer could not be funded or a blockhash not be fetched.
    Setup,
    /// A transaction could not be signed or submitted.
    Send,
    /// The metrics could not be averaged.
    Arithmetic,
}

/// The kind that a failure belongs to.
pub open spec fn kind_of(err: BenchError) -> ErrorKind {
    match err {
        BenchError::AirdropRejected => ErrorKind::Setup,
        BenchError::FundingTimedOut => ErrorKind::Setup,
        BenchError::FundingStatusUnavailable => ErrorKind::Setup,
        BenchError::BlockhashUnavailable => ErrorKind::Setup,
        BenchError::Signing => ErrorKind::Send,
        BenchError::Send => ErrorKind::Send,
        BenchError::Arithmetic => ErrorKind::Arithmetic,
    }
}

impl BenchError {
    /// The kind that the failure belongs to.
    pub fn kind(&self) -> (kind: ErrorKind)
        ensures
            kind == kind_of(*self),
    {
        match self {
            BenchError::AirdropRejected => ErrorKind::Setup,
            BenchError::FundingTimedOut => ErrorKind::Setup,
            BenchError::FundingStatusUnavailable => ErrorKind::Setup,
            BenchError::BlockhashUnavailable => ErrorKind::Setup,
            BenchError::Signing => ErrorKind::Send,
            BenchError::Send => ErrorKind::Send,
            BenchError::Arithmetic => ErrorKind::Arithmetic,
        }
    }

    /// Whether the failure belongs to the setup of a run.
    pub fn is_setup(&self) -> (setup: bool)
        ensures
            setup == (kind_of(*self) == ErrorKind::Setup),
            setup == (*self == BenchError::AirdropRejected || *self == BenchError::FundingTimedOut
                || *self == BenchError::FundingStatusUnavailable || *self
                == BenchError::BlockhashUnavailable),
    {
        match self {
            BenchError::AirdropRejected => true,
            BenchError::FundingTimedOut => true,
            BenchError::FundingStatusUnavailable => true,
            BenchError::BlockhashUnavailable => true,
            _ => false,
        }
    }
}

} // verus!
