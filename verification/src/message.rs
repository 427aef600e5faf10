//! What proposers and acceptors say to each other.

use crate::ballot::BallotID;
use vstd::prelude::*;

verus! {

/// An acceptor's answer to either phase.
#[derive(Debug, Clone, Copy, PartialEq, Eq, Structural)]
pub enum PhaseStatus {
    Accept,
    Reject,
}

/// How a round of a proposer ended: `Okay` when the value was accepted by
/// enough acceptors, `Fail` when either phase fell short.
#[derive(Debug, Clone, Copy, PartialEq, Eq, Structural)]
pub enum PaxosProposalStatus {
    Okay,
    Fail,
}

/// A value under the ballot it is proposed with. An acceptor that has
/// accepted nothing yet reports a proposal without a value.
#[derive(Debug, Clone, Copy, PartialEq, Eq, Structural)]
pub struct Proposal {
    pub ballot: BallotID,
    pub value: Option<u64>,
}

/// The answer to a phase-one request. A granting acceptor sends along what
/// it has accepted so far; a rejecting one sends nothing.
#[derive(Debug, Clone, Copy, PartialEq, Eq, Structural)]
pub struct ProposeReply {
    pub status: PhaseStatus,
    pub accepted_proposal: Option<Proposal>,
}

/// The answer to a phase-two request.
#[derive(Debug, Clone, Copy, PartialEq, Eq, Structural)]
pub struct AcceptReply {
    pub status: PhaseStatus,
}

/// A proposal as it arrives in a request, where either field may be
/// missing.
#[derive(Debug, Clone, Copy, PartialEq, Eq, Structural)]
pub struct RawProposal {
    pub ballot: Option<BallotID>,
    pub value: Option<u64>,
}

/// A phase-one request as it arrives.
#[derive(Debug, Clone, Copy, PartialEq, Eq, Structural)]
pub struct ProposeRequest {
    pub proposal: Option<RawProposal>,
}

/// A phase-two request as it arrives.
#[derive(Debug, Clone, Copy, PartialEq, Eq, Structural)]
pub struct AcceptRequest {
    pub proposal: Option<RawProposal>,
}

/// Why a request never reached the acceptor's state. This is a fault of the
/// request's form and is kept apart from `PhaseStatus::Reject`, which is the
/// ordinary answer to a ballot that came too late.
#[derive(Debug, Clone, Copy, PartialEq, Eq, Structural)]
pub enum RequestError {
    /// The request holds no proposal.
    MissingProposal,
    /// The proposal holds no ballot.
    MissingBallot,
    /// A phase-two proposal holds no value.
    MissingValue,
}

impl ProposeRequest {
    /// The proposal that a well-formed request holds. Phase one needs the
    /// ballot only: a missing value is no fault here.
    pub open spec fn checked(self) -> Result<Proposal, RequestError> {
        match self.proposal {
            None => Err(RequestError::MissingProposal),
            Some(raw) => match raw.ballot {
                None => Err(RequestError::MissingBallot),
                Some(ballot) => Ok(Proposal { ballot, value: raw.value }),
            },
        }
    }

    /// Checks the request's form and hands out its proposal.
    pub fn check(&self) -> (checked: Result<Proposal, RequestError>)
        ensures
            checked == self.checked(),
    {
        match self.proposal {
            None => Err(RequestError::MissingProposal),
            Some(raw) => match raw.ballot {
                None => Err(RequestError::MissingBallot),
                Some(ballot) => Ok(Proposal { ballot, value: raw.value }),
            },
        }
    }
}

impl AcceptRequest {
    /// The proposal that a well-formed request holds. Phase two needs both
    /// the ballot and the value; of several faults the first in the order
    /// proposal, ballot, value is reported.
    pub open spec fn checked(self) -> Result<Proposal, RequestError> {
        match self.proposal {
            None => Err(RequestError::MissingProposal),
            Some(raw) => match raw.ballot {
                None => Err(RequestError::MissingBallot),
                Some(ballot) => match raw.value {
                    None => Err(RequestError::MissingValue),
                    Some(value) => Ok(Proposal { ballot, value: Some(value) }),
                },
            },
        }
    }

    /// Checks the request's form and hands out its proposal, whose value is
    /// then present.
    pub fn check(&self) -> (checked: Result<Proposal, RequestError>)
        ensures
            checked == self.checked(),
            checked matches Ok(proposal) ==> proposal.value is Some,
    {
        match self.proposal {
            None => Err(RequestError::MissingProposal),
            Some(raw) => match raw.ballot {
                None => Err(RequestError::MissingBallot),
                Some(ballot) => match raw.value {
                    None => Err(RequestError::MissingValue),
                    Some(value) => Ok(Proposal { ballot, value: Some(value) }),
                },
            },
        }
    }
}

} // verus!
