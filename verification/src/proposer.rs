//! The proposer: the ballots of its rounds, and the decision it takes after
//! each phase of a round.

use crate::ballot::{ballot_lt, BallotID};
use crate::history::{phase_two_proposal, select_history};
use crate::message::{AcceptReply, PaxosProposalStatus, Proposal, ProposeReply};
use crate::quorum::{count_granted, granted, quorum_size, reaches_quorum};
use vstd::prelude::*;

verus! {

/// Why a round was given up before it could be decided.
#[derive(Debug, Clone, Copy, PartialEq, Eq, Structural)]
pub enum RoundError {
    /// The acceptor at this place in the list of addresses could not be
    /// reached. No smaller number of acceptors is settled for.
    Unreachable { acceptor: usize },
}

/// What a proposer does once phase one is over.
#[derive(Debug, Clone, Copy, PartialEq, Eq, Structural)]
pub enum RoundStep {
    /// Phase one passed: send this proposal to every acceptor for phase two.
    SendAccept(Proposal),
    /// The round is over with this result.
    Finish(PaxosProposalStatus),
}

/// Every exchange of the fan-out brought a reply.
pub open spec fn every_reached<R>(outcomes: Seq<Option<R>>) -> bool {
    forall|j: int| 0 <= j < outcomes.len() ==> (#[trigger] outcomes[j]) is Some
}

/// The replies that the outcomes hold, in order.
pub open spec fn replies_of<R>(outcomes: Seq<Option<R>>) -> Seq<R> {
    Seq::new(outcomes.len(), |j: int| outcomes[j]->0)
}

/// The place of the first exchange that brought no reply.
pub open spec fn first_unreachable<R>(outcomes: Seq<Option<R>>, index: int) -> bool {
    &&& 0 <= index < outcomes.len()
    &&& outcomes[index] is None
    &&& forall|j: int| 0 <= j < index ==> (#[trigger] outcomes[j]) is Some
}

/// Turns the outcomes of a fan-out, one for each acceptor in the order of
/// the addresses and `None` for an acceptor that could not be reached, into
/// the replies. One missing acceptor fails the whole fan-out, however many
/// others answered; the error names the first that was missing.
pub fn gather<R: Copy>(outcomes: &Vec<Option<R>>) -> (result: Result<Vec<R>, RoundError>)
    ensures
        match result {
            Ok(replies) => every_reached(outcomes@) && replies@ == replies_of(outcomes@),
            Err(RoundError::Unreachable { acceptor }) => first_unreachable(
                outcomes@,
                acceptor as int,
            ),
        },
{
    let mut replies: Vec<R> = Vec::new();
    let mut i: usize = 0;
    while i < outcomes.len()
        invariant
            i <= outcomes.len(),
            replies@.len() == i,
            forall|j: int| 0 <= j < i ==> (#[trigger] outcomes@[j]) == Some(replies@[j]),
        decreases outcomes.len() - i,
    {
        match outcomes[i] {
            Some(reply) => {
                replies.push(reply);
            },
            None => {
                return Err(RoundError::Unreachable { acceptor: i });
            },
        }
        i = i + 1;
    }
    Ok(replies)
}

/// The mathematical state of a proposer.
pub struct ProposerState {
    /// The number of the last round begun; 0 before the first.
    pub propose_number: u64,
    /// What tells this proposer's ballots from those of any other.
    pub proposer_id: u64,
    /// The acceptors, in the order in which they are asked.
    pub acceptor_addrs: Seq<&'static str>,
}

impl ProposerState {
    /// The ballot of the round that `begin_round` would begin.
    pub open spec fn next_ballot(self) -> BallotID {
        BallotID {
            propose_number: (self.propose_number + 1) as u64,
            proposer_id: self.proposer_id,
        }
    }

    /// The state once that round is begun.
    pub open spec fn after_round(self) -> ProposerState {
        ProposerState { propose_number: (self.propose_number + 1) as u64, ..self }
    }

    /// The decision after phase one of a round that sent `proposal`: with a
    /// quorum of promises phase two follows, carrying the prevailing earlier
    /// value if there is one; without, the round fails.
    pub open spec fn after_promises(
        self,
        proposal: Proposal,
        replies: Seq<ProposeReply>,
    ) -> RoundStep {
        if reaches_quorum(granted(replies), self.acceptor_addrs.len()) {
            RoundStep::SendAccept(phase_two_proposal(proposal, replies))
        } else {
            RoundStep::Finish(PaxosProposalStatus::Fail)
        }
    }

    /// The result of a round after phase two.
    pub open spec fn after_acceptances(self, replies: Seq<AcceptReply>) -> PaxosProposalStatus {
        if reaches_quorum(granted(replies), self.acceptor_addrs.len()) {
            PaxosProposalStatus::Okay
        } else {
            PaxosProposalStatus::Fail
        }
    }
}

/// A proposer: the counter of its rounds, its identifier, and the acceptors
/// it turns to. The counter belongs to this one value; `&mut self` keeps two
/// rounds from drawing the same ballot.
pub struct PaxosProposer {
    propose_number: u64,
    proposer_id: u64,
    acceptor_addrs: Vec<&'static str>,
}

impl View for PaxosProposer {
    type V = ProposerState;

    closed spec fn view(&self) -> ProposerState {
        ProposerState {
            propose_number: self.propose_number,
            proposer_id: self.proposer_id,
            acceptor_addrs: self.acceptor_addrs@,
        }
    }
}

impl PaxosProposer {
    /// A proposer that has begun no round yet.
    pub fn new(proposer_id: u64, acceptor_addrs: Vec<&'static str>) -> (proposer: Self)
        ensures
            proposer@ == (ProposerState {
                propose_number: 0,
                proposer_id,
                acceptor_addrs: acceptor_addrs@,
            }),
    {
        PaxosProposer { propose_number: 0, proposer_id, acceptor_addrs }
    }

    /// The number of the last round begun; 0 before the first.
    pub fn propose_number(&self) -> (number: u64)
        ensures
            number == self@.propose_number,
    {
        self.propose_number
    }

    /// This proposer's identifier.
    pub fn proposer_id(&self) -> (id: u64)
        ensures
            id == self@.proposer_id,
    {
        self.proposer_id
    }

    /// The acceptors, in the order in which they are asked.
    pub fn acceptor_addrs(&self) -> (addrs: &Vec<&'static str>)
        ensures
            addrs@ == self@.acceptor_addrs,
    {
        &self.acceptor_addrs
    }

    /// The threshold of this proposer's acceptors, `floor(n / 2) + 1`.
    pub fn quorum_size(&self) -> (size: usize)
        ensures
            size == quorum_size(self@.acceptor_addrs.len()),
    {
        self.acceptor_addrs.len() / 2 + 1
    }

    /// Begins a round for `value`: draws the next ballot and hands out the
    /// proposal to send to every acceptor for phase one.
    pub fn begin_round(&mut self, value: u64) -> (proposal: Proposal)
        requires
            old(self)@.propose_number < u64::MAX,
        ensures
            final(self)@ == old(self)@.after_round(),
            proposal == (Proposal { ballot: old(self)@.next_ballot(), value: Some(value) }),
            proposal.ballot.propose_number == final(self)@.propose_number,
    {
        self.propose_number = self.propose_number + 1;
        let ballot = BallotID::new(self.propose_number, self.proposer_id);
        Proposal { ballot, value: Some(value) }
    }

    /// Decides what follows phase one of the round that sent `proposal`,
    /// given the replies of the acceptors, one from each.
    pub fn after_promises(
        &self,
        proposal: Proposal,
        replies: &Vec<ProposeReply>,
    ) -> (step: RoundStep)
        requires
            replies@.len() == self@.acceptor_addrs.len(),
        ensures
            step == self@.after_promises(proposal, replies@),
    {
        if count_granted(replies) > self.quorum_size() {
            match select_history(replies) {
                Some(Proposal { ballot: _, value: Some(value) }) => RoundStep::SendAccept(
                    Proposal { ballot: proposal.ballot, value: Some(value) },
                ),
                _ => RoundStep::SendAccept(proposal),
            }
        } else {
            RoundStep::Finish(PaxosProposalStatus::Fail)
        }
    }

    /// Decides the round's result after phase two, given the replies of the
    /// acceptors, one from each.
    pub fn after_acceptances(&self, replies: &Vec<AcceptReply>) -> (status: PaxosProposalStatus)
        requires
            replies@.len() == self@.acceptor_addrs.len(),
        ensures
            status == self@.after_acceptances(replies@),
    {
        if count_granted(replies) > self.quorum_size() {
            PaxosProposalStatus::Okay
        } else {
            PaxosProposalStatus::Fail
        }
    }

    /// Phase one is over: takes one outcome for each acceptor, in the order
    /// of the addresses, and decides what follows. An acceptor that could
    /// not be reached, or was not asked any more, fails the round with an
    /// error, whatever the others answered.
    pub fn on_propose_replies(
        &self,
        proposal: Proposal,
        outcomes: &Vec<Option<ProposeReply>>,
    ) -> (step: Result<RoundStep, RoundError>)
        requires
            outcomes@.len() == self@.acceptor_addrs.len(),
        ensures
            match step {
                Ok(next) => every_reached(outcomes@) && next == self@.after_promises(
                    proposal,
                    replies_of(outcomes@),
                ),
                Err(RoundError::Unreachable { acceptor }) => first_unreachable(
                    outcomes@,
                    acceptor as int,
                ),
            },
    {
        match gather(outcomes) {
            Ok(replies) => Ok(self.after_promises(proposal, &replies)),
            Err(fault) => Err(fault),
        }
    }

    /// Phase two is over: takes one outcome for each acceptor, in the order
    /// of the addresses, and decides the round's result. An acceptor that
    /// could not be reached, or was not asked any more, fails the round with
    /// an error, whatever the others answered.
    pub fn on_accept_replies(
        &self,
        outcomes: &Vec<Option<AcceptReply>>,
    ) -> (status: Result<PaxosProposalStatus, RoundError>)
        requires
            outcomes@.len() == self@.acceptor_addrs.len(),
        ensures
            match status {
                Ok(result) => every_reached(outcomes@) && result == self@.after_acceptances(
                    replies_of(outcomes@),
                ),
                Err(RoundError::Unreachable { acceptor }) => first_unreachable(
                    outcomes@,
                    acceptor as int,
                ),
            },
    {
        match gather(outcomes) {
            Ok(replies) => Ok(self.after_acceptances(&replies)),
            Err(fault) => Err(fault),
        }
    }
}

/// The ballots of one proposer rise strictly from round to round, and each
/// lies above every ballot that the proposer has drawn before.
pub proof fn lemma_rounds_rise(state: ProposerState, earlier: BallotID)
    requires
        state.propose_number < u64::MAX,
        earlier.proposer_id == state.proposer_id,
        earlier.propose_number <= state.propose_number,
    ensures
        ballot_lt(earlier, state.next_ballot()),
        state.after_round().propose_number == state.propose_number + 1,
        state.after_round().propose_number < u64::MAX ==> ballot_lt(
            state.next_ballot(),
            state.after_round().next_ballot(),
        ),
{
}

/// Ballots of different proposers differ, whatever their round numbers.
pub proof fn lemma_proposers_never_collide(a: ProposerState, b: ProposerState)
    requires
        a.proposer_id != b.proposer_id,
    ensures
        a.next_ballot() != b.next_ballot(),
        ballot_lt(a.next_ballot(), b.next_ballot()) || ballot_lt(b.next_ballot(), a.next_ballot()),
{
}

} // verus!
