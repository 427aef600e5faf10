//! A whole round of a proposer against acceptors that live in the same
//! process, where every acceptor is reached: what such a round comes to, and
//! the functions that run it.

use crate::acceptor::{AcceptorState, PaxosAcceptorInner};
use crate::ballot::{ballot_lt, BallotID};
use crate::history::{lemma_earlier_value_is_kept, lemma_own_value_without_history};
use crate::message::{AcceptReply, PaxosProposalStatus, PhaseStatus, Proposal, ProposeReply};
use crate::proposer::{PaxosProposer, ProposerState, RoundStep};
use crate::quorum::lemma_granted_bounded;
use vstd::prelude::*;

verus! {

/// The answers of the acceptors to a phase-one request under `ballot`.
pub open spec fn propose_replies(
    states: Seq<AcceptorState>,
    ballot: BallotID,
) -> Seq<ProposeReply> {
    Seq::new(states.len(), |i: int| states[i].propose_reply(ballot))
}

/// The acceptors after that request.
pub open spec fn after_propose(states: Seq<AcceptorState>, ballot: BallotID) -> Seq<AcceptorState> {
    Seq::new(states.len(), |i: int| states[i].after_propose(ballot))
}

/// The answers of the acceptors to a phase-two request under `ballot`.
pub open spec fn accept_replies(states: Seq<AcceptorState>, ballot: BallotID) -> Seq<AcceptReply> {
    Seq::new(states.len(), |i: int| states[i].accept_reply(ballot))
}

/// The acceptors after a phase-two request for `value` under `ballot`.
pub open spec fn after_accept(
    states: Seq<AcceptorState>,
    ballot: BallotID,
    value: u64,
) -> Seq<AcceptorState> {
    Seq::new(states.len(), |i: int| states[i].after_accept(ballot, value))
}

/// How a round ends and where it leaves the acceptors.
pub struct RoundOutcome {
    pub status: PaxosProposalStatus,
    pub states: Seq<AcceptorState>,
}

/// The round that `proposer` begins next for `value`, run against acceptors
/// in `states`, all of them reached in both phases.
pub open spec fn round(
    proposer: ProposerState,
    value: u64,
    states: Seq<AcceptorState>,
) -> RoundOutcome {
    let ballot = proposer.next_ballot();
    let promised = after_propose(states, ballot);
    match proposer.after_promises(
        Proposal { ballot, value: Some(value) },
        propose_replies(states, ballot),
    ) {
        RoundStep::Finish(status) => RoundOutcome { status, states: promised },
        RoundStep::SendAccept(proposal) => RoundOutcome {
            status: proposer.after_acceptances(accept_replies(promised, ballot)),
            states: after_accept(promised, ballot, proposal.value->0),
        },
    }
}

/// The states of the acceptors, in order.
pub open spec fn states_of(acceptors: Seq<PaxosAcceptorInner>) -> Seq<AcceptorState> {
    Seq::new(acceptors.len(), |i: int| acceptors[i]@)
}

/// Phase one against acceptors held in this process: hands `proposal` to
/// each in turn and collects the replies in the same order.
pub fn request_promises(
    acceptors: &mut Vec<PaxosAcceptorInner>,
    proposal: Proposal,
) -> (replies: Vec<ProposeReply>)
    ensures
        replies@ == propose_replies(states_of(old(acceptors)@), proposal.ballot),
        states_of(final(acceptors)@) == after_propose(
            states_of(old(acceptors)@),
            proposal.ballot,
        ),
{
    let mut replies: Vec<ProposeReply> = Vec::new();
    let mut i: usize = 0;
    while i < acceptors.len()
        invariant
            i <= acceptors.len(),
            acceptors@.len() == old(acceptors)@.len(),
            replies@.len() == i,
            forall|j: int|
                0 <= j < i ==> replies@[j] == (#[trigger] old(acceptors)@[j])@.propose_reply(
                    proposal.ballot,
                ),
            forall|j: int|
                0 <= j < i ==> (#[trigger] acceptors@[j])@ == old(acceptors)@[j]@.after_propose(
                    proposal.ballot,
                ),
            forall|j: int|
                i <= j < acceptors.len() ==> (#[trigger] acceptors@[j]) == old(acceptors)@[j],
        decreases acceptors.len() - i,
    {
        let reply = acceptors[i].on_propose(proposal);
        replies.push(reply);
        i = i + 1;
    }
    replies
}

/// Phase two against acceptors held in this process: hands `proposal`,
/// which holds a value, to each in turn and collects the replies in the same
/// order.
pub fn request_acceptances(
    acceptors: &mut Vec<PaxosAcceptorInner>,
    proposal: Proposal,
) -> (replies: Vec<AcceptReply>)
    requires
        proposal.value is Some,
    ensures
        replies@ == accept_replies(states_of(old(acceptors)@), proposal.ballot),
        states_of(final(acceptors)@) == after_accept(
            states_of(old(acceptors)@),
            proposal.ballot,
            proposal.value->0,
        ),
{
    let mut replies: Vec<AcceptReply> = Vec::new();
    let mut i: usize = 0;
    while i < acceptors.len()
        invariant
            i <= acceptors.len(),
            proposal.value is Some,
            acceptors@.len() == old(acceptors)@.len(),
            replies@.len() == i,
            forall|j: int|
                0 <= j < i ==> replies@[j] == (#[trigger] old(acceptors)@[j])@.accept_reply(
                    proposal.ballot,
                ),
            forall|j: int|
                0 <= j < i ==> (#[trigger] acceptors@[j])@ == old(acceptors)@[j]@.after_accept(
                    proposal.ballot,
                    proposal.value->0,
                ),
            forall|j: int|
                i <= j < acceptors.len() ==> (#[trigger] acceptors@[j]) == old(acceptors)@[j],
        decreases acceptors.len() - i,
    {
        let reply = acceptors[i].on_accept(proposal);
        replies.push(reply);
        i = i + 1;
    }
    replies
}

/// One whole round for `value` against the proposer's acceptors, all held in
/// this process: draws the next ballot, runs phase one, and, where that
/// passes, runs phase two with the value that phase one settled on.
pub fn run_round(
    proposer: &mut PaxosProposer,
    value: u64,
    acceptors: &mut Vec<PaxosAcceptorInner>,
) -> (status: PaxosProposalStatus)
    requires
        old(proposer)@.propose_number < u64::MAX,
        old(acceptors)@.len() == old(proposer)@.acceptor_addrs.len(),
    ensures
        final(proposer)@ == old(proposer)@.after_round(),
        status == round(old(proposer)@, value, states_of(old(acceptors)@)).status,
        states_of(final(acceptors)@) == round(
            old(proposer)@,
            value,
            states_of(old(acceptors)@),
        ).states,
{
    let proposal = proposer.begin_round(value);
    let promises = request_promises(acceptors, proposal);
    match proposer.after_promises(proposal, &promises) {
        RoundStep::Finish(status) => status,
        RoundStep::SendAccept(chosen) => {
            let acceptances = request_acceptances(acceptors, chosen);
            proposer.after_acceptances(&acceptances)
        },
    }
}

/// Every acceptor holds `value` under `ballot`, which is also the highest
/// ballot it has seen.
pub open spec fn all_hold(states: Seq<AcceptorState>, ballot: BallotID, value: u64) -> bool {
    forall|i: int|
        0 <= i < states.len() ==> (#[trigger] states[i]) == (AcceptorState {
            highest_number: ballot,
            accepted_number: ballot,
            accepted_value: Some(value),
        })
}

/// Among three or more acceptors that have accepted nothing, a round
/// succeeds and leaves the proposer's own value with every acceptor. (With
/// fewer than three acceptors no round succeeds.)
pub proof fn lemma_first_round_decides(
    proposer: ProposerState,
    value: u64,
    states: Seq<AcceptorState>,
)
    requires
        states.len() == proposer.acceptor_addrs.len(),
        states.len() >= 3,
        forall|i: int| 0 <= i < states.len() ==> (#[trigger] states[i]).accepted_value is None,
    ensures
        round(proposer, value, states).status == PaxosProposalStatus::Okay,
        all_hold(round(proposer, value, states).states, proposer.next_ballot(), value),
{
    let ballot = proposer.next_ballot();
    let own = Proposal { ballot, value: Some(value) };
    let replies = propose_replies(states, ballot);
    let promised = after_propose(states, ballot);
    lemma_granted_bounded(replies);
    lemma_own_value_without_history(own, replies);
    lemma_granted_bounded(accept_replies(promised, ballot));
}

/// Among three or more acceptors that all hold one value, accepted under
/// whatever ballots, a round under a ballot above all that they have seen
/// succeeds and leaves that same value with every acceptor, never the
/// proposer's own.
pub proof fn lemma_decided_value_survives(
    proposer: ProposerState,
    value: u64,
    states: Seq<AcceptorState>,
    decided: u64,
)
    requires
        states.len() == proposer.acceptor_addrs.len(),
        states.len() >= 3,
        forall|i: int|
            0 <= i < states.len() ==> (#[trigger] states[i]).accepted_value == Some(decided),
        forall|i: int|
            0 <= i < states.len() ==> ballot_lt(
                (#[trigger] states[i]).highest_number,
                proposer.next_ballot(),
            ),
    ensures
        forall|i: int|
            0 <= i < states.len() ==> (#[trigger] propose_replies(
                states,
                proposer.next_ballot(),
            )[i]) == (ProposeReply {
                status: PhaseStatus::Accept,
                accepted_proposal: Some(
                    Proposal { ballot: states[i].accepted_number, value: Some(decided) },
                ),
            }),
        proposer.after_promises(
            Proposal { ballot: proposer.next_ballot(), value: Some(value) },
            propose_replies(states, proposer.next_ballot()),
        ) == RoundStep::SendAccept(
            Proposal { ballot: proposer.next_ballot(), value: Some(decided) },
        ),
        round(proposer, value, states).status == PaxosProposalStatus::Okay,
        all_hold(round(proposer, value, states).states, proposer.next_ballot(), decided),
{
    let ballot = proposer.next_ballot();
    let own = Proposal { ballot, value: Some(value) };
    let replies = propose_replies(states, ballot);
    let promised = after_propose(states, ballot);
    lemma_granted_bounded(replies);
    let holder = lemma_greatest_exists(states);
    lemma_earlier_value_is_kept(own, replies, holder);
    lemma_granted_bounded(accept_replies(promised, ballot));
}

/// No acceptor has accepted under a ballot above that of the one at `index`.
spec fn tops(states: Seq<AcceptorState>, index: int) -> bool {
    &&& 0 <= index < states.len()
    &&& forall|j: int|
        0 <= j < states.len() ==> !ballot_lt(
            states[index].accepted_number,
            (#[trigger] states[j]).accepted_number,
        )
}

/// Among acceptors, one has accepted under a ballot that none exceeds.
proof fn lemma_greatest_exists(states: Seq<AcceptorState>) -> (index: int)
    requires
        states.len() > 0,
    ensures
        tops(states, index),
    decreases states.len(),
{
    if states.len() == 1 {
        0
    } else {
        let front = states.drop_last();
        let earlier = lemma_greatest_exists(front);
        let last = states.len() - 1;
        let index = if ballot_lt(states[earlier].accepted_number, states[last].accepted_number) {
            last
        } else {
            earlier
        };
        assert forall|j: int| 0 <= j < states.len() implies !ballot_lt(
            states[index].accepted_number,
            (#[trigger] states[j]).accepted_number,
        ) by {
            if j < last {
                assert(front[j] == states[j]);
            }
        }
        index
    }
}

} // verus!
