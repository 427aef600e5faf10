//! What phase one tells a proposer of earlier rounds: which of the proposals
//! that the replies carry prevails, and what phase two carries in consequence.

use crate::ballot::{ballot_le, ballot_lt};
use crate::message::{Proposal, ProposeReply};
use vstd::prelude::*;

verus! {

/// `newer` takes precedence over `older` as the record of what was accepted
/// before: its ballot is greater or, with equal ballots, it alone holds a
/// value.
pub open spec fn supersedes(newer: Proposal, older: Proposal) -> bool {
    ballot_lt(older.ballot, newer.ballot) || (newer.ballot == older.ballot && newer.value is Some
        && older.value is None)
}

/// The reply at `index` carries the proposal that prevails among all that
/// the replies carry: it supersedes each one carried before it, and none
/// carried after it supersedes it. Of several proposals that share the
/// greatest ballot, the first that holds a value prevails, or the first of
/// them where none holds one.
pub open spec fn prevails_at(replies: Seq<ProposeReply>, index: int) -> bool {
    &&& 0 <= index < replies.len()
    &&& replies[index].accepted_proposal is Some
    &&& forall|j: int|
        0 <= j < index && (#[trigger] replies[j]).accepted_proposal is Some ==> supersedes(
            replies[index].accepted_proposal->0,
            replies[j].accepted_proposal->0,
        )
    &&& forall|j: int|
        index < j < replies.len() && (#[trigger] replies[j]).accepted_proposal is Some
            ==> !supersedes(replies[j].accepted_proposal->0, replies[index].accepted_proposal->0)
}

/// Some reply carries a proposal.
pub open spec fn carries_any(replies: Seq<ProposeReply>) -> bool {
    exists|i: int| 0 <= i < replies.len() && (#[trigger] replies[i]).accepted_proposal is Some
}

/// The proposal of greatest ballot among those that the replies carry, if
/// any reply carries one.
pub open spec fn history(replies: Seq<ProposeReply>) -> Option<Proposal> {
    if exists|i: int| prevails_at(replies, i) {
        replies[choose|i: int| prevails_at(replies, i)].accepted_proposal
    } else {
        None
    }
}

/// What phase two carries: the ballot of `proposal`, with the value of the
/// prevailing earlier proposal where that holds one, and the proposer's own
/// value otherwise.
pub open spec fn phase_two_proposal(proposal: Proposal, replies: Seq<ProposeReply>) -> Proposal {
    match history(replies) {
        Some(earlier) if earlier.value is Some => Proposal {
            ballot: proposal.ballot,
            value: earlier.value,
        },
        _ => proposal,
    }
}

/// At most one reply carries the prevailing proposal.
pub proof fn lemma_prevailing_is_unique(replies: Seq<ProposeReply>, i: int, j: int)
    requires
        prevails_at(replies, i),
        prevails_at(replies, j),
    ensures
        i == j,
        history(replies) == replies[i].accepted_proposal,
{
}

/// Where any reply carries a proposal, one of them prevails; where none
/// does, there is no history.
pub proof fn lemma_prevailing_exists(replies: Seq<ProposeReply>) -> (index: int)
    ensures
        carries_any(replies) ==> prevails_at(replies, index) && history(replies)
            == replies[index].accepted_proposal,
        !carries_any(replies) ==> history(replies) is None,
        history(replies) is Some <==> carries_any(replies),
    decreases replies.len(),
{
    if !carries_any(replies) {
        0
    } else {
        let last = replies.len() - 1;
        let front = replies.drop_last();
        let witness = choose|i: int|
            0 <= i < replies.len() && (#[trigger] replies[i]).accepted_proposal is Some;
        let earlier = lemma_prevailing_exists(front);
        let index = if !carries_any(front) {
            assert(replies[last].accepted_proposal is Some) by {
                if witness < last {
                    assert(front[witness].accepted_proposal is Some);
                }
            }
            assert forall|j: int| 0 <= j < last implies (#[trigger] replies[j]).accepted_proposal
                is None by {
                assert(front[j] == replies[j]);
            }
            last
        } else if replies[last].accepted_proposal is Some && supersedes(
            replies[last].accepted_proposal->0,
            front[earlier].accepted_proposal->0,
        ) {
            assert forall|j: int|
                0 <= j < last && (#[trigger] replies[j]).accepted_proposal
                    is Some implies supersedes(
                replies[last].accepted_proposal->0,
                replies[j].accepted_proposal->0,
            ) by {
                assert(front[j] == replies[j]);
            }
            last
        } else {
            assert forall|j: int|
                0 <= j < earlier && (#[trigger] replies[j]).accepted_proposal
                    is Some implies supersedes(
                replies[earlier].accepted_proposal->0,
                replies[j].accepted_proposal->0,
            ) by {
                assert(front[j] == replies[j]);
            }
            assert forall|j: int|
                earlier < j < replies.len() && (#[trigger] replies[j]).accepted_proposal
                    is Some implies !supersedes(
                replies[j].accepted_proposal->0,
                replies[earlier].accepted_proposal->0,
            ) by {
                if j < last {
                    assert(front[j] == replies[j]);
                }
            }
            earlier
        };
        lemma_prevailing_is_unique(replies, index, index);
        index
    }
}

/// Picks, among the proposals that the replies carry, the one of greatest
/// ballot; `None` where no reply carries one.
pub fn select_history(replies: &Vec<ProposeReply>) -> (chosen: Option<Proposal>)
    ensures
        chosen == history(replies@),
        chosen is Some <==> carries_any(replies@),
{
    let mut chosen: Option<Proposal> = None;
    let ghost mut at: int = 0;
    let mut i: usize = 0;
    while i < replies.len()
        invariant
            i <= replies.len(),
            chosen is None ==> forall|j: int|
                0 <= j < i ==> (#[trigger] replies@[j]).accepted_proposal is None,
            chosen is Some ==> {
                &&& 0 <= at < i
                &&& replies@[at].accepted_proposal == chosen
                &&& forall|j: int|
                    0 <= j < at && (#[trigger] replies@[j]).accepted_proposal is Some
                        ==> supersedes(chosen->0, replies@[j].accepted_proposal->0)
                &&& forall|j: int|
                    at < j < i && (#[trigger] replies@[j]).accepted_proposal is Some
                        ==> !supersedes(replies@[j].accepted_proposal->0, chosen->0)
            },
        decreases replies.len() - i,
    {
        match replies[i].accepted_proposal {
            None => {},
            Some(carried) => {
                let take = match chosen {
                    None => true,
                    Some(best) => best.ballot < carried.ballot || (best.ballot == carried.ballot
                        && carried.value.is_some() && best.value.is_none()),
                };
                if take {
                    chosen = Some(carried);
                    proof {
                        at = i as int;
                    }
                }
            },
        }
        i = i + 1;
    }
    proof {
        if chosen is Some {
            lemma_prevailing_is_unique(replies@, at, at);
        } else {
            lemma_prevailing_exists(replies@);
        }
    }
    chosen
}

/// Value preservation. Where some reply carries a value under a ballot that
/// no carried ballot exceeds, and every value carried under that same ballot
/// is this value, phase two carries this value and never the proposer's own.
pub proof fn lemma_earlier_value_is_kept(
    proposal: Proposal,
    replies: Seq<ProposeReply>,
    holder: int,
)
    requires
        0 <= holder < replies.len(),
        replies[holder].accepted_proposal is Some,
        replies[holder].accepted_proposal->0.value is Some,
        forall|j: int|
            0 <= j < replies.len() && (#[trigger] replies[j]).accepted_proposal is Some ==> {
                let carried = replies[j].accepted_proposal->0;
                let held = replies[holder].accepted_proposal->0;
                &&& ballot_le(carried.ballot, held.ballot)
                &&& carried.ballot == held.ballot && carried.value is Some ==> carried.value
                    == held.value
            },
    ensures
        phase_two_proposal(proposal, replies) == (Proposal {
            ballot: proposal.ballot,
            value: replies[holder].accepted_proposal->0.value,
        }),
{
    lemma_prevailing_exists(replies);
}

/// Where no reply carries a value, phase two carries the proposer's own
/// proposal.
pub proof fn lemma_own_value_without_history(proposal: Proposal, replies: Seq<ProposeReply>)
    requires
        forall|j: int|
            0 <= j < replies.len() && (#[trigger] replies[j]).accepted_proposal is Some
                ==> replies[j].accepted_proposal->0.value is None,
    ensures
        phase_two_proposal(proposal, replies) == proposal,
{
    lemma_prevailing_exists(replies);
}

} // verus!
