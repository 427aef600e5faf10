//! The quorum rule: how the granting answers of a phase are counted, and
//! what count lets the phase pass.

use crate::message::{AcceptReply, PhaseStatus, ProposeReply};
use vstd::prelude::*;

verus! {

/// An acceptor's answer to a request of either phase.
pub trait Answer {
    /// Whether the answer grants the request or rejects it.
    spec fn phase_status(&self) -> PhaseStatus;

    /// Whether the answer grants the request or rejects it.
    fn status(&self) -> (status: PhaseStatus)
        ensures
            status == self.phase_status(),
    ;
}

impl Answer for ProposeReply {
    open spec fn phase_status(&self) -> PhaseStatus {
        self.status
    }

    fn status(&self) -> (status: PhaseStatus) {
        self.status
    }
}

impl Answer for AcceptReply {
    open spec fn phase_status(&self) -> PhaseStatus {
        self.status
    }

    fn status(&self) -> (status: PhaseStatus) {
        self.status
    }
}

/// The threshold that the count of granting answers is held against:
/// `floor(acceptors / 2) + 1`.
pub open spec fn quorum_size(acceptors: nat) -> nat {
    acceptors / 2 + 1
}

/// A phase passes when strictly more than `quorum_size(acceptors)` answers
/// grant it. A count equal to the threshold does not pass: among three
/// acceptors all three have to grant.
pub open spec fn reaches_quorum(granted: nat, acceptors: nat) -> bool {
    granted > quorum_size(acceptors)
}

/// The answer grants the request.
pub open spec fn granting<A: Answer>(answer: A) -> bool {
    answer.phase_status() == PhaseStatus::Accept
}

/// `granting`, as a predicate to filter by.
pub open spec fn is_grant<A: Answer>() -> spec_fn(A) -> bool {
    |answer: A| granting(answer)
}

/// How many of the answers grant the request.
pub open spec fn granted<A: Answer>(answers: Seq<A>) -> nat {
    answers.filter(is_grant::<A>()).len()
}

/// Counts the answers that grant the request.
pub fn count_granted<A: Answer>(answers: &Vec<A>) -> (count: usize)
    ensures
        count == granted(answers@),
{
    let mut count: usize = 0;
    let mut i: usize = 0;
    assert(granted(answers@.take(0)) == 0) by {
        answers@.take(0).lemma_filter_len(is_grant::<A>());
    }
    while i < answers.len()
        invariant
            i <= answers.len(),
            count <= i,
            count == granted(answers@.take(i as int)),
        decreases answers.len() - i,
    {
        proof {
            assert(answers@.take(i + 1) == answers@.take(i as int).push(answers@[i as int]));
            answers@.take(i as int).lemma_filter_len_push(is_grant::<A>(), answers@[i as int]);
        }
        if answers[i].status() == PhaseStatus::Accept {
            count = count + 1;
        }
        i = i + 1;
    }
    assert(answers@.take(answers.len() as int) == answers@);
    count
}

/// The threshold lies just above the half, and a count that passes it is a
/// strict majority, so that two passing counts among the same acceptors
/// share an acceptor. With fewer than three acceptors no count passes.
pub proof fn lemma_quorum_is_majority(granted: nat, other: nat, acceptors: nat)
    requires
        granted <= acceptors,
        other <= acceptors,
    ensures
        2 * quorum_size(acceptors) > acceptors,
        quorum_size(acceptors) <= acceptors || acceptors == 0,
        reaches_quorum(granted, acceptors) ==> 2 * granted > acceptors + 2,
        reaches_quorum(granted, acceptors) && reaches_quorum(other, acceptors) ==> granted + other
            > acceptors,
        reaches_quorum(acceptors, acceptors) <==> acceptors >= 3,
        reaches_quorum(granted, acceptors) ==> acceptors >= 3,
{
}

/// The count of granting answers never exceeds the number of answers, and
/// equals it exactly when every answer grants.
pub proof fn lemma_granted_bounded<A: Answer>(answers: Seq<A>)
    ensures
        granted(answers) <= answers.len(),
        granted(answers) == answers.len() <==> forall|i: int|
            0 <= i < answers.len() ==> granting(#[trigger] answers[i]),
    decreases answers.len(),
{
    if answers.len() == 0 {
        answers.lemma_filter_len(is_grant::<A>());
    } else {
        let front = answers.drop_last();
        lemma_granted_bounded(front);
        assert(answers == front.push(answers.last()));
        front.lemma_filter_len_push(is_grant::<A>(), answers.last());
    }
}

} // verus!
