//! Ballots: the identifiers that order competing rounds.

use std::cmp::Ordering;
use vstd::prelude::*;

verus! {

/// Identifies one round of one proposer. Ballots are ordered by
/// `propose_number` first and by `proposer_id` second, so two proposers that
/// pick the same number are still told apart.
#[derive(Debug, Clone, Copy, PartialEq, Eq, Structural, Ord)]
pub struct BallotID {
    pub propose_number: u64,
    pub proposer_id: u64,
}

/// `a` comes strictly before `b`.
pub open spec fn ballot_lt(a: BallotID, b: BallotID) -> bool {
    a.propose_number < b.propose_number || (a.propose_number == b.propose_number
        && a.proposer_id < b.proposer_id)
}

/// `a` comes before `b` or is `b`.
pub open spec fn ballot_le(a: BallotID, b: BallotID) -> bool {
    ballot_lt(a, b) || a == b
}

/// How `a` stands to `b` in the order of ballots.
pub open spec fn ballot_order(a: BallotID, b: BallotID) -> Ordering {
    if ballot_lt(a, b) {
        Ordering::Less
    } else if a == b {
        Ordering::Equal
    } else {
        Ordering::Greater
    }
}

impl BallotID {
    /// The least ballot, `(0, 0)`: what an acceptor holds before any round.
    pub open spec fn zero() -> BallotID {
        BallotID { propose_number: 0, proposer_id: 0 }
    }

    /// The ballot of round `propose_number` of proposer `proposer_id`.
    pub fn new(propose_number: u64, proposer_id: u64) -> (ballot: Self)
        ensures
            ballot == (BallotID { propose_number, proposer_id }),
    {
        BallotID { propose_number, proposer_id }
    }

    /// Compares by `propose_number`, then by `proposer_id`.
    pub fn cmp(&self, other: &BallotID) -> (order: Ordering)
        ensures
            order == ballot_order(*self, *other),
    {
        if self.propose_number < other.propose_number {
            Ordering::Less
        } else if self.propose_number > other.propose_number {
            Ordering::Greater
        } else if self.proposer_id < other.proposer_id {
            Ordering::Less
        } else if self.proposer_id > other.proposer_id {
            Ordering::Greater
        } else {
            Ordering::Equal
        }
    }
}

impl Default for BallotID {
    /// The least ballot.
    fn default() -> (ballot: Self)
        ensures
            ballot == BallotID::zero(),
    {
        BallotID { propose_number: 0, proposer_id: 0 }
    }
}

impl PartialOrd for BallotID {
    fn partial_cmp(&self, other: &BallotID) -> (order: Option<Ordering>) {
        Some(self.cmp(other))
    }
}

impl vstd::std_specs::cmp::PartialOrdSpecImpl for BallotID {
    open spec fn obeys_partial_cmp_spec() -> bool {
        true
    }

    open spec fn partial_cmp_spec(&self, other: &BallotID) -> Option<Ordering> {
        Some(ballot_order(*self, *other))
    }
}

/// A smaller round number decides the order, whatever the proposers are.
pub proof fn lemma_number_decides(a: BallotID, b: BallotID)
    requires
        a.propose_number < b.propose_number,
    ensures
        ballot_lt(a, b),
        !ballot_lt(b, a),
        a != b,
        ballot_order(a, b) == Ordering::Less,
        ballot_order(b, a) == Ordering::Greater,
{
}

/// Between ballots of one round number the proposers' identifiers decide.
pub proof fn lemma_proposer_breaks_ties(a: BallotID, b: BallotID)
    requires
        a.propose_number == b.propose_number,
    ensures
        ballot_lt(a, b) <==> a.proposer_id < b.proposer_id,
        a == b <==> a.proposer_id == b.proposer_id,
        ballot_lt(b, a) <==> a.proposer_id > b.proposer_id,
{
}

/// Equality of ballots is reflexive, symmetric and transitive, and holds
/// exactly of ballots whose two keys agree.
pub proof fn lemma_equality_is_equivalence(a: BallotID, b: BallotID, c: BallotID)
    ensures
        a == a,
        a == b ==> b == a,
        a == b && b == c ==> a == c,
        a == b <==> a.propose_number == b.propose_number && a.proposer_id == b.proposer_id,
        a == b <==> ballot_order(a, b) == Ordering::Equal,
{
}

/// The order of ballots is strict and total: no ballot precedes itself, the
/// order is transitive, and of two different ballots exactly one precedes
/// the other.
pub proof fn lemma_order_is_strict_total(a: BallotID, b: BallotID, c: BallotID)
    ensures
        !ballot_lt(a, a),
        ballot_lt(a, b) ==> !ballot_lt(b, a),
        ballot_lt(a, b) && ballot_lt(b, c) ==> ballot_lt(a, c),
        ballot_lt(a, b) || a == b || ballot_lt(b, a),
        ballot_le(a, b) <==> !ballot_lt(b, a),
        ballot_le(a, b) && ballot_le(b, c) ==> ballot_le(a, c),
        ballot_le(BallotID::zero(), a),
{
}

} // verus!
