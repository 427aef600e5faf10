use compax::round::{request_acceptances, request_promises, run_round};
use compax::{
    AcceptReply, BallotID, PaxosAcceptorInner, PaxosProposalStatus, PaxosProposer, PhaseStatus,
    Proposal, ProposeReply, RoundStep,
};

fn acceptors(count: usize) -> Vec<PaxosAcceptorInner> {
    let mut all = Vec::new();
    for _ in 0..count {
        all.push(PaxosAcceptorInner::new());
    }
    all
}

fn proposer(id: u64) -> PaxosProposer {
    PaxosProposer::new(id, vec!["http://a", "http://b", "http://c"])
}

#[test]
fn single_proposer_reaches_agreement_among_three() {
    let mut cluster = acceptors(3);
    let mut one = proposer(1);
    assert_eq!(run_round(&mut one, 42, &mut cluster), PaxosProposalStatus::Okay);
    for acceptor in cluster.iter() {
        assert_eq!(acceptor.accepted_value(), Some(42));
        assert_eq!(acceptor.accepted_number(), BallotID::new(1, 1));
        assert_eq!(acceptor.highest_number(), BallotID::new(1, 1));
    }
}

#[test]
fn second_proposer_finalizes_the_value_already_chosen() {
    let mut cluster = acceptors(3);
    let mut one = proposer(1);
    let mut two = proposer(2);
    assert_eq!(run_round(&mut one, 42, &mut cluster), PaxosProposalStatus::Okay);

    let own = two.begin_round(7);
    assert_eq!(own, Proposal { ballot: BallotID::new(1, 2), value: Some(7) });
    let promises = request_promises(&mut cluster, own);
    for reply in promises.iter() {
        assert_eq!(reply.status, PhaseStatus::Accept);
        let carried = reply.accepted_proposal.unwrap();
        assert_eq!(carried.value, Some(42));
        assert_eq!(carried.ballot, BallotID::new(1, 1));
        assert!(carried.ballot > BallotID::default());
    }
    let step = two.after_promises(own, &promises);
    let chosen = Proposal { ballot: BallotID::new(1, 2), value: Some(42) };
    assert_eq!(step, RoundStep::SendAccept(chosen));
    let acceptances = request_acceptances(&mut cluster, chosen);
    assert_eq!(two.after_acceptances(&acceptances), PaxosProposalStatus::Okay);
    for acceptor in cluster.iter() {
        assert_eq!(acceptor.accepted_value(), Some(42));
        assert_eq!(acceptor.accepted_number(), BallotID::new(1, 2));
    }
}

#[test]
fn second_proposer_round_as_a_whole_keeps_the_value() {
    let mut cluster = acceptors(3);
    let mut one = proposer(1);
    let mut two = proposer(2);
    assert_eq!(run_round(&mut one, 42, &mut cluster), PaxosProposalStatus::Okay);
    assert_eq!(run_round(&mut two, 7, &mut cluster), PaxosProposalStatus::Okay);
    for acceptor in cluster.iter() {
        assert_eq!(acceptor.accepted_value(), Some(42));
        assert_eq!(acceptor.accepted_number(), BallotID::new(1, 2));
    }
    assert_eq!(two.propose_number(), 1);
}

#[test]
fn later_round_carries_the_value_of_the_earlier_one() {
    let mut cluster = acceptors(3);
    let first = Proposal { ballot: BallotID::new(1, 1), value: Some(100) };
    for reply in request_promises(&mut cluster, first).iter() {
        assert_eq!(reply.status, PhaseStatus::Accept);
    }
    for reply in request_acceptances(&mut cluster, first).iter() {
        assert_eq!(reply.status, PhaseStatus::Accept);
    }

    let later = Proposal { ballot: BallotID::new(2, 2), value: Some(200) };
    let promises = request_promises(&mut cluster, later);
    let expected = ProposeReply {
        status: PhaseStatus::Accept,
        accepted_proposal: Some(Proposal { ballot: BallotID::new(1, 1), value: Some(100) }),
    };
    assert_eq!(promises, vec![expected, expected, expected]);
    let step = proposer(2).after_promises(later, &promises);
    assert_eq!(
        step,
        RoundStep::SendAccept(Proposal { ballot: BallotID::new(2, 2), value: Some(100) })
    );
    assert_ne!(step, RoundStep::SendAccept(later));
}

#[test]
fn competing_lower_ballot_loses_the_round() {
    let mut cluster = acceptors(3);
    let mut two = proposer(2);
    let mut one = proposer(1);
    assert_eq!(run_round(&mut two, 7, &mut cluster), PaxosProposalStatus::Okay);
    assert_eq!(run_round(&mut one, 9, &mut cluster), PaxosProposalStatus::Fail);
    for acceptor in cluster.iter() {
        assert_eq!(acceptor.accepted_value(), Some(7));
        assert_eq!(acceptor.accepted_number(), BallotID::new(1, 2));
        assert_eq!(acceptor.highest_number(), BallotID::new(1, 2));
    }
    assert_eq!(run_round(&mut one, 9, &mut cluster), PaxosProposalStatus::Okay);
    for acceptor in cluster.iter() {
        assert_eq!(acceptor.accepted_value(), Some(7));
        assert_eq!(acceptor.accepted_number(), BallotID::new(2, 1));
    }
}

#[test]
fn round_among_two_acceptors_fails_after_phase_one() {
    let mut cluster = acceptors(2);
    let mut one = PaxosProposer::new(1, vec!["http://a", "http://b"]);
    assert_eq!(run_round(&mut one, 42, &mut cluster), PaxosProposalStatus::Fail);
    for acceptor in cluster.iter() {
        assert_eq!(acceptor.highest_number(), BallotID::new(1, 1));
        assert_eq!(acceptor.accepted_value(), None);
    }
    assert_eq!(one.propose_number(), 1);
}

#[test]
fn fan_out_serves_each_acceptor_in_its_own_state() {
    let mut cluster = acceptors(3);
    cluster[1].on_accept(Proposal { ballot: BallotID::new(5, 5), value: Some(55) });
    let proposal = Proposal { ballot: BallotID::new(2, 1), value: Some(1) };
    let promises = request_promises(&mut cluster, proposal);
    let fresh = ProposeReply {
        status: PhaseStatus::Accept,
        accepted_proposal: Some(Proposal { ballot: BallotID::new(0, 0), value: None }),
    };
    let refusal = ProposeReply { status: PhaseStatus::Reject, accepted_proposal: None };
    assert_eq!(promises, vec![fresh, refusal, fresh]);
    let acceptances = request_acceptances(&mut cluster, proposal);
    assert_eq!(
        acceptances,
        vec![
            AcceptReply { status: PhaseStatus::Accept },
            AcceptReply { status: PhaseStatus::Reject },
            AcceptReply { status: PhaseStatus::Accept },
        ]
    );
    assert_eq!(cluster[0].accepted_value(), Some(1));
    assert_eq!(cluster[1].accepted_value(), Some(55));
    assert_eq!(cluster[2].accepted_value(), Some(1));
}

#[test]
fn five_acceptors_agree_and_keep_the_value() {
    let addresses = vec!["http://a", "http://b", "http://c", "http://d", "http://e"];
    let mut cluster = acceptors(5);
    let mut one = PaxosProposer::new(1, addresses.clone());
    let mut two = PaxosProposer::new(2, addresses);
    assert_eq!(run_round(&mut one, 100, &mut cluster), PaxosProposalStatus::Okay);
    assert_eq!(run_round(&mut two, 200, &mut cluster), PaxosProposalStatus::Okay);
    assert_eq!(run_round(&mut one, 300, &mut cluster), PaxosProposalStatus::Okay);
    for acceptor in cluster.iter() {
        assert_eq!(acceptor.accepted_value(), Some(100));
        assert_eq!(acceptor.accepted_number(), BallotID::new(2, 1));
        assert_eq!(acceptor.highest_number(), BallotID::new(2, 1));
    }
}

#[test]
fn one_stale_acceptor_of_five_does_not_stop_the_round() {
    let addresses = vec!["http://a", "http://b", "http://c", "http://d", "http://e"];
    let mut cluster = acceptors(5);
    cluster[4].on_accept(Proposal { ballot: BallotID::new(9, 9), value: Some(99) });
    let mut one = PaxosProposer::new(1, addresses);
    assert_eq!(run_round(&mut one, 5, &mut cluster), PaxosProposalStatus::Okay);
    for acceptor in cluster[..4].iter() {
        assert_eq!(acceptor.accepted_value(), Some(5));
        assert_eq!(acceptor.accepted_number(), BallotID::new(1, 1));
    }
    assert_eq!(cluster[4].accepted_value(), Some(99));
    assert_eq!(cluster[4].accepted_number(), BallotID::new(9, 9));
}

#[test]
fn two_stale_acceptors_of_five_fail_the_round_in_phase_one() {
    let addresses = vec!["http://a", "http://b", "http://c", "http://d", "http://e"];
    let mut cluster = acceptors(5);
    cluster[0].on_accept(Proposal { ballot: BallotID::new(9, 9), value: Some(99) });
    cluster[1].on_accept(Proposal { ballot: BallotID::new(9, 9), value: Some(99) });
    let mut one = PaxosProposer::new(1, addresses);
    assert_eq!(run_round(&mut one, 5, &mut cluster), PaxosProposalStatus::Fail);
    for acceptor in cluster[2..].iter() {
        assert_eq!(acceptor.accepted_value(), None);
        assert_eq!(acceptor.highest_number(), BallotID::new(1, 1));
    }
}
