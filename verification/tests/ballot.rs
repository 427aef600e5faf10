use compax::BallotID;
use std::cmp::Ordering;

#[test]
fn smaller_number_orders_first_whatever_the_proposer() {
    assert!(BallotID::new(1, 9) < BallotID::new(2, 0));
    assert!(BallotID::new(1, 0) < BallotID::new(2, 9));
    assert!(BallotID::new(2, 0) > BallotID::new(1, u64::MAX));
    assert!(!(BallotID::new(2, 0) < BallotID::new(1, 9)));
    assert!(BallotID::new(0, u64::MAX) < BallotID::new(u64::MAX, 0));
}

#[test]
fn equal_numbers_are_ordered_by_proposer() {
    assert!(BallotID::new(3, 1) < BallotID::new(3, 2));
    assert!(BallotID::new(3, 2) > BallotID::new(3, 1));
    assert!(BallotID::new(3, 2) <= BallotID::new(3, 2));
    assert!(BallotID::new(3, 2) >= BallotID::new(3, 2));
    assert!(!(BallotID::new(3, 2) < BallotID::new(3, 2)));
}

#[test]
fn equality_needs_both_keys() {
    let a = BallotID::new(4, 7);
    let b = BallotID::new(4, 7);
    let c = BallotID::new(4, 7);
    assert_eq!(a, a);
    assert_eq!(a, b);
    assert_eq!(b, a);
    assert_eq!(b, c);
    assert_eq!(a, c);
    assert_ne!(a, BallotID::new(4, 8));
    assert_ne!(a, BallotID::new(5, 7));
    assert_ne!(BallotID::new(1, 2), BallotID::new(2, 1));
}

#[test]
fn cmp_is_lexicographic() {
    assert_eq!(BallotID::new(1, 5).cmp(&BallotID::new(2, 1)), Ordering::Less);
    assert_eq!(BallotID::new(2, 1).cmp(&BallotID::new(1, 5)), Ordering::Greater);
    assert_eq!(BallotID::new(2, 1).cmp(&BallotID::new(2, 3)), Ordering::Less);
    assert_eq!(BallotID::new(2, 3).cmp(&BallotID::new(2, 1)), Ordering::Greater);
    assert_eq!(BallotID::new(2, 3).cmp(&BallotID::new(2, 3)), Ordering::Equal);
}

#[test]
fn partial_cmp_and_ord_agree_with_cmp() {
    let ballots = [
        BallotID::new(0, 0),
        BallotID::new(0, 1),
        BallotID::new(1, 0),
        BallotID::new(1, 1),
        BallotID::new(2, 0),
        BallotID::new(u64::MAX, u64::MAX),
    ];
    for a in ballots.iter() {
        for b in ballots.iter() {
            let order = a.cmp(b);
            assert_eq!(a.partial_cmp(b), Some(order));
            assert_eq!(Ord::cmp(a, b), order);
            assert_eq!(a < b, order == Ordering::Less);
            assert_eq!(a == b, order == Ordering::Equal);
            assert_eq!(a > b, order == Ordering::Greater);
        }
    }
}

#[test]
fn order_is_transitive_and_total_on_samples() {
    let ballots = [
        BallotID::new(1, 1),
        BallotID::new(1, 2),
        BallotID::new(2, 1),
        BallotID::new(2, 2),
        BallotID::new(3, 0),
    ];
    for a in ballots.iter() {
        for b in ballots.iter() {
            let related = [a < b, a == b, b < a];
            assert_eq!(related.iter().filter(|held| **held).count(), 1);
            for c in ballots.iter() {
                if a < b && b < c {
                    assert!(a < c);
                }
            }
        }
    }
}

#[test]
fn default_is_the_least_ballot() {
    let zero = BallotID::default();
    assert_eq!(zero, BallotID::new(0, 0));
    assert_eq!(zero.propose_number, 0);
    assert_eq!(zero.proposer_id, 0);
    assert!(zero <= BallotID::new(0, 0));
    assert!(zero < BallotID::new(0, 1));
    assert!(zero < BallotID::new(1, 0));
}

#[test]
fn new_keeps_its_arguments_apart() {
    let ballot = BallotID::new(100, 2);
    assert_eq!(ballot.propose_number, 100);
    assert_eq!(ballot.proposer_id, 2);
    assert_eq!(ballot.clone(), ballot);
    assert_eq!(std::cmp::max(BallotID::new(1, 2), BallotID::new(2, 1)), BallotID::new(2, 1));
}
