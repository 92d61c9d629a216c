use nebgov::mock_votes::MockVotesContract;

#[test]
fn votes_default_to_zero() {
    let votes = MockVotesContract::new();
    let alice = String::from("GALICE");
    assert_eq!(votes.get_votes(&alice), 0);
    assert_eq!(votes.get_past_votes(&alice, 10), 0);
    assert_eq!(votes.get_past_total_supply(10), 0);
}

#[test]
fn votes_read_back_last_write() {
    let mut votes = MockVotesContract::new();
    let alice = String::from("GALICE");
    let bob = String::from("GBOB");
    votes.set_votes(alice.clone(), 500);
    votes.set_votes(bob.clone(), 70);
    votes.set_votes(alice.clone(), 1_000);
    assert_eq!(votes.get_votes(&alice), 1_000);
    assert_eq!(votes.get_past_votes(&alice, 3), 1_000);
    assert_eq!(votes.get_votes(&bob), 70);
    assert_eq!(votes.votes.len(), 2);
}

#[test]
fn total_supply_reads_back() {
    let mut votes = MockVotesContract::new();
    votes.set_total_supply(1_000_000);
    assert_eq!(votes.get_past_total_supply(0), 1_000_000);
    votes.set_total_supply(5);
    assert_eq!(votes.get_past_total_supply(99), 5);
}
