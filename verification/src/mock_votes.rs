use vstd::prelude::*;

verus! {

/// A stand-in for a voting-power contract: it reports whatever votes and
/// total supply were last set, for every ledger.
pub struct MockVotesContract {
    /// Each account that was given votes, with its votes; no account twice.
    pub votes: Vec<(String, i128)>,
    pub total_supply: Option<i128>,
}

impl MockVotesContract {
    /// No account appears twice.
    pub open spec fn wf(&self) -> bool {
        forall|i: int, j: int|
            0 <= i < self.votes@.len() && 0 <= j < self.votes@.len() && i != j
                ==> #[trigger] self.votes@[i].0@ != #[trigger] self.votes@[j].0@
    }

    /// The votes set for each account.
    pub open spec fn votes_map(&self) -> Map<Seq<char>, i128> {
        Map::new(
            |k: Seq<char>| exists|i: int| 0 <= i < self.votes@.len() && #[trigger] self.votes@[i].0@ == k,
            |k: Seq<char>|
                self.votes@[choose|i: int| 0 <= i < self.votes@.len() && #[trigger] self.votes@[i].0@ == k].1,
        )
    }

    /// The votes of `account`, zero when none were set.
    pub open spec fn votes_of(&self, account: Seq<char>) -> i128 {
        if self.votes_map().contains_key(account) {
            self.votes_map()[account]
        } else {
            0
        }
    }

    /// The total supply, zero when none was set.
    pub open spec fn supply(&self) -> i128 {
        match self.total_supply {
            Some(t) => t,
            None => 0,
        }
    }

    /// A contract in which nothing has been set.
    pub fn new() -> (s: Self)
        ensures
            s.wf(),
            s.votes_map() == Map::<Seq<char>, i128>::empty(),
            s.total_supply is None,
    {
        let s = MockVotesContract { votes: Vec::new(), total_supply: None };
        assert(s.votes_map() =~= Map::<Seq<char>, i128>::empty());
        s
    }

    /// Position of `account` in the list, if it was given votes.
    fn find(&self, account: &String) -> (r: Option<usize>)
        requires
            self.wf(),
        ensures
            r matches Some(i) ==> i < self.votes@.len() && self.votes@[i as int].0@ == account@,
            r is None ==> !self.votes_map().contains_key(account@),
    {
        let mut i: usize = 0;
        while i < self.votes.len()
            invariant
                i <= self.votes@.len(),
                forall|j: int| 0 <= j < i ==> #[trigger] self.votes@[j].0@ != account@,
            decreases self.votes@.len() - i,
        {
            if self.votes[i].0 == *account {
                return Some(i);
            }
            i = i + 1;
        }
        None
    }

    /// Sets the votes of `account`.
    pub fn set_votes(&mut self, account: String, votes: i128)
        requires
            old(self).wf(),
        ensures
            final(self).wf(),
            final(self).votes_map() == old(self).votes_map().insert(account@, votes),
            final(self).total_supply == old(self).total_supply,
    {
        let ghost key = account@;
        let ghost old_map = self.votes_map();
        match self.find(&account) {
            Some(i) => {
                proof {
                    assert(self.votes@[i as int].0@ == key);
                }
                self.votes.set(i, (account, votes));
                assert forall|k: Seq<char>| #[trigger] self.votes_map().contains_key(k) <==> old_map.insert(key, votes).contains_key(k) by {
                    if old_map.contains_key(k) {
                        let j = choose|j: int| 0 <= j < old(self).votes@.len() && #[trigger] old(self).votes@[j].0@ == k;
                        assert(self.votes@[j].0@ == k);
                    }
                    if k == key {
                        assert(self.votes@[i as int].0@ == k);
                    }
                }
                assert forall|k: Seq<char>| #[trigger] self.votes_map().contains_key(k) implies self.votes_map()[k] == old_map.insert(key, votes)[k] by {
                    let j = choose|j: int| 0 <= j < self.votes@.len() && #[trigger] self.votes@[j].0@ == k;
                    if k != key {
                        let j0 = choose|j: int| 0 <= j < old(self).votes@.len() && #[trigger] old(self).votes@[j].0@ == k;
                        assert(j0 != i);
                        assert(self.votes@[j0].0@ == k);
                    } else {
                        assert(self.votes@[i as int].0@ == k);
                    }
                }
                assert(self.votes_map() =~= old_map.insert(key, votes));
            },
            None => {
                self.votes.push((account, votes));
                let ghost n = self.votes@.len() - 1;
                assert forall|k: Seq<char>| #[trigger] self.votes_map().contains_key(k) <==> old_map.insert(key, votes).contains_key(k) by {
                    if old_map.contains_key(k) {
                        let j = choose|j: int| 0 <= j < old(self).votes@.len() && #[trigger] old(self).votes@[j].0@ == k;
                        assert(self.votes@[j].0@ == k);
                    }
                    if k == key {
                        assert(self.votes@[n].0@ == k);
                    }
                }
                assert forall|k: Seq<char>| #[trigger] self.votes_map().contains_key(k) implies self.votes_map()[k] == old_map.insert(key, votes)[k] by {
                    let j = choose|j: int| 0 <= j < self.votes@.len() && #[trigger] self.votes@[j].0@ == k;
                    if k != key {
                        let j0 = choose|j: int| 0 <= j < old(self).votes@.len() && #[trigger] old(self).votes@[j].0@ == k;
                        assert(self.votes@[j0].0@ == k);
                    } else {
                        assert(self.votes@[n].0@ == k);
                    }
                }
                assert(self.votes_map() =~= old_map.insert(key, votes));
            },
        }
    }

    /// Sets the total supply.
    pub fn set_total_supply(&mut self, total_supply: i128)
        requires
            old(self).wf(),
        ensures
            final(self).wf(),
            final(self).total_supply == Some(total_supply),
            final(self).votes@ == old(self).votes@,
    {
        self.total_supply = Some(total_supply);
    }

    /// The votes of `account`, zero when none were set.
    pub fn get_votes(&self, account: &String) -> (v: i128)
        requires
            self.wf(),
        ensures
            v == self.votes_of(account@),
    {
        match self.find(account) {
            Some(i) => {
                proof {
                    let j = choose|j: int| 0 <= j < self.votes@.len() && #[trigger] self.votes@[j].0@ == account@;
                    assert(j == i);
                }
                self.votes[i].1
            },
            None => 0,
        }
    }

    /// The votes of `account` at any ledger: its current votes.
    pub fn get_past_votes(&self, account: &String, _ledger: u32) -> (v: i128)
        requires
            self.wf(),
        ensures
            v == self.votes_of(account@),
    {
        self.get_votes(account)
    }

    /// The total supply at any ledger: the current total supply, zero when
    /// none was set.
    pub fn get_past_total_supply(&self, _ledger: u32) -> (t: i128)
        ensures
            t == self.supply(),
    {
        match self.total_supply {
            Some(t) => t,
            None => 0,
        }
    }
}

/// Reading an account's votes gives back what was last set for it, and
/// setting one account's votes leaves every other account's votes as they
/// were.
pub proof fn law_votes_read_back_last_write(
    before: MockVotesContract,
    after: MockVotesContract,
    account: Seq<char>,
    votes: i128,
    other: Seq<char>,
)
    requires
        after.votes_map() == before.votes_map().insert(account, votes),
    ensures
        after.votes_of(account) == votes,
        other != account ==> after.votes_of(other) == before.votes_of(other),
{
}

} // verus!
