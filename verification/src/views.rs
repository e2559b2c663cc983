//! Reading the pool's stakes and proposals.
use vstd::prelude::*;
use crate::ordered_map::{has_key, inserted, key_index, keys_distinct, removed};
use crate::park::{proposal_names_unique, Contract};
use crate::proposals::{Proposal, ProposalView};
use crate::stake::{Stake, StakeView};

verus! {

/// The first proposal named `name` among the stakes `s`, in order.
pub open spec fn first_named(s: Seq<(Seq<char>, StakeView)>, name: Seq<char>) -> Option<ProposalView>
    decreases s.len(),
{
    if s.len() == 0 {
        None
    } else if s[0].1.proposal is Some && s[0].1.proposal.unwrap().name == name {
        s[0].1.proposal
    } else {
        first_named(s.drop_first(), name)
    }
}

/// Whether the stake entry `e` holds a proposal named `name`.
pub open spec fn holds_named(e: (Seq<char>, StakeView), name: Seq<char>) -> bool {
    e.1.proposal is Some && e.1.proposal.unwrap().name == name
}

/// There is no proposal named `name` exactly when no stake holds one.
pub proof fn lemma_first_named_none(s: Seq<(Seq<char>, StakeView)>, name: Seq<char>)
    ensures
        first_named(s, name) is None <==> forall|i: int| 0 <= i < s.len() ==> !holds_named(#[trigger] s[i], name),
    decreases s.len(),
{
    if s.len() > 0 {
        lemma_first_named_none(s.drop_first(), name);
        if first_named(s, name) is None {
            assert forall|i: int| 0 <= i < s.len() implies !holds_named(#[trigger] s[i], name) by {
                if i > 0 {
                    assert(s[i] == s.drop_first()[i - 1]);
                }
            }
        } else if !holds_named(s[0], name) {
            let i = choose|i: int| 0 <= i < s.drop_first().len() && holds_named(#[trigger] s.drop_first()[i], name);
            assert(s[i + 1] == s.drop_first()[i]);
        }
    }
}

/// Storing a stake keeps proposal names unique when a stake with a proposal
/// goes under a new key and its name is new.
pub proof fn lemma_inserted_names_unique(s: Seq<(Seq<char>, StakeView)>, k: Seq<char>, v: StakeView)
    requires
        keys_distinct(s),
        proposal_names_unique(s),
        v.proposal is Some ==> !has_key(s, k) && first_named(s, v.proposal.unwrap().name) is None,
    ensures
        proposal_names_unique(inserted(s, k, v)),
{
    let t = inserted(s, k, v);
    if v.proposal is Some {
        lemma_first_named_none(s, v.proposal.unwrap().name);
        assert forall|i: int, j: int|
            0 <= i < t.len() && 0 <= j < t.len() && i != j && (#[trigger] t[i]).1.proposal is Some
                && (#[trigger] t[j]).1.proposal is Some implies t[i].1.proposal.unwrap().name != t[j].1.proposal.unwrap().name by {
            if i < s.len() {
                assert(t[i] == s[i]);
            }
            if j < s.len() {
                assert(t[j] == s[j]);
            }
        }
    } else {
        assert forall|i: int, j: int|
            0 <= i < t.len() && 0 <= j < t.len() && i != j && (#[trigger] t[i]).1.proposal is Some
                && (#[trigger] t[j]).1.proposal is Some implies t[i].1.proposal.unwrap().name != t[j].1.proposal.unwrap().name by {
            if has_key(s, k) {
                let p = key_index(s, k);
                if i != p {
                    assert(t[i] == s[i]);
                }
                if j != p {
                    assert(t[j] == s[j]);
                }
            } else {
                if i < s.len() {
                    assert(t[i] == s[i]);
                }
                if j < s.len() {
                    assert(t[j] == s[j]);
                }
            }
        }
    }
}

/// Removing a stake keeps proposal names unique.
pub proof fn lemma_removed_names_unique(s: Seq<(Seq<char>, StakeView)>, k: Seq<char>)
    requires
        proposal_names_unique(s),
    ensures
        proposal_names_unique(removed(s, k)),
{
    if has_key(s, k) {
        let p = key_index(s, k);
        let n = s.len() - 1;
        let t = removed(s, k);
        assert forall|i: int, j: int|
            0 <= i < t.len() && 0 <= j < t.len() && i != j && (#[trigger] t[i]).1.proposal is Some
                && (#[trigger] t[j]).1.proposal is Some implies t[i].1.proposal.unwrap().name != t[j].1.proposal.unwrap().name by {
            let si = if i == p { n } else { i };
            let sj = if j == p { n } else { j };
            assert(t[i] == s[si]);
            assert(t[j] == s[sj]);
        }
    }
}

/// The proposals held by the stakes `s`, in order.
pub open spec fn all_proposals(s: Seq<(Seq<char>, StakeView)>) -> Seq<ProposalView>
    decreases s.len(),
{
    if s.len() == 0 {
        Seq::empty()
    } else {
        let rest = all_proposals(s.drop_last());
        match s.last().1.proposal {
            Some(p) => rest.push(p),
            None => rest,
        }
    }
}

/// The stakes among `s`, in order, that vote on proposal `pid`.
pub open spec fn stakes_for(s: Seq<(Seq<char>, StakeView)>, pid: Seq<char>) -> Seq<(Seq<char>, StakeView)>
    decreases s.len(),
{
    if s.len() == 0 {
        Seq::empty()
    } else {
        let rest = stakes_for(s.drop_last(), pid);
        if s.last().1.proposal_id == Some(pid) {
            rest.push(s.last())
        } else {
            rest
        }
    }
}

/// The stakes among `s`, in order, made by `staker`.
pub open spec fn stakes_of(s: Seq<(Seq<char>, StakeView)>, staker: Seq<char>) -> Seq<StakeView>
    decreases s.len(),
{
    if s.len() == 0 {
        Seq::empty()
    } else {
        let rest = stakes_of(s.drop_last(), staker);
        if s.last().1.staker_id == staker {
            rest.push(s.last().1)
        } else {
            rest
        }
    }
}

/// Key-stake pairs by their views.
pub open spec fn stake_pair_views(v: Seq<(String, Stake)>) -> Seq<(Seq<char>, StakeView)> {
    v.map_values(|e: (String, Stake)| (e.0@, e.1@))
}

/// Stakes by their views.
pub open spec fn stake_views(v: Seq<Stake>) -> Seq<StakeView> {
    v.map_values(|s: Stake| s@)
}

/// Proposals by their views.
pub open spec fn proposal_views(v: Seq<Proposal>) -> Seq<ProposalView> {
    v.map_values(|p: Proposal| p@)
}

impl Contract {
    /// The first proposal named `name`, in storage order.
    pub fn proposal_by_name(&self, name: String) -> (r: Option<Proposal>)
        ensures
            match r {
                Some(p) => first_named(self.stakes@, name@) == Some(p@),
                None => first_named(self.stakes@, name@) is None,
            },
    {
        let ghost s = self.stakes@;
        let n = self.stakes.len();
        assert(s.skip(0) =~= s);
        let mut i: usize = 0;
        while i < n
            invariant
                s == self.stakes@,
                n == s.len(),
                i <= n,
                first_named(s, name@) == first_named(s.skip(i as int), name@),
            decreases n - i,
        {
            let (_, st) = self.stakes.entry(i);
            assert(s.skip(i as int)[0] == s[i as int]);
            match &st.proposal {
                Some(p) => {
                    if p.name == name {
                        return Some(p.clone());
                    }
                },
                None => {},
            }
            assert(s.skip(i as int).drop_first() =~= s.skip(i + 1));
            i = i + 1;
        }
        assert(s.skip(i as int).len() == 0);
        None
    }

    /// All proposals, in storage order.
    pub fn proposals(&self) -> (r: Vec<Proposal>)
        ensures
            proposal_views(r@) == all_proposals(self.stakes@),
    {
        let ghost s = self.stakes@;
        let n = self.stakes.len();
        let mut r: Vec<Proposal> = Vec::new();
        let mut i: usize = 0;
        while i < n
            invariant
                s == self.stakes@,
                n == s.len(),
                i <= n,
                proposal_views(r@) == all_proposals(s.take(i as int)),
            decreases n - i,
        {
            let (_, st) = self.stakes.entry(i);
            let ghost before = r@;
            match &st.proposal {
                Some(p) => {
                    r.push(p.clone());
                    assert(proposal_views(r@) =~= proposal_views(before).push(p@));
                },
                None => {},
            }
            assert(s.take(i + 1).drop_last() =~= s.take(i as int));
            i = i + 1;
        }
        assert(s.take(n as int) =~= s);
        r
    }

    /// All stakes with their keys, in storage order.
    pub fn stakes(&self) -> (r: Vec<(String, Stake)>)
        ensures
            stake_pair_views(r@) == self.stakes@,
    {
        let n = self.stakes.len();
        let mut r: Vec<(String, Stake)> = Vec::new();
        let mut i: usize = 0;
        while i < n
            invariant
                n == self.stakes@.len(),
                i <= n,
                stake_pair_views(r@) == self.stakes@.take(i as int),
            decreases n - i,
        {
            let (k, st) = self.stakes.entry(i);
            let ghost before = r@;
            r.push((k.clone(), st.clone()));
            assert(stake_pair_views(r@) =~= stake_pair_views(before).push(self.stakes@[i as int]));
            assert(self.stakes@.take(i + 1) =~= self.stakes@.take(i as int).push(self.stakes@[i as int]));
            i = i + 1;
        }
        assert(self.stakes@.take(n as int) =~= self.stakes@);
        r
    }

    /// The stakes that vote on proposal `proposal_id`, with their keys, in storage order.
    pub fn stakes_for_proposal_id(&self, proposal_id: String) -> (r: Vec<(String, Stake)>)
        ensures
            stake_pair_views(r@) == stakes_for(self.stakes@, proposal_id@),
    {
        let ghost s = self.stakes@;
        let n = self.stakes.len();
        let mut r: Vec<(String, Stake)> = Vec::new();
        let mut i: usize = 0;
        while i < n
            invariant
                s == self.stakes@,
                n == s.len(),
                i <= n,
                stake_pair_views(r@) == stakes_for(s.take(i as int), proposal_id@),
            decreases n - i,
        {
            let (k, st) = self.stakes.entry(i);
            let ghost before = r@;
            match &st.proposal_id {
                Some(pid) => {
                    if *pid == proposal_id {
                        r.push((k.clone(), st.clone()));
                        assert(stake_pair_views(r@) =~= stake_pair_views(before).push(s[i as int]));
                    }
                },
                None => {},
            }
            assert(s.take(i + 1).drop_last() =~= s.take(i as int));
            i = i + 1;
        }
        assert(s.take(n as int) =~= s);
        r
    }

    /// The stakes made by `predecessor_account_id`, in storage order.
    pub fn my_stakes(&self, predecessor_account_id: &String) -> (r: Vec<Stake>)
        ensures
            stake_views(r@) == stakes_of(self.stakes@, predecessor_account_id@),
    {
        let ghost s = self.stakes@;
        let n = self.stakes.len();
        let mut r: Vec<Stake> = Vec::new();
        let mut i: usize = 0;
        while i < n
            invariant
                s == self.stakes@,
                n == s.len(),
                i <= n,
                stake_views(r@) == stakes_of(s.take(i as int), predecessor_account_id@),
            decreases n - i,
        {
            let (_, st) = self.stakes.entry(i);
            let ghost before = r@;
            if st.staker_id == *predecessor_account_id {
                r.push(st.clone());
                assert(stake_views(r@) =~= stake_views(before).push(st@));
            }
            assert(s.take(i + 1).drop_last() =~= s.take(i as int));
            i = i + 1;
        }
        assert(s.take(n as int) =~= s);
        r
    }
}

} // verus!
