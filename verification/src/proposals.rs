//! Proposals: completing them, unstaking, and returning staked NFTs.
use vstd::prelude::*;
use crate::account::{
    account_id_valid, contract_and_token_id, first_segment, has_two_segments, join_key,
    parse_account_id, second_segment, split_first, split_second,
};
use crate::context::{spec_millis, PromiseOutcome};
use crate::ordered_map::{has_key, lookup, removed};
use crate::park::{action_views, Contract, ParkAction, ParkActionView, ParkError};
use crate::stake::StakeView;
use crate::views::{lemma_removed_names_unique, stake_pair_views, stakes_for};

verus! {

/// Optional text, copied.
pub fn clone_opt_string(o: &Option<String>) -> (r: Option<String>)
    ensures
        r == *o,
{
    match o {
        Some(s) => Some(s.clone()),
        None => None,
    }
}

/// A description of a proposal or of one of its tasks.
#[derive(Debug, PartialEq, Eq)]
pub struct Metadata {
    pub name: String,
    pub budget: Option<u128>,
    pub ft_contract: Option<String>,
    pub note: Option<String>,
    pub url: Option<String>,
    pub contact: Option<String>,
    pub media: Option<String>,
}

impl Clone for Metadata {
    fn clone(&self) -> (r: Self)
        ensures
            r == *self,
    {
        Metadata {
            name: self.name.clone(),
            budget: self.budget,
            ft_contract: clone_opt_string(&self.ft_contract),
            note: clone_opt_string(&self.note),
            url: clone_opt_string(&self.url),
            contact: clone_opt_string(&self.contact),
            media: clone_opt_string(&self.media),
        }
    }
}

/// A proposal that a staked NFT creates.
#[derive(Debug, PartialEq, Eq)]
pub struct Proposal {
    /// Unique among the pool's proposals.
    pub name: String,
    /// In epochs.
    pub lifetime: u16,
    pub metadata: Option<Metadata>,
    pub tasks: Vec<Metadata>,
}

/// A `Proposal` with its name and tasks by their views.
pub struct ProposalView {
    pub name: Seq<char>,
    pub lifetime: u16,
    pub metadata: Option<Metadata>,
    pub tasks: Seq<Metadata>,
}

impl View for Proposal {
    type V = ProposalView;

    open spec fn view(&self) -> ProposalView {
        ProposalView { name: self.name@, lifetime: self.lifetime, metadata: self.metadata, tasks: self.tasks@ }
    }
}

impl Clone for Proposal {
    fn clone(&self) -> (r: Self)
        ensures
            r@ == self@,
    {
        let mut tasks: Vec<Metadata> = Vec::new();
        let mut i: usize = 0;
        while i < self.tasks.len()
            invariant
                i <= self.tasks@.len(),
                tasks@ == self.tasks@.take(i as int),
            decreases self.tasks@.len() - i,
        {
            tasks.push(self.tasks[i].clone());
            assert(tasks@ =~= self.tasks@.take(i + 1));
            i = i + 1;
        }
        assert(self.tasks@.take(i as int) =~= self.tasks@);
        Proposal {
            name: self.name.clone(),
            lifetime: self.lifetime,
            metadata: match &self.metadata {
                Some(m) => Some(m.clone()),
                None => None,
            },
            tasks,
        }
    }
}

/// When a stake made at `time` with a proposal of `lifetime` epochs of
/// `epoch_millis` ends, in milliseconds.
pub open spec fn end_time(time: u64, epoch_millis: u64, lifetime: u16) -> int {
    time + epoch_millis * lifetime
}

/// `time + epoch_millis * lifetime`, or `None` where it overflows.
pub fn checked_end_time(time: u64, epoch_millis: u64, lifetime: u16) -> (r: Option<u64>)
    ensures
        match r {
            Some(t) => t == time + epoch_millis * lifetime,
            None => time + epoch_millis * lifetime > u64::MAX,
        },
{
    match epoch_millis.checked_mul(lifetime as u64) {
        Some(d) => time.checked_add(d),
        None => {
            assert(epoch_millis * lifetime >= 0) by (nonlinear_arith);
            None
        },
    }
}

/// The return of the NFT of a voting stake stored under `key`: the key's
/// first part must be a valid account id (the NFT contract) and it must have
/// a second part (the token id).
pub open spec fn voter_return(key: Seq<char>, stake: StakeView) -> Result<ParkActionView, ParkError> {
    if !account_id_valid(first_segment(key)) {
        Err(ParkError::InvalidStakeId)
    } else if !has_two_segments(key) {
        Err(ParkError::MalformedStakeKey)
    } else {
        Ok(ParkActionView::SendNft { to: stake.staker_id, nft_contract: first_segment(key), token_id: second_segment(key), new_tokens: 1 })
    }
}

/// The returns of the NFTs of the stakes `s`, in order, or the first error.
pub open spec fn voter_returns(s: Seq<(Seq<char>, StakeView)>) -> Result<Seq<ParkActionView>, ParkError>
    decreases s.len(),
{
    if s.len() == 0 {
        Ok(Seq::empty())
    } else {
        match voter_returns(s.drop_last()) {
            Err(e) => Err(e),
            Ok(acts) => match voter_return(s.last().0, s.last().1) {
                Err(e) => Err(e),
                Ok(a) => Ok(acts.push(a)),
            },
        }
    }
}

/// What completing the proposal staked under `key` at time `now` yields: the
/// NFTs of all stakes that voted on it go back to their stakers, then the
/// proposal's own NFT goes back to its creator.
pub open spec fn completion(
    stakes: Seq<(Seq<char>, StakeView)>,
    epoch_millis: u64,
    now: u64,
    nft_contract: Seq<char>,
    token_id: Seq<char>,
) -> Result<Seq<ParkActionView>, ParkError> {
    let key = join_key(nft_contract, token_id);
    match lookup(stakes, key) {
        None => Err(ParkError::StakeNotFound),
        Some(stake) => match stake.proposal {
            None => Err(ParkError::ProposalMissing),
            Some(p) => {
                if end_time(stake.time, epoch_millis, p.lifetime) > u64::MAX {
                    Err(ParkError::ArithmeticOverflow)
                } else if !(now > end_time(stake.time, epoch_millis, p.lifetime)) {
                    Err(ParkError::ProposalStillActive)
                } else {
                    match voter_returns(stakes_for(stakes, key)) {
                        Err(e) => Err(e),
                        Ok(acts) => Ok(
                            acts.push(ParkActionView::SendNft { to: stake.staker_id, nft_contract, token_id, new_tokens: 1 }),
                        ),
                    }
                }
            },
        },
    }
}

/// What unstaking token `token_id` of `nft_contract` by `caller` at time `now` yields.
pub open spec fn unstaking(
    stakes: Seq<(Seq<char>, StakeView)>,
    epoch_millis: u64,
    now: u64,
    caller: Seq<char>,
    nft_contract: Seq<char>,
    token_id: Seq<char>,
) -> Result<ParkActionView, ParkError> {
    match lookup(stakes, join_key(nft_contract, token_id)) {
        None => Err(ParkError::NoMatchingStake),
        Some(stake) => {
            if stake.staker_id != caller {
                Err(ParkError::Unauthorized)
            } else {
                let end = match stake.proposal {
                    Some(p) => end_time(stake.time, epoch_millis, p.lifetime),
                    None => stake.time + epoch_millis,
                };
                if end > u64::MAX {
                    Err(ParkError::ArithmeticOverflow)
                } else if now < end {
                    if stake.proposal is Some {
                        Err(ParkError::TooEarlyToUnstake)
                    } else {
                        Err(ParkError::MinimumStakeTime)
                    }
                } else {
                    Ok(ParkActionView::SendNft { to: caller, nft_contract, token_id, new_tokens: 1 })
                }
            }
        },
    }
}

/// Once the returns of a prefix of `s` fail, those of all of `s` fail the same way.
pub proof fn lemma_voter_returns_err(s: Seq<(Seq<char>, StakeView)>, j: int)
    requires
        0 <= j <= s.len(),
        voter_returns(s.take(j)) is Err,
    ensures
        voter_returns(s) == voter_returns(s.take(j)),
    decreases s.len() - j,
{
    if j < s.len() {
        assert(s.take(j + 1).drop_last() =~= s.take(j));
        lemma_voter_returns_err(s, j + 1);
    } else {
        assert(s.take(j) =~= s);
    }
}

impl Contract {
    /// Completes the proposal of token `token_id` of `nft_contract` once its
    /// lifetime has passed: every NFT that voted on it, and then the
    /// proposal's own, is sent back to its staker. The stakes are removed, and
    /// their stakers rewarded, as each return succeeds (`resolve_send_nft`).
    #[verifier::loop_isolation(false)]
    pub fn complete_proposal(&self, block_timestamp: u64, nft_contract: String, token_id: String) -> (r: Result<Vec<ParkAction>, ParkError>)
        requires
            self.wf(),
        ensures
            match r {
                Ok(acts) => completion(self.stakes@, self.epoch_millis, spec_millis(block_timestamp), nft_contract@, token_id@)
                    == Ok::<Seq<ParkActionView>, ParkError>(action_views(acts@)),
                Err(e) => completion(self.stakes@, self.epoch_millis, spec_millis(block_timestamp), nft_contract@, token_id@)
                    == Err::<Seq<ParkActionView>, ParkError>(e),
            },
    {
        let cat_id = contract_and_token_id(&nft_contract, &token_id);
        let stake = match self.stakes.get(&cat_id) {
            Some(s) => s,
            None => return Err(ParkError::StakeNotFound),
        };
        let prop = match &stake.proposal {
            Some(p) => p,
            None => return Err(ParkError::ProposalMissing),
        };
        let end_time = match checked_end_time(stake.time, self.epoch_millis, prop.lifetime) {
            Some(t) => t,
            None => return Err(ParkError::ArithmeticOverflow),
        };
        if !(self.now(block_timestamp) > end_time) {
            return Err(ParkError::ProposalStillActive);
        }
        let active_stakes = self.stakes_for_proposal_id(cat_id.clone());
        let ghost voters = stake_pair_views(active_stakes@);
        let mut actions: Vec<ParkAction> = Vec::new();
        assert(voters.take(0) =~= Seq::<(Seq<char>, StakeView)>::empty());
        assert(action_views(actions@) =~= Seq::<ParkActionView>::empty());
        let mut i: usize = 0;
        while i < active_stakes.len()
            invariant
                i <= active_stakes@.len(),
                voters == stake_pair_views(active_stakes@),
                voter_returns(voters.take(i as int)) == Ok::<Seq<ParkActionView>, ParkError>(action_views(actions@)),
            decreases active_stakes@.len() - i,
        {
            let (k, s) = &active_stakes[i];
            assert(voters.take(i + 1).drop_last() =~= voters.take(i as int));
            assert(voters[i as int] == (k@, s@));
            assert(voters.take(i + 1).last() == voters[i as int]);
            let staked_nft_contract = match parse_account_id(split_first(k).as_str()) {
                Some(a) => a,
                None => {
                    proof {
                        assert(voter_returns(voters.take(i + 1)) == Err::<Seq<ParkActionView>, ParkError>(ParkError::InvalidStakeId));
                        lemma_voter_returns_err(voters, i + 1);
                    }
                    return Err(ParkError::InvalidStakeId);
                },
            };
            let staked_token_id = match split_second(k) {
                Some(t) => t,
                None => {
                    proof {
                        assert(voter_returns(voters.take(i + 1)) == Err::<Seq<ParkActionView>, ParkError>(ParkError::MalformedStakeKey));
                        lemma_voter_returns_err(voters, i + 1);
                    }
                    return Err(ParkError::MalformedStakeKey);
                },
            };
            let ghost before = actions@;
            actions.push(self.send_nft(s.staker_id.clone(), staked_nft_contract, staked_token_id));
            assert(action_views(actions@) =~= action_views(before).push(actions@.last()@));
            i = i + 1;
        }
        assert(voters.take(i as int) =~= voters);
        let ghost before = actions@;
        actions.push(self.send_nft(stake.staker_id.clone(), nft_contract, token_id));
        assert(action_views(actions@) =~= action_views(before).push(actions@.last()@));
        Ok(actions)
    }

    /// Lets staker `predecessor_account_id` take back token `token_id` of
    /// `nft_contract`: a proposal's NFT once the proposal has ended, a vote's
    /// NFT once it has been staked for an epoch.
    pub fn unstake(&self, predecessor_account_id: &String, block_timestamp: u64, nft_contract: String, token_id: String) -> (r: Result<ParkAction, ParkError>)
        requires
            self.wf(),
        ensures
            match r {
                Ok(a) => unstaking(self.stakes@, self.epoch_millis, spec_millis(block_timestamp), predecessor_account_id@, nft_contract@, token_id@)
                    == Ok::<ParkActionView, ParkError>(a@),
                Err(e) => unstaking(self.stakes@, self.epoch_millis, spec_millis(block_timestamp), predecessor_account_id@, nft_contract@, token_id@)
                    == Err::<ParkActionView, ParkError>(e),
            },
    {
        let cat_id = contract_and_token_id(&nft_contract, &token_id);
        let stake = match self.stakes.get(&cat_id) {
            Some(s) => s,
            None => return Err(ParkError::NoMatchingStake),
        };
        let caller = predecessor_account_id.clone();
        if !(stake.staker_id == caller) {
            return Err(ParkError::Unauthorized);
        }
        match &stake.proposal {
            Some(prop) => {
                let end_time = match checked_end_time(stake.time, self.epoch_millis, prop.lifetime) {
                    Some(t) => t,
                    None => return Err(ParkError::ArithmeticOverflow),
                };
                if self.now(block_timestamp) < end_time {
                    return Err(ParkError::TooEarlyToUnstake);
                }
            },
            None => {
                let min_time = match stake.time.checked_add(self.epoch_millis) {
                    Some(t) => t,
                    None => return Err(ParkError::ArithmeticOverflow),
                };
                if self.now(block_timestamp) < min_time {
                    return Err(ParkError::MinimumStakeTime);
                }
            },
        }
        Ok(self.send_nft(caller, nft_contract, token_id))
    }

    /// Sends token `token_id` of `nft_contract` to `to`, then has the pool
    /// resolve the transfer, rewarding `to` with one unit of the pool's token.
    fn send_nft(&self, to: String, nft_contract: String, token_id: String) -> (r: ParkAction)
        ensures
            r@ == (ParkActionView::SendNft { to: to@, nft_contract: nft_contract@, token_id: token_id@, new_tokens: 1 }),
    {
        ParkAction::SendNft { to, nft_contract, token_id, new_tokens: 1 }
    }

    /// The callback after token `token_id` of `nft_contract` was sent back to
    /// `to`: once the transfer succeeded, the stake is removed and `to` is
    /// credited `new_tokens` of the pool's token, which is also returned.
    pub fn resolve_send_nft(
        &mut self,
        promise_results_count: u64,
        outcome: PromiseOutcome,
        to: String,
        new_tokens: u128,
        nft_contract: String,
        token_id: String,
    ) -> (r: Result<(u128, ParkAction), ParkError>)
        requires
            old(self).wf(),
        ensures
            final(self).wf(),
            final(self).genesis == old(self).genesis,
            final(self).metadata == old(self).metadata,
            final(self).epoch_millis == old(self).epoch_millis,
            final(self).nfts == old(self).nfts,
            final(self).reward_rate == old(self).reward_rate,
            ({
                let key = join_key(nft_contract@, token_id@);
                match r {
                    Err(e) => final(self).stakes == old(self).stakes && e == (if promise_results_count != 1 {
                        ParkError::NotACallback
                    } else if outcome == PromiseOutcome::Failed {
                        ParkError::UnableToReturnToken
                    } else {
                        ParkError::CouldntRemoveStake
                    }) && (e == ParkError::CouldntRemoveStake ==> !has_key(old(self).stakes@, key)),
                    Ok((n, a)) => {
                        &&& promise_results_count == 1
                        &&& outcome == PromiseOutcome::Successful
                        &&& has_key(old(self).stakes@, key)
                        &&& final(self).stakes@ == removed(old(self).stakes@, key)
                        &&& n == new_tokens
                        &&& a@ == (ParkActionView::Deposit { account_id: to@, amount: new_tokens })
                    },
                }
            }),
    {
        if promise_results_count != 1 {
            return Err(ParkError::NotACallback);
        }
        match outcome {
            PromiseOutcome::Failed => {
                return Err(ParkError::UnableToReturnToken);
            },
            PromiseOutcome::Successful => {},
        }
        let cat_id = contract_and_token_id(&nft_contract, &token_id);
        let a = self.remove_and_reward_stake(cat_id, to, new_tokens)?;
        Ok((new_tokens, a))
    }

    /// Removes the stake under `contract_and_token_id` and credits `amount` of
    /// the pool's token to `to`.
    pub fn remove_and_reward_stake(&mut self, contract_and_token_id: String, to: String, amount: u128) -> (r: Result<ParkAction, ParkError>)
        requires
            old(self).wf(),
        ensures
            final(self).wf(),
            final(self).genesis == old(self).genesis,
            final(self).metadata == old(self).metadata,
            final(self).epoch_millis == old(self).epoch_millis,
            final(self).nfts == old(self).nfts,
            final(self).reward_rate == old(self).reward_rate,
            match r {
                Err(e) => e == ParkError::CouldntRemoveStake && !has_key(old(self).stakes@, contract_and_token_id@)
                    && final(self).stakes == old(self).stakes,
                Ok(a) => has_key(old(self).stakes@, contract_and_token_id@)
                    && final(self).stakes@ == removed(old(self).stakes@, contract_and_token_id@)
                    && a@ == (ParkActionView::Deposit { account_id: to@, amount }),
            },
    {
        match self.stakes.remove(&contract_and_token_id) {
            Some(_) => {
                proof {
                    lemma_removed_names_unique(old(self).stakes@, contract_and_token_id@);
                }
                Ok(ParkAction::Deposit { account_id: to, amount })
            },
            None => Err(ParkError::CouldntRemoveStake),
        }
    }
}

} // verus!
