//! Staking: NFTs that create proposals or vote on them, and which NFT
//! contracts may do which.
use vstd::prelude::*;
use crate::account::{contract_and_token_id, join_key};
use crate::context::spec_millis;
use crate::ordered_map::{has_key, inserted, lookup};
use crate::park::{nfts_distinct, Contract, ParkError};
use crate::proposals::{Proposal, ProposalView};
use crate::views::{first_named, lemma_first_named_none, lemma_inserted_names_unique};

verus! {

/// An NFT held by the pool: it created a proposal or votes on one.
#[derive(Debug, PartialEq, Eq)]
pub struct Stake {
    /// Who staked it.
    pub staker_id: String,
    /// The key of the proposal it votes on.
    pub proposal_id: Option<String>,
    /// The proposal it created.
    pub proposal: Option<Proposal>,
    /// When it was staked, in milliseconds.
    pub time: u64,
}

/// A `Stake` by the views of its parts.
pub struct StakeView {
    pub staker_id: Seq<char>,
    pub proposal_id: Option<Seq<char>>,
    pub proposal: Option<ProposalView>,
    pub time: u64,
}

/// An optional string by its view.
pub open spec fn opt_str_view(o: Option<String>) -> Option<Seq<char>> {
    match o {
        Some(s) => Some(s@),
        None => None,
    }
}

/// An optional proposal by its view.
pub open spec fn opt_proposal_view(o: Option<Proposal>) -> Option<ProposalView> {
    match o {
        Some(p) => Some(p@),
        None => None,
    }
}

impl View for Stake {
    type V = StakeView;

    open spec fn view(&self) -> StakeView {
        StakeView {
            staker_id: self.staker_id@,
            proposal_id: opt_str_view(self.proposal_id),
            proposal: opt_proposal_view(self.proposal),
            time: self.time,
        }
    }
}

impl Clone for Stake {
    fn clone(&self) -> (r: Self)
        ensures
            r@ == self@,
    {
        Stake {
            staker_id: self.staker_id.clone(),
            proposal_id: match &self.proposal_id {
                Some(p) => Some(p.clone()),
                None => None,
            },
            proposal: match &self.proposal {
                Some(p) => Some(p.clone()),
                None => None,
            },
            time: self.time,
        }
    }
}

/// What a staked NFT does.
#[derive(Clone, Copy, Debug, PartialEq, Eq, PartialOrd, Structural)]
pub enum NftAction {
    /// Vote on a proposal.
    Stake,
    /// Create a proposal.
    Create,
}

/// The role of an NFT contract's tokens in the pool.
#[derive(Clone, Copy, Debug, PartialEq, Eq, Structural)]
pub enum NftRole {
    Voter,
    Creator,
}

/// The actions a role allows: a voter may stake, a creator may stake and create.
pub open spec fn acl_spec(role: NftRole) -> Seq<NftAction> {
    match role {
        NftRole::Voter => seq![NftAction::Stake],
        NftRole::Creator => seq![NftAction::Stake, NftAction::Create],
    }
}

impl NftRole {
    /// The actions this role allows.
    pub fn acl(&self) -> (r: Vec<NftAction>)
        ensures
            r@ == acl_spec(*self),
    {
        match self {
            NftRole::Voter => {
                let r = vec![NftAction::Stake];
                assert(r@ =~= acl_spec(*self));
                r
            },
            NftRole::Creator => {
                let r = vec![NftAction::Stake, NftAction::Create];
                assert(r@ =~= acl_spec(*self));
                r
            },
        }
    }
}

/// An NFT contract the pool accepts, with the role of its tokens.
#[derive(Debug, PartialEq, Eq)]
pub struct SupportedNft {
    pub contract_id: String,
    pub role: NftRole,
}

/// A `SupportedNft` with its contract id by its view.
pub struct SupportedNftView {
    pub contract_id: Seq<char>,
    pub role: NftRole,
}

impl View for SupportedNft {
    type V = SupportedNftView;

    open spec fn view(&self) -> SupportedNftView {
        SupportedNftView { contract_id: self.contract_id@, role: self.role }
    }
}

impl Clone for SupportedNft {
    fn clone(&self) -> (r: Self)
        ensures
            r == *self,
    {
        SupportedNft { contract_id: self.contract_id.clone(), role: self.role }
    }
}

impl SupportedNft {
    /// Whether tokens of this contract may take `action`.
    pub fn can(&self, action: NftAction) -> (r: bool)
        ensures
            r == acl_spec(self.role).contains(action),
    {
        let acl = self.role.acl();
        let mut i: usize = 0;
        while i < acl.len()
            invariant
                acl@ == acl_spec(self.role),
                i <= acl@.len(),
                forall|j: int| 0 <= j < i ==> acl@[j] != action,
            decreases acl@.len() - i,
        {
            if acl[i] == action {
                assert(acl@[i as int] == action);
                return true;
            }
            i = i + 1;
        }
        false
    }
}

/// The supported NFTs of a vector, by their views.
pub open spec fn nft_views(v: Seq<SupportedNft>) -> Seq<SupportedNftView> {
    v.map_values(|n: SupportedNft| n@)
}

/// A copy of a vector of supported NFTs.
pub fn clone_nfts(v: &Vec<SupportedNft>) -> (r: Vec<SupportedNft>)
    ensures
        r@ == v@,
{
    let mut r: Vec<SupportedNft> = Vec::new();
    let mut i: usize = 0;
    while i < v.len()
        invariant
            i <= v@.len(),
            r@ == v@.take(i as int),
        decreases v@.len() - i,
    {
        r.push(v[i].clone());
        assert(r@ =~= v@.take(i + 1));
        i = i + 1;
    }
    assert(v@.take(i as int) =~= v@);
    r
}

/// Adds `n` to the set `v` unless an equal entry is there; returns whether it was added.
#[verifier::loop_isolation(false)]
pub fn insert_nft(v: &mut Vec<SupportedNft>, n: SupportedNft) -> (r: bool)
    requires
        nfts_distinct(nft_views(old(v)@)),
    ensures
        r == !nft_views(old(v)@).contains(n@),
        nft_views(final(v)@) == if r { nft_views(old(v)@).push(n@) } else { nft_views(old(v)@) },
        nfts_distinct(nft_views(final(v)@)),
{
    let mut i: usize = 0;
    while i < v.len()
        invariant
            v@ == old(v)@,
            i <= v@.len(),
            forall|j: int| 0 <= j < i ==> (#[trigger] v@[j])@ != n@,
        decreases v@.len() - i,
    {
        if v[i].contract_id == n.contract_id && v[i].role == n.role {
            assert(nft_views(v@)[i as int] == n@);
            return false;
        }
        i = i + 1;
    }
    proof {
        if nft_views(v@).contains(n@) {
            let j = choose|j: int| 0 <= j < nft_views(v@).len() && nft_views(v@)[j] == n@;
            assert(v@[j]@ == n@);
        }
    }
    let ghost nv = n@;
    v.push(n);
    assert(nft_views(v@) =~= nft_views(old(v)@).push(nv));
    true
}

/// The first supported entry for contract `c`, if any.
pub open spec fn first_supported(s: Seq<SupportedNftView>, c: Seq<char>) -> Option<SupportedNftView>
    decreases s.len(),
{
    if s.len() == 0 {
        None
    } else if s[0].contract_id == c {
        Some(s[0])
    } else {
        first_supported(s.drop_first(), c)
    }
}

/// The first entry for `c` is the one at `i` when no entry before `i` is for `c`.
pub proof fn lemma_first_supported_at(s: Seq<SupportedNftView>, c: Seq<char>, i: int)
    requires
        0 <= i < s.len(),
        s[i].contract_id == c,
        forall|j: int| 0 <= j < i ==> (#[trigger] s[j]).contract_id != c,
    ensures
        first_supported(s, c) == Some(s[i]),
    decreases i,
{
    if i > 0 {
        assert(s[0].contract_id != c);
        let t = s.drop_first();
        assert forall|j: int| 0 <= j < i - 1 implies (#[trigger] t[j]).contract_id != c by {
            assert(t[j] == s[j + 1]);
        }
        lemma_first_supported_at(t, c, i - 1);
        assert(t[i - 1] == s[i]);
    }
}

/// Why contract `c` may not take `action`, if it may not: its first entry
/// among the supported NFTs decides.
pub open spec fn act_error(nfts: Seq<SupportedNftView>, c: Seq<char>, action: NftAction) -> Option<ParkError> {
    match first_supported(nfts, c) {
        None => Some(ParkError::InvalidNftContract),
        Some(n) => if acl_spec(n.role).contains(action) {
            None
        } else {
            Some(ParkError::ActionNotAllowed)
        },
    }
}

/// What a staked NFT asks for, as its transfer's message gives it.
pub struct NftCall {
    /// The key of the proposal to vote on.
    pub proposal_id: Option<String>,
    /// A new proposal to create.
    pub proposal: Option<Proposal>,
}

/// An `NftCall` by the views of its parts.
pub struct NftCallView {
    pub proposal_id: Option<Seq<char>>,
    pub proposal: Option<ProposalView>,
}

impl View for NftCall {
    type V = NftCallView;

    open spec fn view(&self) -> NftCallView {
        NftCallView { proposal_id: opt_str_view(self.proposal_id), proposal: opt_proposal_view(self.proposal) }
    }
}

/// The action a staking call asks for: creating when it carries a proposal.
pub open spec fn call_action(c: NftCallView) -> NftAction {
    if c.proposal is Some {
        NftAction::Create
    } else {
        NftAction::Stake
    }
}

/// Why staking token `token_id` of `nft_contract` with `call` is refused, if it is.
pub open spec fn stake_error(
    stakes: Seq<(Seq<char>, StakeView)>,
    nfts: Seq<SupportedNftView>,
    nft_contract: Seq<char>,
    token_id: Seq<char>,
    call: Option<NftCallView>,
) -> Option<ParkError> {
    match call {
        None => Some(ParkError::InvalidStakeCall),
        Some(c) => {
            let key = join_key(nft_contract, token_id);
            if c.proposal is Some && has_key(stakes, key) {
                Some(ParkError::ProposalIdTaken)
            } else if c.proposal is Some && first_named(stakes, c.proposal.unwrap().name) is Some {
                Some(ParkError::ProposalNameTaken)
            } else if c.proposal is None && c.proposal_id is None {
                Some(ParkError::MissingProposalId)
            } else if c.proposal is None && !(has_key(stakes, c.proposal_id.unwrap())
                && lookup(stakes, c.proposal_id.unwrap()).unwrap().proposal is Some) {
                Some(ParkError::NoMatchingProposal)
            } else {
                act_error(nfts, nft_contract, call_action(c))
            }
        },
    }
}

impl Contract {
    /// Stakes token `token_id`, transferred to the pool by `previous_owner_id`
    /// through NFT contract `predecessor_account_id`. With a proposal in `call`
    /// it creates that proposal (its key and name must be new); otherwise it
    /// votes on the proposal staked under `call.proposal_id`, which must be a
    /// stake that holds a proposal. The
    /// contract's role must allow the action. Returns `false`: the pool keeps
    /// the token.
    pub fn nft_on_transfer(
        &mut self,
        predecessor_account_id: &String,
        block_timestamp: u64,
        sender_id: String,
        previous_owner_id: String,
        token_id: String,
        call: Option<NftCall>,
    ) -> (r: Result<bool, ParkError>)
        requires
            old(self).wf(),
        ensures
            final(self).wf(),
            final(self).genesis == old(self).genesis,
            final(self).metadata == old(self).metadata,
            final(self).epoch_millis == old(self).epoch_millis,
            final(self).nfts == old(self).nfts,
            final(self).reward_rate == old(self).reward_rate,
            ({
                let cv = match call {
                    Some(c) => Some(c@),
                    None => None,
                };
                let err = stake_error(old(self).stakes@, nft_views(old(self).nfts@), predecessor_account_id@, token_id@, cv);
                match r {
                    Err(e) => err == Some(e) && final(self).stakes == old(self).stakes,
                    Ok(b) => {
                        &&& err is None
                        &&& !b
                        &&& final(self).stakes@ == inserted(
                            old(self).stakes@,
                            join_key(predecessor_account_id@, token_id@),
                            StakeView {
                                staker_id: previous_owner_id@,
                                proposal_id: cv.unwrap().proposal_id,
                                proposal: cv.unwrap().proposal,
                                time: spec_millis(block_timestamp),
                            },
                        )
                    },
                }
            }),
    {
        let nft_contract = predecessor_account_id.clone();
        let caller = previous_owner_id;
        let call = match call {
            Some(c) => c,
            None => return Err(ParkError::InvalidStakeCall),
        };
        let proposal = call.proposal;
        let proposal_id = call.proposal_id;
        let contract_and_token_id = contract_and_token_id(&nft_contract, &token_id);
        let action = match &proposal {
            Some(p) => {
                if self.stakes.contains_key(&contract_and_token_id) {
                    return Err(ParkError::ProposalIdTaken);
                }
                if self.proposal_by_name(p.name.clone()).is_some() {
                    return Err(ParkError::ProposalNameTaken);
                }
                NftAction::Create
            },
            None => {
                let pid = match &proposal_id {
                    Some(pid) => pid,
                    None => return Err(ParkError::MissingProposalId),
                };
                match self.stakes.get(pid) {
                    Some(target) => {
                        if target.proposal.is_none() {
                            return Err(ParkError::NoMatchingProposal);
                        }
                    },
                    None => return Err(ParkError::NoMatchingProposal),
                }
                NftAction::Stake
            },
        };
        self.assert_nft_can_act(&nft_contract, action)?;
        let stake = Stake { staker_id: caller, proposal_id, proposal, time: self.now(block_timestamp) };
        proof {
            if stake.proposal is Some {
                lemma_first_named_none(old(self).stakes@, stake@.proposal.unwrap().name);
            }
            lemma_inserted_names_unique(old(self).stakes@, contract_and_token_id@, stake@);
        }
        self.stakes.insert(contract_and_token_id, stake);
        Ok(false)
    }

    /// The first supported entry for `nft_contract`, if its role allows `action`.
    pub fn assert_nft_can_act(&self, nft_contract: &String, action: NftAction) -> (r: Result<SupportedNft, ParkError>)
        ensures
            match r {
                Ok(n) => act_error(nft_views(self.nfts@), nft_contract@, action) is None
                    && first_supported(nft_views(self.nfts@), nft_contract@) == Some(n@),
                Err(e) => act_error(nft_views(self.nfts@), nft_contract@, action) == Some(e),
            },
    {
        let ghost s = nft_views(self.nfts@);
        assert(s.skip(0) =~= s);
        let mut i: usize = 0;
        while i < self.nfts.len()
            invariant
                s == nft_views(self.nfts@),
                i <= self.nfts@.len(),
                first_supported(s, nft_contract@) == first_supported(s.skip(i as int), nft_contract@),
            decreases self.nfts@.len() - i,
        {
            let n = &self.nfts[i];
            assert(s.skip(i as int)[0] == n@);
            if n.contract_id == *nft_contract {
                if !n.can(action) {
                    return Err(ParkError::ActionNotAllowed);
                }
                return Ok(n.clone());
            }
            assert(s.skip(i as int).drop_first() =~= s.skip(i + 1));
            i = i + 1;
        }
        assert(s.skip(i as int).len() == 0);
        Err(ParkError::InvalidNftContract)
    }
}

} // verus!
