//! The staking pool: its state, its errors, and what it asks the chain to do.
use vstd::prelude::*;
use crate::context::{millis, spec_millis};
use crate::ordered_map::OrderedMap;
use crate::token_metadata::{ft_metadata_spec, metadata_valid, park_default_metadata, TokenMetadata, TokenMetadataView};
use crate::stake::{
    nft_views, Stake, StakeView, SupportedNft, SupportedNftView, clone_nfts,
};

verus! {

/// Why a call to the pool is refused. The call then changes nothing.
#[derive(Clone, Copy, Debug, PartialEq, Eq)]
pub enum ParkError {
    /// "Only owners can call this method"
    NotOwner,
    /// "require! assertion failed": the token metadata breaks the standard
    InvalidMetadata,
    /// "Hash has to be 32 bytes"
    InvalidReferenceHash,
    /// "Invalid SetRewardRateArgs"
    InvalidSetRewardRateArgs,
    /// "Rate too high"
    RateTooHigh,
    /// "Invalid AddNftContractArgs"
    InvalidAddNftContractArgs,
    /// "Invalid UpdateWeightsArgs"
    InvalidUpdateWeightsArgs,
    /// "stake not found"
    StakeNotFound,
    /// "proposal must exist"
    ProposalMissing,
    /// "proposal still active"
    ProposalStillActive,
    /// "couldnt parse stake id"
    InvalidStakeId,
    /// "stake id has no token part"
    MalformedStakeKey,
    /// "no matching stake"
    NoMatchingStake,
    /// "unauthrized to unstake"
    Unauthorized,
    /// "too early to unstake": the proposal has not ended yet
    TooEarlyToUnstake,
    /// "must stake for at least one day": a vote stays staked for an epoch
    MinimumStakeTime,
    /// "This is a callback method"
    NotACallback,
    /// "Unable to return token"
    UnableToReturnToken,
    /// "couldnt remove stake"
    CouldntRemoveStake,
    /// "invalid StakeCall"
    InvalidStakeCall,
    /// "already a proposal by that id"
    ProposalIdTaken,
    /// "already a proposal with that name"
    ProposalNameTaken,
    /// "must include proposal id"
    MissingProposalId,
    /// "no matching proposal": the vote's target holds no proposal
    NoMatchingProposal,
    /// "invalid nft contract"
    InvalidNftContract,
    /// "require! assertion failed"
    ActionNotAllowed,
    /// "attempt to add with overflow"
    ArithmeticOverflow,
}

impl ParkError {
    /// The message of an error, by its view.
    pub open spec fn spec_message(&self) -> Seq<char> {
        match self {
            ParkError::NotOwner => "Only owners can call this method"@,
            ParkError::InvalidMetadata => "require! assertion failed"@,
            ParkError::InvalidReferenceHash => "Hash has to be 32 bytes"@,
            ParkError::InvalidSetRewardRateArgs => "Invalid SetRewardRateArgs"@,
            ParkError::RateTooHigh => "Rate too high"@,
            ParkError::InvalidAddNftContractArgs => "Invalid AddNftContractArgs"@,
            ParkError::InvalidUpdateWeightsArgs => "Invalid UpdateWeightsArgs"@,
            ParkError::StakeNotFound => "stake not found"@,
            ParkError::ProposalMissing => "proposal must exist"@,
            ParkError::ProposalStillActive => "proposal still active"@,
            ParkError::InvalidStakeId => "couldnt parse stake id"@,
            ParkError::MalformedStakeKey => "stake id has no token part"@,
            ParkError::NoMatchingStake => "no matching stake"@,
            ParkError::Unauthorized => "unauthrized to unstake"@,
            ParkError::TooEarlyToUnstake => "too early to unstake"@,
            ParkError::MinimumStakeTime => "must stake for at least one day"@,
            ParkError::NotACallback => "This is a callback method"@,
            ParkError::UnableToReturnToken => "Unable to return token"@,
            ParkError::CouldntRemoveStake => "couldnt remove stake"@,
            ParkError::InvalidStakeCall => "invalid StakeCall"@,
            ParkError::ProposalIdTaken => "already a proposal by that id"@,
            ParkError::ProposalNameTaken => "already a proposal with that name"@,
            ParkError::MissingProposalId => "must include proposal id"@,
            ParkError::NoMatchingProposal => "no matching proposal"@,
            ParkError::InvalidNftContract => "invalid nft contract"@,
            ParkError::ActionNotAllowed => "require! assertion failed"@,
            ParkError::ArithmeticOverflow => "attempt to add with overflow"@,
        }
    }

    /// The panic message the contract gives for this error.
    pub fn message(&self) -> (r: &'static str)
        ensures
            r@ == self.spec_message(),
    {
        match self {
            ParkError::NotOwner => "Only owners can call this method",
            ParkError::InvalidMetadata => "require! assertion failed",
            ParkError::InvalidReferenceHash => "Hash has to be 32 bytes",
            ParkError::InvalidSetRewardRateArgs => "Invalid SetRewardRateArgs",
            ParkError::RateTooHigh => "Rate too high",
            ParkError::InvalidAddNftContractArgs => "Invalid AddNftContractArgs",
            ParkError::InvalidUpdateWeightsArgs => "Invalid UpdateWeightsArgs",
            ParkError::StakeNotFound => "stake not found",
            ParkError::ProposalMissing => "proposal must exist",
            ParkError::ProposalStillActive => "proposal still active",
            ParkError::InvalidStakeId => "couldnt parse stake id",
            ParkError::MalformedStakeKey => "stake id has no token part",
            ParkError::NoMatchingStake => "no matching stake",
            ParkError::Unauthorized => "unauthrized to unstake",
            ParkError::TooEarlyToUnstake => "too early to unstake",
            ParkError::MinimumStakeTime => "must stake for at least one day",
            ParkError::NotACallback => "This is a callback method",
            ParkError::UnableToReturnToken => "Unable to return token",
            ParkError::CouldntRemoveStake => "couldnt remove stake",
            ParkError::InvalidStakeCall => "invalid StakeCall",
            ParkError::ProposalIdTaken => "already a proposal by that id",
            ParkError::ProposalNameTaken => "already a proposal with that name",
            ParkError::MissingProposalId => "must include proposal id",
            ParkError::NoMatchingProposal => "no matching proposal",
            ParkError::InvalidNftContract => "invalid nft contract",
            ParkError::ActionNotAllowed => "require! assertion failed",
            ParkError::ArithmeticOverflow => "attempt to add with overflow",
        }
    }
}

/// What the pool asks the chain to do.
pub enum ParkAction {
    /// Call `nft_transfer(to, token_id)` on `nft_contract` with one yoctoNEAR
    /// attached, then `resolve_send_nft(to, new_tokens, nft_contract, token_id)`
    /// on the pool with its outcome, which rewards `to` with `new_tokens`.
    SendNft { to: String, nft_contract: String, token_id: String, new_tokens: u128 },
    /// Set up the pool's owners: `owners`, of whom `threshold` must agree on a call.
    InitOwners { owners: Vec<String>, threshold: u32 },
    /// Register `account_id` with the pool's token.
    RegisterAccount { account_id: String },
    /// Credit `amount` of the pool's token to `account_id`.
    Deposit { account_id: String, amount: u128 },
}

/// A `ParkAction` with its strings by their views.
pub enum ParkActionView {
    SendNft { to: Seq<char>, nft_contract: Seq<char>, token_id: Seq<char>, new_tokens: u128 },
    InitOwners { owners: Seq<Seq<char>>, threshold: u32 },
    RegisterAccount { account_id: Seq<char> },
    Deposit { account_id: Seq<char>, amount: u128 },
}

impl View for ParkAction {
    type V = ParkActionView;

    open spec fn view(&self) -> ParkActionView {
        match self {
            ParkAction::SendNft { to, nft_contract, token_id, new_tokens } => ParkActionView::SendNft {
                to: to@,
                nft_contract: nft_contract@,
                token_id: token_id@,
                new_tokens: *new_tokens,
            },
            ParkAction::InitOwners { owners, threshold } => ParkActionView::InitOwners {
                owners: owners@.map_values(|o: String| o@),
                threshold: *threshold,
            },
            ParkAction::RegisterAccount { account_id } => ParkActionView::RegisterAccount { account_id: account_id@ },
            ParkAction::Deposit { account_id, amount } => ParkActionView::Deposit { account_id: account_id@, amount: *amount },
        }
    }
}

/// The actions of a vector, by their views.
pub open spec fn action_views(v: Seq<ParkAction>) -> Seq<ParkActionView> {
    v.map_values(|a: ParkAction| a@)
}

/// The pool's state. Its token ledger, its token metadata and its owners are
/// kept beside it, by the token and ownership components.
pub struct Contract {
    /// When the pool was created, in milliseconds.
    pub genesis: u64,
    /// The length of an epoch (a proposal's lifetime unit), in milliseconds.
    pub epoch_millis: u64,
    /// The NFT contracts whose tokens may be staked, each with its role.
    pub nfts: Vec<SupportedNft>,
    /// The stakes, keyed by `nft_contract||token_id`.
    pub stakes: OrderedMap<Stake>,
    /// Inflation, in basis points per epoch.
    pub reward_rate: u16,
    /// The metadata of the pool's token.
    pub metadata: TokenMetadata,
}

/// No two stakes hold proposals with the same name.
pub open spec fn proposal_names_unique(s: Seq<(Seq<char>, StakeView)>) -> bool {
    forall|i: int, j: int|
        0 <= i < s.len() && 0 <= j < s.len() && i != j && (#[trigger] s[i]).1.proposal is Some
            && (#[trigger] s[j]).1.proposal is Some ==> s[i].1.proposal.unwrap().name != s[j].1.proposal.unwrap().name
}

/// No supported NFT entry occurs twice.
pub open spec fn nfts_distinct(s: Seq<SupportedNftView>) -> bool {
    forall|i: int, j: int| 0 <= i < s.len() && 0 <= j < s.len() && i != j ==> s[i] != s[j]
}

impl Contract {
    /// The pool's validity: the supported NFTs form a set, the stakes' keys
    /// are distinct, proposal names are unique and the reward rate is at most
    /// 1000 basis points.
    pub open spec fn wf(&self) -> bool {
        &&& nfts_distinct(nft_views(self.nfts@))
        &&& self.stakes.wf()
        &&& proposal_names_unique(self.stakes@)
        &&& self.reward_rate <= 1000
    }

    /// A new pool with epochs of `epoch_millis`, created at the time of
    /// `block_timestamp`, whose token (described by `metadata`) has its supply
    /// `total_supply` go to `owner_id`: the account is registered with the
    /// token and credited the supply. Metadata that breaks the standard is
    /// refused.
    pub fn new(
        owner_id: String,
        total_supply: u128,
        epoch_millis: u64,
        metadata: TokenMetadata,
        block_timestamp: u64,
    ) -> (r: Result<(Contract, Vec<ParkAction>), ParkError>)
        ensures
            !metadata_valid(metadata@) ==> r == Err::<(Contract, Vec<ParkAction>), ParkError>(
                if metadata@.spec != ft_metadata_spec() || (metadata@.reference is Some != metadata@.reference_hash is Some) {
                    ParkError::InvalidMetadata
                } else {
                    ParkError::InvalidReferenceHash
                },
            ),
            metadata_valid(metadata@) ==> r is Ok && Self::initial(r.unwrap().0, r.unwrap().1, owner_id@, total_supply, epoch_millis, metadata@, block_timestamp),
    {
        if !(metadata.spec == crate::token_metadata::ft_metadata_spec_string()) || metadata.reference.is_some() != metadata.reference_hash.is_some() {
            return Err(ParkError::InvalidMetadata);
        }
        match &metadata.reference_hash {
            Some(h) => {
                if h.len() != 32 {
                    return Err(ParkError::InvalidReferenceHash);
                }
            },
            None => {},
        }
        Ok(Self::build(owner_id, total_supply, epoch_millis, metadata, block_timestamp))
    }

    /// The pool that `new` creates from valid metadata.
    fn build(
        owner_id: String,
        total_supply: u128,
        epoch_millis: u64,
        metadata: TokenMetadata,
        block_timestamp: u64,
    ) -> (r: (Contract, Vec<ParkAction>))
        ensures
            Self::initial(r.0, r.1, owner_id@, total_supply, epoch_millis, metadata@, block_timestamp),
    {
        let ghost m = metadata@;
        let mut this = Contract {
            genesis: 0,
            reward_rate: 0,
            epoch_millis,
            stakes: OrderedMap::new(),
            nfts: Vec::new(),
            metadata,
        };
        this.genesis = this.now(block_timestamp);
        let ghost owner = owner_id@;
        let mut owners: Vec<String> = Vec::new();
        owners.push(owner_id.clone());
        assert(owners@.map_values(|o: String| o@) =~= seq![owner]);
        let mut actions: Vec<ParkAction> = Vec::new();
        actions.push(ParkAction::InitOwners { owners, threshold: 1 });
        actions.push(ParkAction::RegisterAccount { account_id: owner_id.clone() });
        actions.push(ParkAction::Deposit { account_id: owner_id, amount: total_supply });
        assert(action_views(actions@) =~= seq![
            ParkActionView::InitOwners { owners: seq![owner], threshold: 1 },
            ParkActionView::RegisterAccount { account_id: owner },
            ParkActionView::Deposit { account_id: owner, amount: total_supply },
        ]);
        assert(this.nfts@.len() == 0);
        (this, actions)
    }

    /// A freshly created pool: valid, created at the block's time, with no
    /// NFTs, stakes or reward, the given metadata, the owner as its only
    /// owner (one confirmation needed), and its whole supply registered to
    /// and credited to the owner.
    pub open spec fn initial(
        c: Contract,
        actions: Vec<ParkAction>,
        owner_id: Seq<char>,
        total_supply: u128,
        epoch_millis: u64,
        metadata: TokenMetadataView,
        block_timestamp: u64,
    ) -> bool {
        &&& c.wf()
        &&& c.genesis == spec_millis(block_timestamp)
        &&& c.epoch_millis == epoch_millis
        &&& c.reward_rate == 0
        &&& c.nfts@.len() == 0
        &&& c.stakes@.len() == 0
        &&& c.metadata@ == metadata
        &&& action_views(actions@) == seq![
            ParkActionView::InitOwners { owners: seq![owner_id], threshold: 1 },
            ParkActionView::RegisterAccount { account_id: owner_id },
            ParkActionView::Deposit { account_id: owner_id, amount: total_supply },
        ]
    }

    /// A new pool whose token has the default metadata ("Park Token", PARK).
    pub fn new_default_meta(owner_id: String, total_supply: u128, epoch_millis: u64, block_timestamp: u64) -> (r: (Contract, Vec<ParkAction>))
        ensures
            Self::initial(r.0, r.1, owner_id@, total_supply, epoch_millis, park_default_metadata(), block_timestamp),
    {
        Self::build(owner_id, total_supply, epoch_millis, TokenMetadata::park_default(), block_timestamp)
    }

    /// The metadata of the pool's token.
    pub fn ft_metadata(&self) -> (r: TokenMetadata)
        ensures
            r@ == self.metadata@,
    {
        self.metadata.clone()
    }

    /// The block time in milliseconds.
    pub fn now(&self, block_timestamp: u64) -> (r: u64)
        ensures
            r == spec_millis(block_timestamp),
    {
        millis(block_timestamp)
    }

    /// When the pool was created, in milliseconds.
    pub fn genesis(&self) -> (r: u64)
        ensures
            r == self.genesis,
    {
        self.genesis
    }

    /// The reward rate, in basis points per epoch.
    pub fn reward_rate(&self) -> (r: u16)
        ensures
            r == self.reward_rate,
    {
        self.reward_rate
    }

    /// The supported NFT contracts with their roles, in the order they were added.
    pub fn supported_nfts(&self) -> (r: Vec<SupportedNft>)
        ensures
            nft_views(r@) == nft_views(self.nfts@),
    {
        clone_nfts(&self.nfts)
    }
}

} // verus!
