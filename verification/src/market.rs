//! The marketplace: its state, its owner's settings and its errors.
use vstd::prelude::*;

use crate::context::{millis, spec_millis};
use crate::ordered_map::OrderedMap;
use crate::sale::{Sale, SaleView, sale_entry_ok};

verus! {

/// The account id under which native NEAR is listed as a payment token.
pub open spec fn near_id() -> Seq<char> {
    seq!['n', 'e', 'a', 'r']
}

/// The string `near`.
pub fn near_account() -> (r: String)
    ensures
        r@ == near_id(),
{
    proof {
        reveal_strlit("near");
    }
    "near".to_owned()
}

/// The account ids of a vector of strings.
pub open spec fn account_views(v: Seq<String>) -> Seq<Seq<char>> {
    v.map_values(|a: String| a@)
}

/// No element occurs twice.
pub open spec fn seq_distinct(s: Seq<Seq<char>>) -> bool {
    forall|i: int, j: int| 0 <= i < s.len() && 0 <= j < s.len() && i != j ==> s[i] != s[j]
}

/// Whether `a` is among `v`.
pub fn contains_account(v: &Vec<String>, a: &String) -> (r: bool)
    ensures
        r == account_views(v@).contains(a@),
{
    let mut i: usize = 0;
    while i < v.len()
        invariant
            i <= v@.len(),
            forall|j: int| 0 <= j < i ==> v@[j]@ != a@,
        decreases v@.len() - i,
    {
        if v[i] == *a {
            assert(account_views(v@)[i as int] == a@);
            return true;
        }
        i = i + 1;
    }
    proof {
        if account_views(v@).contains(a@) {
            let j = choose|j: int| 0 <= j < account_views(v@).len() && account_views(v@)[j] == a@;
            assert(v@[j]@ == a@);
        }
    }
    false
}

/// Adds `a` to the set `v` unless it is there; returns whether it was added.
pub fn insert_account(v: &mut Vec<String>, a: String) -> (r: bool)
    requires
        seq_distinct(account_views(old(v)@)),
    ensures
        r == !account_views(old(v)@).contains(a@),
        account_views(final(v)@) == if r { account_views(old(v)@).push(a@) } else { account_views(old(v)@) },
        seq_distinct(account_views(final(v)@)),
{
    if contains_account(v, &a) {
        false
    } else {
        let ghost av = a@;
        v.push(a);
        assert(account_views(v@) =~= account_views(old(v)@).push(av));
        true
    }
}

/// The keys of the market's storage.
#[derive(Clone, Copy, Debug, PartialEq, Eq)]
pub enum StorageKey {
    Sales,
    NFTContractIds,
    FTTokenIds,
}

/// Why a market call is refused. The call then changes nothing.
#[derive(Clone, Copy, Debug, PartialEq, Eq)]
pub enum MarketError {
    /// "Owner's method"
    NotOwner,
    /// "Only supports some NFT contracts"
    UnsupportedNftContract,
    /// "nft_on_approve should only be called via cross-contract call"
    NotCrossContractCall,
    /// "owner_id should be signer_id"
    OwnerNotSigner,
    /// "Not valid SaleArgs"
    InvalidSaleArgs,
    /// "exp should be in the future"
    ExpiryInPast,
    /// "Token {} not supported by this market"
    UnsupportedFtContract,
    /// "No sale"
    NoSale,
    /// "Cannot bid on your own sale."
    BidOnOwnSale,
    /// "Not for sale in NEAR"
    NotForSaleInNear,
    /// "Attached deposit must be greater than 0"
    ZeroDeposit,
    /// "Attached deposit must be greater than min price"
    DepositBelowMinPrice,
    /// "Can't pay less than or equal to current bid price"
    BidTooLow,
    /// "No bid to settle"
    NoBidToSettle,
    /// "Can only settle auctions"
    NotAnAuction,
    /// "Can only settle after expiry time"
    AuctionNotExpired,
    /// "nft_transfer failed"
    NftTransferFailed,
}

impl MarketError {
    /// The message of an error, by its view.
    pub open spec fn spec_message(&self) -> Seq<char> {
        match self {
            MarketError::NotOwner => "Owner's method"@,
            MarketError::UnsupportedNftContract => "Only supports some NFT contracts"@,
            MarketError::NotCrossContractCall => "nft_on_approve should only be called via cross-contract call"@,
            MarketError::OwnerNotSigner => "owner_id should be signer_id"@,
            MarketError::InvalidSaleArgs => "Not valid SaleArgs"@,
            MarketError::ExpiryInPast => "exp should be in the future"@,
            MarketError::UnsupportedFtContract => "Token {} not supported by this market"@,
            MarketError::NoSale => "No sale"@,
            MarketError::BidOnOwnSale => "Cannot bid on your own sale."@,
            MarketError::NotForSaleInNear => "Not for sale in NEAR"@,
            MarketError::ZeroDeposit => "Attached deposit must be greater than 0"@,
            MarketError::DepositBelowMinPrice => "Attached deposit must be greater than min price"@,
            MarketError::BidTooLow => "Can't pay less than or equal to current bid price"@,
            MarketError::NoBidToSettle => "No bid to settle"@,
            MarketError::NotAnAuction => "Can only settle auctions"@,
            MarketError::AuctionNotExpired => "Can only settle after expiry time"@,
            MarketError::NftTransferFailed => "nft_transfer failed"@,
        }
    }

    /// The panic message the contract gives for this error.
    pub fn message(&self) -> (r: &'static str)
        ensures
            r@ == self.spec_message(),
    {
        match self {
            MarketError::NotOwner => "Owner's method",
            MarketError::UnsupportedNftContract => "Only supports some NFT contracts",
            MarketError::NotCrossContractCall => "nft_on_approve should only be called via cross-contract call",
            MarketError::OwnerNotSigner => "owner_id should be signer_id",
            MarketError::InvalidSaleArgs => "Not valid SaleArgs",
            MarketError::ExpiryInPast => "exp should be in the future",
            MarketError::UnsupportedFtContract => "Token {} not supported by this market",
            MarketError::NoSale => "No sale",
            MarketError::BidOnOwnSale => "Cannot bid on your own sale.",
            MarketError::NotForSaleInNear => "Not for sale in NEAR",
            MarketError::ZeroDeposit => "Attached deposit must be greater than 0",
            MarketError::DepositBelowMinPrice => "Attached deposit must be greater than min price",
            MarketError::BidTooLow => "Can't pay less than or equal to current bid price",
            MarketError::NoBidToSettle => "No bid to settle",
            MarketError::NotAnAuction => "Can only settle auctions",
            MarketError::AuctionNotExpired => "Can only settle after expiry time",
            MarketError::NftTransferFailed => "nft_transfer failed",
        }
    }
}

/// What the market asks the chain to do.
pub enum MarketAction {
    /// Transfer `amount` yoctoNEAR to `receiver_id`.
    TransferNear { receiver_id: String, amount: u128 },
    /// Call `ft_transfer(receiver_id, amount)` on `ft_contract`, with one yoctoNEAR attached.
    TransferFt { ft_contract: String, receiver_id: String, amount: u128 },
    /// Call `nft_transfer(buyer_id, token_id, Some(approval_id))` on `nft_contract`
    /// with one yoctoNEAR attached, then `resolve_purchase(ft_contract, seller_id, price)`
    /// on the market with its outcome.
    PurchaseNft {
        nft_contract: String,
        token_id: String,
        approval_id: u64,
        buyer_id: String,
        ft_contract: String,
        seller_id: String,
        price: u128,
    },
}

/// A `MarketAction` with its strings by their views.
pub enum MarketActionView {
    TransferNear { receiver_id: Seq<char>, amount: u128 },
    TransferFt { ft_contract: Seq<char>, receiver_id: Seq<char>, amount: u128 },
    PurchaseNft {
        nft_contract: Seq<char>,
        token_id: Seq<char>,
        approval_id: u64,
        buyer_id: Seq<char>,
        ft_contract: Seq<char>,
        seller_id: Seq<char>,
        price: u128,
    },
}

impl View for MarketAction {
    type V = MarketActionView;

    open spec fn view(&self) -> MarketActionView {
        match self {
            MarketAction::TransferNear { receiver_id, amount } => MarketActionView::TransferNear {
                receiver_id: receiver_id@,
                amount: *amount,
            },
            MarketAction::TransferFt { ft_contract, receiver_id, amount } => MarketActionView::TransferFt {
                ft_contract: ft_contract@,
                receiver_id: receiver_id@,
                amount: *amount,
            },
            MarketAction::PurchaseNft {
                nft_contract,
                token_id,
                approval_id,
                buyer_id,
                ft_contract,
                seller_id,
                price,
            } => MarketActionView::PurchaseNft {
                nft_contract: nft_contract@,
                token_id: token_id@,
                approval_id: *approval_id,
                buyer_id: buyer_id@,
                ft_contract: ft_contract@,
                seller_id: seller_id@,
                price: *price,
            },
        }
    }
}

/// How the market pays `amount` of token `ft_contract` to `receiver`.
pub open spec fn payout_action(ft_contract: Seq<char>, receiver: Seq<char>, amount: u128) -> MarketActionView {
    if ft_contract == near_id() {
        MarketActionView::TransferNear { receiver_id: receiver, amount }
    } else {
        MarketActionView::TransferFt { ft_contract, receiver_id: receiver, amount }
    }
}

/// The marketplace's state.
pub struct Market {
    /// The account that may add supported contracts.
    pub owner_id: String,
    /// The NFT contracts whose tokens may be listed, in the order they were added.
    pub nft_contracts: Vec<String>,
    /// The payment tokens sales may ask for (`near` for native NEAR).
    pub ft_contracts: Vec<String>,
    /// The sales, keyed by `nft_contract||token_id`.
    pub sales: OrderedMap<Sale>,
}

impl Market {
    /// The market's validity: the contract sets hold no duplicates, and every
    /// sale is consistent (see `sale_entry_ok`).
    pub open spec fn wf(&self) -> bool {
        &&& seq_distinct(account_views(self.nft_contracts@))
        &&& seq_distinct(account_views(self.ft_contracts@))
        &&& self.sales.wf()
        &&& forall|i: int| 0 <= i < self.sales@.len() ==> sale_entry_ok(#[trigger] self.sales@[i])
    }

    /// A new market owned by `owner_id` that accepts native NEAR and the NFTs
    /// of `nft_contract`, with no sales.
    pub fn new(owner_id: String, nft_contract: String) -> (r: Market)
        ensures
            r.wf(),
            r.owner_id@ == owner_id@,
            account_views(r.ft_contracts@) == seq![near_id()],
            account_views(r.nft_contracts@) == seq![nft_contract@],
            r.sales@ == Seq::<(Seq<char>, SaleView)>::empty(),
    {
        let mut ft_contracts: Vec<String> = Vec::new();
        ft_contracts.push(near_account());
        let mut nft_contracts: Vec<String> = Vec::new();
        nft_contracts.push(nft_contract);
        let r = Market { owner_id, nft_contracts, ft_contracts, sales: OrderedMap::new() };
        assert(account_views(r.ft_contracts@) =~= seq![near_id()]);
        assert(account_views(r.nft_contracts@) =~= seq![nft_contract@]);
        r
    }

    /// The owner's account id.
    pub fn owner_id(&self) -> (r: String)
        ensures
            r@ == self.owner_id@,
    {
        self.owner_id.clone()
    }

    /// Refuses a call whose caller is not the owner.
    pub fn assert_owner(&self, predecessor_account_id: &String) -> (r: Result<(), MarketError>)
        ensures
            r is Ok <==> predecessor_account_id@ == self.owner_id@,
            r matches Err(e) ==> e == MarketError::NotOwner,
    {
        if *predecessor_account_id == self.owner_id {
            Ok(())
        } else {
            Err(MarketError::NotOwner)
        }
    }

    /// Lets the owner add an NFT contract; returns whether it was new.
    pub fn add_nft_contract(&mut self, predecessor_account_id: &String, nft_contract: String) -> (r: Result<bool, MarketError>)
        requires
            old(self).wf(),
        ensures
            final(self).wf(),
            final(self).owner_id == old(self).owner_id,
            final(self).ft_contracts == old(self).ft_contracts,
            final(self).sales == old(self).sales,
            predecessor_account_id@ != old(self).owner_id@ ==> r == Err::<bool, MarketError>(MarketError::NotOwner)
                && final(self).nft_contracts == old(self).nft_contracts,
            predecessor_account_id@ == old(self).owner_id@ ==> r == Ok::<bool, MarketError>(
                !account_views(old(self).nft_contracts@).contains(nft_contract@),
            ) && account_views(final(self).nft_contracts@) == (if account_views(old(self).nft_contracts@).contains(nft_contract@) {
                account_views(old(self).nft_contracts@)
            } else {
                account_views(old(self).nft_contracts@).push(nft_contract@)
            }),
    {
        self.assert_owner(predecessor_account_id)?;
        Ok(insert_account(&mut self.nft_contracts, nft_contract))
    }

    /// Lets the owner add a payment token; returns whether it was new.
    pub fn add_ft_contract(&mut self, predecessor_account_id: &String, ft_contract: String) -> (r: Result<bool, MarketError>)
        requires
            old(self).wf(),
        ensures
            final(self).wf(),
            final(self).owner_id == old(self).owner_id,
            final(self).nft_contracts == old(self).nft_contracts,
            final(self).sales == old(self).sales,
            predecessor_account_id@ != old(self).owner_id@ ==> r == Err::<bool, MarketError>(MarketError::NotOwner)
                && final(self).ft_contracts == old(self).ft_contracts,
            predecessor_account_id@ == old(self).owner_id@ ==> r == Ok::<bool, MarketError>(
                !account_views(old(self).ft_contracts@).contains(ft_contract@),
            ) && account_views(final(self).ft_contracts@) == (if account_views(old(self).ft_contracts@).contains(ft_contract@) {
                account_views(old(self).ft_contracts@)
            } else {
                account_views(old(self).ft_contracts@).push(ft_contract@)
            }),
    {
        self.assert_owner(predecessor_account_id)?;
        Ok(insert_account(&mut self.ft_contracts, ft_contract))
    }

    /// The supported payment tokens, in the order they were added.
    pub fn supported_ft_contracts(&self) -> (r: Vec<String>)
        ensures
            account_views(r@) == account_views(self.ft_contracts@),
    {
        clone_accounts(&self.ft_contracts)
    }

    /// The supported NFT contracts, in the order they were added.
    pub fn supported_nft_contracts(&self) -> (r: Vec<String>)
        ensures
            account_views(r@) == account_views(self.nft_contracts@),
    {
        clone_accounts(&self.nft_contracts)
    }

    /// The block time in milliseconds.
    pub fn get_now(&self, block_timestamp: u64) -> (r: u64)
        ensures
            r == spec_millis(block_timestamp),
    {
        millis(block_timestamp)
    }
}

/// A copy of a vector of account ids.
pub fn clone_accounts(v: &Vec<String>) -> (r: Vec<String>)
    ensures
        account_views(r@) == account_views(v@),
{
    let mut r: Vec<String> = Vec::new();
    let mut i: usize = 0;
    while i < v.len()
        invariant
            i <= v@.len(),
            r@.len() == i,
            forall|j: int| 0 <= j < i ==> (#[trigger] r@[j])@ == v@[j]@,
        decreases v@.len() - i,
    {
        let a = v[i].clone();
        r.push(a);
        i = i + 1;
    }
    assert(account_views(r@) =~= account_views(v@));
    r
}

} // verus!
