//! Sales, bids and purchases.
use vstd::prelude::*;
use crate::account::{contract_and_token_id, join_key};
use crate::context::{millis, spec_millis, PromiseOutcome};
use crate::market::{near_account, near_id, payout_action, Market, MarketAction, MarketActionView, MarketError};
use crate::ordered_map::{has_key, inserted, key_index, lookup, removed};

verus! {

/// The highest offer on a sale so far.
#[derive(Debug, PartialEq, Eq)]
pub struct Bid {
    pub owner_id: String,
    /// In yoctoNEAR.
    pub price: u128,
}

/// A `Bid` with its account id by its view.
pub struct BidView {
    pub owner_id: Seq<char>,
    pub price: u128,
}

impl View for Bid {
    type V = BidView;

    open spec fn view(&self) -> BidView {
        BidView { owner_id: self.owner_id@, price: self.price }
    }
}

impl Clone for Bid {
    fn clone(&self) -> (r: Self)
        ensures
            r == *self,
    {
        Bid { owner_id: self.owner_id.clone(), price: self.price }
    }
}

/// A token listed for sale.
#[derive(Debug, PartialEq, Eq)]
pub struct Sale {
    /// The seller.
    pub owner_id: String,
    /// The approval id the NFT contract gave the market for this token.
    pub approval_id: u64,
    pub nft_contract: String,
    pub token_id: String,
    /// The payment token (`near` for native NEAR).
    pub ft_contract: String,
    /// The price of a fixed-price sale, or the lowest bid an auction accepts.
    pub min_price: u128,
    pub bid: Option<Bid>,
    /// When the sale was listed, in milliseconds.
    pub created_at: u64,
    /// When the auction ends, in milliseconds; 0 for a fixed-price sale.
    pub exp: u64,
}

/// A `Sale` with its strings by their views.
pub struct SaleView {
    pub owner_id: Seq<char>,
    pub approval_id: u64,
    pub nft_contract: Seq<char>,
    pub token_id: Seq<char>,
    pub ft_contract: Seq<char>,
    pub min_price: u128,
    pub bid: Option<BidView>,
    pub created_at: u64,
    pub exp: u64,
}

impl View for Sale {
    type V = SaleView;

    open spec fn view(&self) -> SaleView {
        SaleView {
            owner_id: self.owner_id@,
            approval_id: self.approval_id,
            nft_contract: self.nft_contract@,
            token_id: self.token_id@,
            ft_contract: self.ft_contract@,
            min_price: self.min_price,
            bid: match self.bid {
                Some(b) => Some(b@),
                None => None,
            },
            created_at: self.created_at,
            exp: self.exp,
        }
    }
}

impl Clone for Sale {
    fn clone(&self) -> (r: Self)
        ensures
            r == *self,
    {
        Sale {
            owner_id: self.owner_id.clone(),
            approval_id: self.approval_id,
            nft_contract: self.nft_contract.clone(),
            token_id: self.token_id.clone(),
            ft_contract: self.ft_contract.clone(),
            min_price: self.min_price,
            bid: match &self.bid {
                Some(b) => Some(b.clone()),
                None => None,
            },
            created_at: self.created_at,
            exp: self.exp,
        }
    }
}

/// A stored sale is consistent: it is kept under the key of its token, and a
/// bid on it is in native NEAR, positive, below the price of a fixed-price
/// sale and at least the minimum of an auction.
pub open spec fn sale_entry_ok(e: (Seq<char>, SaleView)) -> bool {
    &&& e.0 == join_key(e.1.nft_contract, e.1.token_id)
    &&& match e.1.bid {
        Some(b) => {
            &&& e.1.ft_contract == near_id()
            &&& b.price > 0
            &&& e.1.exp == 0 ==> b.price < e.1.min_price
            &&& e.1.exp > 0 ==> b.price >= e.1.min_price
        },
        None => true,
    }
}

/// The sale with `bid` as its bid.
pub open spec fn with_bid(s: SaleView, bid: BidView) -> SaleView {
    SaleView { bid: Some(bid), ..s }
}

/// Why a bid of `deposit` by `buyer` on the token under `key` is refused, if it is.
pub open spec fn bid_error(sales: Seq<(Seq<char>, SaleView)>, buyer: Seq<char>, deposit: u128, key: Seq<char>) -> Option<MarketError> {
    match lookup(sales, key) {
        None => Some(MarketError::NoSale),
        Some(sale) => {
            if sale.owner_id == buyer {
                Some(MarketError::BidOnOwnSale)
            } else if sale.ft_contract != near_id() {
                Some(MarketError::NotForSaleInNear)
            } else if deposit == 0 {
                Some(MarketError::ZeroDeposit)
            } else if sale.exp == 0 && deposit >= sale.min_price {
                None
            } else if sale.exp > 0 && sale.min_price > 0 && deposit < sale.min_price {
                Some(MarketError::DepositBelowMinPrice)
            } else if sale.bid is Some && deposit <= sale.bid.unwrap().price {
                Some(MarketError::BidTooLow)
            } else {
                None
            }
        },
    }
}

/// Whether a bid of `deposit` buys the sale outright: it is a fixed-price sale
/// and the deposit covers its price.
pub open spec fn is_purchase(sale: SaleView, deposit: u128) -> bool {
    sale.exp == 0 && deposit >= sale.min_price
}

/// The purchase of `sale` by `buyer` for `price` in `ft_contract`.
pub open spec fn purchase_action(sale: SaleView, buyer: Seq<char>, ft_contract: Seq<char>, price: u128) -> MarketActionView {
    MarketActionView::PurchaseNft {
        nft_contract: sale.nft_contract,
        token_id: sale.token_id,
        approval_id: sale.approval_id,
        buyer_id: buyer,
        ft_contract,
        seller_id: sale.owner_id,
        price,
    }
}

/// The refund of the bid a new bid replaces, if there was one.
pub open spec fn refund_action(sale: SaleView, ft_contract: Seq<char>) -> Option<MarketActionView> {
    match sale.bid {
        Some(b) => Some(payout_action(ft_contract, b.owner_id, b.price)),
        None => None,
    }
}

/// An optional action by its view.
pub open spec fn opt_action_view(a: Option<MarketAction>) -> Option<MarketActionView> {
    match a {
        Some(x) => Some(x@),
        None => None,
    }
}

/// Why settling the auction under `key` at time `now` is refused, if it is.
pub open spec fn settle_error(sales: Seq<(Seq<char>, SaleView)>, now: u64, key: Seq<char>) -> Option<MarketError> {
    match lookup(sales, key) {
        None => Some(MarketError::NoSale),
        Some(sale) => {
            if sale.bid is None {
                Some(MarketError::NoBidToSettle)
            } else if sale.exp == 0 {
                Some(MarketError::NotAnAuction)
            } else if !(sale.exp < now) {
                Some(MarketError::AuctionNotExpired)
            } else {
                None
            }
        },
    }
}

/// Every entry of `removed(s, k)` is an entry of `s`.
pub proof fn lemma_removed_keeps(s: Seq<(Seq<char>, SaleView)>, k: Seq<char>)
    requires
        forall|i: int| 0 <= i < s.len() ==> sale_entry_ok(#[trigger] s[i]),
    ensures
        forall|i: int| 0 <= i < removed(s, k).len() ==> sale_entry_ok(#[trigger] removed(s, k)[i]),
{
    if has_key(s, k) {
        let j = key_index(s, k);
        let t = removed(s, k);
        assert forall|i: int| 0 <= i < t.len() implies sale_entry_ok(#[trigger] t[i]) by {
            if i == j {
                assert(t[i] == s[s.len() - 1]);
            } else {
                assert(t[i] == s[i]);
            }
        }
    }
}

/// Every entry of `inserted(s, k, v)` is an entry of `s` or `(k, v)`.
pub proof fn lemma_inserted_keeps(s: Seq<(Seq<char>, SaleView)>, k: Seq<char>, v: SaleView)
    requires
        forall|i: int| 0 <= i < s.len() ==> sale_entry_ok(#[trigger] s[i]),
        sale_entry_ok((k, v)),
    ensures
        forall|i: int| 0 <= i < inserted(s, k, v).len() ==> sale_entry_ok(#[trigger] inserted(s, k, v)[i]),
{
    let t = inserted(s, k, v);
    assert forall|i: int| 0 <= i < t.len() implies sale_entry_ok(#[trigger] t[i]) by {
        if has_key(s, k) {
            if i != key_index(s, k) {
                assert(t[i] == s[i]);
            }
        } else if i < s.len() {
            assert(t[i] == s[i]);
        }
    }
}

/// Whether two sales agree in every field but their bids.
pub open spec fn same_but_bid(a: SaleView, b: SaleView) -> bool {
    SaleView { bid: None, ..a } == SaleView { bid: None, ..b }
}

/// What a call does to the market's sales; each call that can change them
/// states its step in its `ensures`: a bid (`bid`), the removal of a sale
/// (`settle`, `process_purchase`, `internal_remove_sale`), a listing
/// (`nft_on_approve`, `add_bid`), or nothing (a refused call).
pub enum SaleStep {
    Unchanged,
    Bid { buyer: Seq<char>, deposit: u128, key: Seq<char> },
    Remove { key: Seq<char> },
    List { key: Seq<char>, sale: SaleView },
}

/// The sales after a bid: refused bids change nothing, a purchase removes the
/// sale, any other bid replaces its bid.
pub open spec fn after_bid(sales: Seq<(Seq<char>, SaleView)>, buyer: Seq<char>, deposit: u128, key: Seq<char>) -> Seq<(Seq<char>, SaleView)> {
    let sale = lookup(sales, key).unwrap();
    if bid_error(sales, buyer, deposit, key) is Some {
        sales
    } else if is_purchase(sale, deposit) {
        removed(sales, key)
    } else {
        inserted(sales, key, with_bid(sale, BidView { owner_id: buyer, price: deposit }))
    }
}

/// The sales after one step.
pub open spec fn apply_step(sales: Seq<(Seq<char>, SaleView)>, step: SaleStep) -> Seq<(Seq<char>, SaleView)> {
    match step {
        SaleStep::Unchanged => sales,
        SaleStep::Bid { buyer, deposit, key } => after_bid(sales, buyer, deposit, key),
        SaleStep::Remove { key } => removed(sales, key),
        SaleStep::List { key, sale } => inserted(sales, key, sale),
    }
}

/// The sales after a sequence of steps.
pub open spec fn run_steps(sales: Seq<(Seq<char>, SaleView)>, steps: Seq<SaleStep>) -> Seq<(Seq<char>, SaleView)>
    decreases steps.len(),
{
    if steps.len() == 0 {
        sales
    } else {
        run_steps(apply_step(sales, steps[0]), steps.drop_first())
    }
}

/// Whether `step` leaves the sale under `k` in place: it neither buys,
/// removes nor re-lists it.
pub open spec fn leaves_sale(sales: Seq<(Seq<char>, SaleView)>, step: SaleStep, k: Seq<char>) -> bool {
    match step {
        SaleStep::Unchanged => true,
        SaleStep::Bid { buyer, deposit, key } => !(key == k && bid_error(sales, buyer, deposit, key) is None
            && is_purchase(lookup(sales, key).unwrap(), deposit)),
        SaleStep::Remove { key } => key != k,
        SaleStep::List { key, .. } => key != k,
    }
}

/// Whether every step of `steps`, run from `sales`, leaves the sale under `k` in place.
pub open spec fn all_leave_sale(sales: Seq<(Seq<char>, SaleView)>, steps: Seq<SaleStep>, k: Seq<char>) -> bool
    decreases steps.len(),
{
    steps.len() == 0 || (leaves_sale(sales, steps[0], k) && all_leave_sale(apply_step(sales, steps[0]), steps.drop_first(), k))
}

impl Market {
    /// Bids `attached_deposit` yoctoNEAR, from `predecessor_account_id`, on
    /// token `token_id` of `nft_contract`. On a fixed-price sale a deposit that
    /// covers the price buys the token: the sale is removed and the token is
    /// transferred to the buyer, who pays the deposit to the seller. Otherwise
    /// the deposit becomes the sale's bid and the bid it replaces is refunded.
    pub fn bid(
        &mut self,
        predecessor_account_id: &String,
        attached_deposit: u128,
        nft_contract: String,
        token_id: String,
    ) -> (r: Result<Option<MarketAction>, MarketError>)
        requires
            old(self).wf(),
        ensures
            final(self).sales@ == apply_step(
                old(self).sales@,
                SaleStep::Bid { buyer: predecessor_account_id@, deposit: attached_deposit, key: join_key(nft_contract@, token_id@) },
            ),
            final(self).wf(),
            final(self).owner_id == old(self).owner_id,
            final(self).nft_contracts == old(self).nft_contracts,
            final(self).ft_contracts == old(self).ft_contracts,
            ({
                let key = join_key(nft_contract@, token_id@);
                let buyer = predecessor_account_id@;
                let sales = old(self).sales@;
                let sale = lookup(sales, key).unwrap();
                match r {
                    Err(e) => bid_error(sales, buyer, attached_deposit, key) == Some(e)
                        && final(self).sales == old(self).sales,
                    Ok(a) => bid_error(sales, buyer, attached_deposit, key) is None
                        && if is_purchase(sale, attached_deposit) {
                            &&& final(self).sales@ == removed(sales, key)
                            &&& opt_action_view(a) == Some(purchase_action(sale, buyer, near_id(), attached_deposit))
                        } else {
                            &&& final(self).sales@ == inserted(sales, key, with_bid(sale, BidView { owner_id: buyer, price: attached_deposit }))
                            &&& opt_action_view(a) == refund_action(sale, near_id())
                        },
                }
            }),
    {
        let key = contract_and_token_id(&nft_contract, &token_id);
        let mut sale = match self.sales.get(&key) {
            Some(s) => s.clone(),
            None => return Err(MarketError::NoSale),
        };
        let buyer_id = predecessor_account_id.clone();
        if sale.owner_id == buyer_id {
            return Err(MarketError::BidOnOwnSale);
        }
        let ft_contract = near_account();
        if !(sale.ft_contract == ft_contract) {
            return Err(MarketError::NotForSaleInNear);
        }
        if attached_deposit == 0 {
            return Err(MarketError::ZeroDeposit);
        }
        let is_auction = sale.exp > 0;
        if !is_auction && attached_deposit >= sale.min_price {
            let a = self.process_purchase(nft_contract, token_id, ft_contract, attached_deposit, buyer_id)?;
            Ok(Some(a))
        } else {
            if is_auction && sale.min_price > 0 && attached_deposit < sale.min_price {
                return Err(MarketError::DepositBelowMinPrice);
            }
            proof {
                let i = key_index(old(self).sales@, key@);
                assert(sale_entry_ok(old(self).sales@[i]));
            }
            self.add_bid(key, attached_deposit, ft_contract, buyer_id, &mut sale)
        }
    }

    /// Settles the auction of token `token_id` of `nft_contract` once it has
    /// expired: the sale is removed and the token goes to the highest bidder,
    /// whose bid is paid to the seller. Anyone may settle.
    pub fn settle(&mut self, block_timestamp: u64, nft_contract: String, token_id: String) -> (r: Result<MarketAction, MarketError>)
        requires
            old(self).wf(),
        ensures
            final(self).sales@ == apply_step(
                old(self).sales@,
                if r is Ok { SaleStep::Remove { key: join_key(nft_contract@, token_id@) } } else { SaleStep::Unchanged },
            ),
            final(self).wf(),
            final(self).owner_id == old(self).owner_id,
            final(self).nft_contracts == old(self).nft_contracts,
            final(self).ft_contracts == old(self).ft_contracts,
            ({
                let key = join_key(nft_contract@, token_id@);
                let sales = old(self).sales@;
                let sale = lookup(sales, key).unwrap();
                let bid = sale.bid.unwrap();
                match r {
                    Err(e) => settle_error(sales, spec_millis(block_timestamp), key) == Some(e)
                        && final(self).sales == old(self).sales,
                    Ok(a) => settle_error(sales, spec_millis(block_timestamp), key) is None
                        && final(self).sales@ == removed(sales, key)
                        && a@ == purchase_action(sale, bid.owner_id, sale.ft_contract, bid.price),
                }
            }),
    {
        let key = contract_and_token_id(&nft_contract, &token_id);
        let sale = match self.sales.get(&key) {
            Some(s) => s.clone(),
            None => return Err(MarketError::NoSale),
        };
        let bid = match sale.bid {
            Some(b) => b,
            None => return Err(MarketError::NoBidToSettle),
        };
        if !(sale.exp > 0) {
            return Err(MarketError::NotAnAuction);
        }
        if !(sale.exp < millis(block_timestamp)) {
            return Err(MarketError::AuctionNotExpired);
        }
        self.process_purchase(nft_contract, token_id, sale.ft_contract, bid.price, bid.owner_id)
    }

    /// Removes the sale of token `token_id` of `nft_contract` and transfers
    /// the token to `buyer_id`; once the transfer succeeds, `price` of
    /// `ft_contract` is paid to the seller.
    pub fn process_purchase(
        &mut self,
        nft_contract: String,
        token_id: String,
        ft_contract: String,
        price: u128,
        buyer_id: String,
    ) -> (r: Result<MarketAction, MarketError>)
        requires
            old(self).wf(),
        ensures
            final(self).sales@ == apply_step(old(self).sales@, SaleStep::Remove { key: join_key(nft_contract@, token_id@) }),
            final(self).wf(),
            final(self).owner_id == old(self).owner_id,
            final(self).nft_contracts == old(self).nft_contracts,
            final(self).ft_contracts == old(self).ft_contracts,
            ({
                let key = join_key(nft_contract@, token_id@);
                let sales = old(self).sales@;
                match r {
                    Err(e) => e == MarketError::NoSale && !has_key(sales, key)
                        && final(self).sales == old(self).sales,
                    Ok(a) => has_key(sales, key)
                        && final(self).sales@ == removed(sales, key)
                        && a@ == purchase_action(lookup(sales, key).unwrap(), buyer_id@, ft_contract@, price),
                }
            }),
    {
        let sale = self.internal_remove_sale(nft_contract, token_id)?;
        Ok(MarketAction::PurchaseNft {
            nft_contract: sale.nft_contract,
            token_id: sale.token_id,
            approval_id: sale.approval_id,
            buyer_id,
            ft_contract,
            seller_id: sale.owner_id,
            price,
        })
    }

    /// Makes `amount` from `buyer_id` the bid of `sale`, stored under
    /// `contract_and_token_id`, refunding the bid it replaces; a new bid must
    /// be higher than the current one.
    pub fn add_bid(
        &mut self,
        contract_and_token_id: String,
        amount: u128,
        ft_contract: String,
        buyer_id: String,
        sale: &mut Sale,
    ) -> (r: Result<Option<MarketAction>, MarketError>)
        requires
            old(self).wf(),
        ensures
            final(self).sales@ == apply_step(
                old(self).sales@,
                if r is Ok { SaleStep::List { key: contract_and_token_id@, sale: final(sale)@ } } else { SaleStep::Unchanged },
            ),
            final(self).owner_id == old(self).owner_id,
            final(self).nft_contracts == old(self).nft_contracts,
            final(self).ft_contracts == old(self).ft_contracts,
            final(self).sales.wf(),
            sale_entry_ok((contract_and_token_id@, final(sale)@)) ==> final(self).wf(),
            match r {
                Err(e) => {
                    &&& e == MarketError::BidTooLow
                    &&& old(sale).bid is Some && amount <= old(sale).bid.unwrap().price
                    &&& final(self).sales == old(self).sales
                    &&& *final(sale) == *old(sale)
                },
                Ok(a) => {
                    &&& !(old(sale).bid is Some && amount <= old(sale).bid.unwrap().price)
                    &&& final(sale)@ == with_bid(old(sale)@, BidView { owner_id: buyer_id@, price: amount })
                    &&& final(self).sales@ == inserted(old(self).sales@, contract_and_token_id@, final(sale)@)
                    &&& opt_action_view(a) == refund_action(old(sale)@, ft_contract@)
                },
            },
    {
        let refund = match &sale.bid {
            Some(current_bid) => {
                if amount <= current_bid.price {
                    return Err(MarketError::BidTooLow);
                }
                Some(self.payout(ft_contract, current_bid.owner_id.clone(), current_bid.price))
            },
            None => None,
        };
        sale.bid = Some(Bid { owner_id: buyer_id, price: amount });
        self.sales.insert(contract_and_token_id, sale.clone());
        proof {
            if sale_entry_ok((contract_and_token_id@, sale@)) {
                lemma_inserted_keeps(old(self).sales@, contract_and_token_id@, sale@);
            }
        }
        Ok(refund)
    }

    /// The callback after the token of a purchase was transferred: pays
    /// `price` of `ft_contract` to `seller_id` if the transfer succeeded.
    pub fn resolve_purchase(&self, outcome: PromiseOutcome, ft_contract: String, seller_id: String, price: u128) -> (r: Result<MarketAction, MarketError>)
        ensures
            match outcome {
                PromiseOutcome::Successful => r is Ok && r.unwrap()@ == payout_action(ft_contract@, seller_id@, price),
                PromiseOutcome::Failed => r == Err::<MarketAction, MarketError>(MarketError::NftTransferFailed),
            },
    {
        match outcome {
            PromiseOutcome::Successful => Ok(self.payout(ft_contract, seller_id, price)),
            PromiseOutcome::Failed => Err(MarketError::NftTransferFailed),
        }
    }

    /// Pays `amount` of `ft_contract` to `receiver`: a native transfer for
    /// `near`, an `ft_transfer` call otherwise.
    pub fn payout(&self, ft_contract: String, receiver: String, amount: u128) -> (r: MarketAction)
        ensures
            r@ == payout_action(ft_contract@, receiver@, amount),
    {
        if ft_contract == near_account() {
            MarketAction::TransferNear { receiver_id: receiver, amount }
        } else {
            MarketAction::TransferFt { ft_contract, receiver_id: receiver, amount }
        }
    }

    /// Removes and returns the sale of token `token_id` of `nft_contract`.
    pub fn internal_remove_sale(&mut self, nft_contract: String, token_id: String) -> (r: Result<Sale, MarketError>)
        requires
            old(self).wf(),
        ensures
            final(self).sales@ == apply_step(old(self).sales@, SaleStep::Remove { key: join_key(nft_contract@, token_id@) }),
            final(self).wf(),
            final(self).owner_id == old(self).owner_id,
            final(self).nft_contracts == old(self).nft_contracts,
            final(self).ft_contracts == old(self).ft_contracts,
            ({
                let key = join_key(nft_contract@, token_id@);
                match r {
                    Err(e) => e == MarketError::NoSale && !has_key(old(self).sales@, key)
                        && final(self).sales == old(self).sales,
                    Ok(s) => lookup(old(self).sales@, key) == Some(s@)
                        && final(self).sales@ == removed(old(self).sales@, key),
                }
            }),
    {
        let key = contract_and_token_id(&nft_contract, &token_id);
        match self.sales.remove(&key) {
            Some(s) => {
                proof {
                    lemma_removed_keeps(old(self).sales@, key@);
                }
                Ok(s)
            },
            None => Err(MarketError::NoSale),
        }
    }
}

} // verus!
