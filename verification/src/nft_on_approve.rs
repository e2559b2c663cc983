//! Listing a token for sale when its owner approves the market on it.
use vstd::prelude::*;
use crate::account::{contract_and_token_id, join_key};
use crate::context::{millis, spec_millis};
use crate::market::{account_views, contains_account, near_account, near_id, Market, MarketError};
use crate::ordered_map::inserted;
use crate::sale::{apply_step, lemma_inserted_keeps, Sale, SaleStep, SaleView};

verus! {

/// The terms of a sale, as the owner gives them in the approval's message.
pub struct SaleArgs {
    /// The price of a fixed-price sale, or the lowest bid of an auction.
    pub price: u128,
    /// When the auction ends, in milliseconds; 0 for a fixed-price sale.
    pub exp: u64,
    /// The payment token; native NEAR when absent.
    pub ft_contract: Option<String>,
}

/// The payment token of a sale listed with `args`.
pub open spec fn sale_ft(args: SaleArgs) -> Seq<char> {
    match args.ft_contract {
        Some(f) => f@,
        None => near_id(),
    }
}

/// Why a listing is refused, if it is: `nft_contracts` and `ft_contracts` are
/// the market's sets, `predecessor` the NFT contract that calls, `signer` the
/// account that signed the approval, `owner` the token's owner, and `args` the
/// terms (`None` when the message does not parse).
pub open spec fn approve_error(
    nft_contracts: Seq<Seq<char>>,
    ft_contracts: Seq<Seq<char>>,
    predecessor: Seq<char>,
    signer: Seq<char>,
    now: u64,
    owner: Seq<char>,
    args: Option<SaleArgs>,
) -> Option<MarketError> {
    if !nft_contracts.contains(predecessor) {
        Some(MarketError::UnsupportedNftContract)
    } else if predecessor == signer {
        Some(MarketError::NotCrossContractCall)
    } else if owner != signer {
        Some(MarketError::OwnerNotSigner)
    } else {
        match args {
            None => Some(MarketError::InvalidSaleArgs),
            Some(a) => {
                if !(a.exp == 0 || a.exp > now) {
                    Some(MarketError::ExpiryInPast)
                } else if !ft_contracts.contains(sale_ft(a)) {
                    Some(MarketError::UnsupportedFtContract)
                } else {
                    None
                }
            },
        }
    }
}

/// The sale that a listing creates.
pub open spec fn listed_sale(predecessor: Seq<char>, now: u64, token_id: Seq<char>, owner: Seq<char>, approval_id: u64, a: SaleArgs) -> SaleView {
    SaleView {
        owner_id: owner,
        approval_id,
        nft_contract: predecessor,
        token_id,
        ft_contract: sale_ft(a),
        min_price: a.price,
        bid: None,
        created_at: now,
        exp: a.exp,
    }
}

impl Market {
    /// Lists token `token_id` for sale when its owner `owner_id` approves the
    /// market on it: the NFT contract `predecessor_account_id` calls this in
    /// the transaction that `signer_account_id` signed. The sale is stored
    /// under `nft_contract||token_id` (replacing an earlier sale of the token),
    /// and that key is returned.
    pub fn nft_on_approve(
        &mut self,
        predecessor_account_id: &String,
        signer_account_id: &String,
        block_timestamp: u64,
        token_id: String,
        owner_id: String,
        approval_id: u64,
        args: Option<SaleArgs>,
    ) -> (r: Result<String, MarketError>)
        requires
            old(self).wf(),
        ensures
            final(self).sales@ == apply_step(
                old(self).sales@,
                if r is Ok {
                    SaleStep::List {
                        key: r.unwrap()@,
                        sale: listed_sale(predecessor_account_id@, spec_millis(block_timestamp), token_id@, owner_id@, approval_id, args.unwrap()),
                    }
                } else {
                    SaleStep::Unchanged
                },
            ),
            final(self).wf(),
            final(self).owner_id == old(self).owner_id,
            final(self).nft_contracts == old(self).nft_contracts,
            final(self).ft_contracts == old(self).ft_contracts,
            ({
                let err = approve_error(
                    account_views(old(self).nft_contracts@),
                    account_views(old(self).ft_contracts@),
                    predecessor_account_id@,
                    signer_account_id@,
                    spec_millis(block_timestamp),
                    owner_id@,
                    args,
                );
                match r {
                    Err(e) => err == Some(e) && final(self).sales == old(self).sales,
                    Ok(key) => {
                        &&& err is None
                        &&& key@ == join_key(predecessor_account_id@, token_id@)
                        &&& final(self).sales@ == inserted(
                            old(self).sales@,
                            key@,
                            listed_sale(predecessor_account_id@, spec_millis(block_timestamp), token_id@, owner_id@, approval_id, args.unwrap()),
                        )
                    },
                }
            }),
    {
        if !contains_account(&self.nft_contracts, predecessor_account_id) {
            return Err(MarketError::UnsupportedNftContract);
        }
        let nft_contract_id = predecessor_account_id.clone();
        if nft_contract_id == *signer_account_id {
            return Err(MarketError::NotCrossContractCall);
        }
        if !(owner_id == *signer_account_id) {
            return Err(MarketError::OwnerNotSigner);
        }
        let a = match args {
            Some(a) => a,
            None => return Err(MarketError::InvalidSaleArgs),
        };
        let now = millis(block_timestamp);
        if !(a.exp == 0 || a.exp > now) {
            return Err(MarketError::ExpiryInPast);
        }
        let the_ft_contract = match a.ft_contract {
            Some(f) => f,
            None => near_account(),
        };
        if !contains_account(&self.ft_contracts, &the_ft_contract) {
            return Err(MarketError::UnsupportedFtContract);
        }
        let key = contract_and_token_id(&nft_contract_id, &token_id);
        let sale = Sale {
            owner_id,
            approval_id,
            nft_contract: nft_contract_id,
            token_id,
            ft_contract: the_ft_contract,
            min_price: a.price,
            bid: None,
            created_at: now,
            exp: a.exp,
        };
        proof {
            lemma_inserted_keeps(old(self).sales@, key@, sale@);
        }
        self.sales.insert(key.clone(), sale);
        Ok(key)
    }
}

} // verus!
