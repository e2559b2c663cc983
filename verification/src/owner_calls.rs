//! What the pool's owners may do.
use vstd::prelude::*;
use crate::park::{Contract, ParkAction, ParkActionView, ParkError};
use crate::stake::{insert_nft, nft_views, NftRole, SupportedNft, SupportedNftView};

verus! {

/// The calls the pool's owners may make.
#[derive(Clone, Copy, Debug, PartialEq, Eq)]
pub enum MultiOwnableCall {
    UpdateWeights,
    SetRewardRate,
    AddNftContract,
}

/// The arguments of `set_reward_rate`.
#[derive(Clone, Copy, Debug, PartialEq, Eq)]
pub struct SetRewardRateArgs {
    /// In basis points per epoch.
    pub rate: u16,
}

/// The arguments of `add_nft_contract`.
#[derive(Debug, PartialEq, Eq)]
pub struct AddNftContractArgs {
    pub nft_contract: String,
    pub role: NftRole,
}

/// The arguments of `update_weights`.
#[derive(Debug, PartialEq, Eq)]
pub struct UpdateWeightsArgs {
    pub proposal_id: String,
}

/// An owners' call with its arguments (`None` where they do not parse).
pub enum OwnerCall {
    UpdateWeights(Option<UpdateWeightsArgs>),
    SetRewardRate(Option<SetRewardRateArgs>),
    AddNftContract(Option<AddNftContractArgs>),
}

impl OwnerCall {
    /// Which call this is.
    pub fn name(&self) -> (r: MultiOwnableCall)
        ensures
            r == match self {
                OwnerCall::UpdateWeights(_) => MultiOwnableCall::UpdateWeights,
                OwnerCall::SetRewardRate(_) => MultiOwnableCall::SetRewardRate,
                OwnerCall::AddNftContract(_) => MultiOwnableCall::AddNftContract,
            },
    {
        match self {
            OwnerCall::UpdateWeights(_) => MultiOwnableCall::UpdateWeights,
            OwnerCall::SetRewardRate(_) => MultiOwnableCall::SetRewardRate,
            OwnerCall::AddNftContract(_) => MultiOwnableCall::AddNftContract,
        }
    }
}

impl Contract {
    /// Lets an owner (`is_owner`, as the ownership component decides) mint
    /// `amount` of the pool's token to themself, the caller `predecessor_account_id`.
    pub fn mint(&self, is_owner: bool, predecessor_account_id: String, amount: u128) -> (r: Result<ParkAction, ParkError>)
        ensures
            is_owner ==> r is Ok && r.unwrap()@ == (ParkActionView::Deposit { account_id: predecessor_account_id@, amount }),
            !is_owner ==> r == Err::<ParkAction, ParkError>(ParkError::NotOwner),
    {
        if !is_owner {
            return Err(ParkError::NotOwner);
        }
        Ok(ParkAction::Deposit { account_id: predecessor_account_id, amount })
    }

    /// Sets the reward rate to `args.rate`, at most 1000 basis points.
    pub fn _set_reward_rate(&mut self, args: Option<SetRewardRateArgs>) -> (r: Result<(), ParkError>)
        requires
            old(self).wf(),
        ensures
            final(self).wf(),
            final(self).genesis == old(self).genesis,
            final(self).metadata == old(self).metadata,
            final(self).epoch_millis == old(self).epoch_millis,
            final(self).nfts == old(self).nfts,
            final(self).stakes == old(self).stakes,
            match args {
                None => r == Err::<(), ParkError>(ParkError::InvalidSetRewardRateArgs)
                    && final(self).reward_rate == old(self).reward_rate,
                Some(a) => if a.rate <= 1000 {
                    r is Ok && final(self).reward_rate == a.rate
                } else {
                    r == Err::<(), ParkError>(ParkError::RateTooHigh) && final(self).reward_rate == old(self).reward_rate
                },
            },
    {
        let rate = match args {
            Some(a) => a.rate,
            None => return Err(ParkError::InvalidSetRewardRateArgs),
        };
        if rate > 1000 {
            return Err(ParkError::RateTooHigh);
        }
        self.reward_rate = rate;
        Ok(())
    }

    /// Adds `args.nft_contract` with role `args.role` to the supported NFTs,
    /// unless that entry is there.
    pub fn _add_nft_contract(&mut self, args: Option<AddNftContractArgs>) -> (r: Result<(), ParkError>)
        requires
            old(self).wf(),
        ensures
            final(self).wf(),
            final(self).genesis == old(self).genesis,
            final(self).metadata == old(self).metadata,
            final(self).epoch_millis == old(self).epoch_millis,
            final(self).reward_rate == old(self).reward_rate,
            final(self).stakes == old(self).stakes,
            match args {
                None => r == Err::<(), ParkError>(ParkError::InvalidAddNftContractArgs) && final(self).nfts == old(self).nfts,
                Some(a) => {
                    let n = SupportedNftView { contract_id: a.nft_contract@, role: a.role };
                    &&& r is Ok
                    &&& nft_views(final(self).nfts@) == if nft_views(old(self).nfts@).contains(n) {
                        nft_views(old(self).nfts@)
                    } else {
                        nft_views(old(self).nfts@).push(n)
                    }
                },
            },
    {
        let a = match args {
            Some(a) => a,
            None => return Err(ParkError::InvalidAddNftContractArgs),
        };
        insert_nft(&mut self.nfts, SupportedNft { role: a.role, contract_id: a.nft_contract });
        Ok(())
    }

    /// Checks the arguments of `update_weights`, which changes nothing.
    pub fn _update_weights(&self, args: Option<UpdateWeightsArgs>) -> (r: Result<(), ParkError>)
        ensures
            r is Ok <==> args is Some,
            r is Err ==> r == Err::<(), ParkError>(ParkError::InvalidUpdateWeightsArgs),
    {
        match args {
            Some(_) => Ok(()),
            None => Err(ParkError::InvalidUpdateWeightsArgs),
        }
    }

    /// Runs a call the owners agreed on.
    pub fn on_call(&mut self, call: OwnerCall) -> (r: Result<(), ParkError>)
        requires
            old(self).wf(),
        ensures
            final(self).wf(),
            final(self).genesis == old(self).genesis,
            final(self).metadata == old(self).metadata,
            final(self).epoch_millis == old(self).epoch_millis,
            final(self).stakes == old(self).stakes,
            match call {
                OwnerCall::UpdateWeights(a) => {
                    &&& (r is Ok <==> a is Some)
                    &&& (r is Err ==> r == Err::<(), ParkError>(ParkError::InvalidUpdateWeightsArgs))
                    &&& *final(self) == *old(self)
                },
                OwnerCall::SetRewardRate(a) => {
                    &&& final(self).nfts == old(self).nfts
                    &&& match a {
                        None => r == Err::<(), ParkError>(ParkError::InvalidSetRewardRateArgs)
                            && final(self).reward_rate == old(self).reward_rate,
                        Some(x) => if x.rate <= 1000 {
                            r is Ok && final(self).reward_rate == x.rate
                        } else {
                            r == Err::<(), ParkError>(ParkError::RateTooHigh)
                                && final(self).reward_rate == old(self).reward_rate
                        },
                    }
                },
                OwnerCall::AddNftContract(a) => {
                    &&& final(self).reward_rate == old(self).reward_rate
                    &&& match a {
                        None => r == Err::<(), ParkError>(ParkError::InvalidAddNftContractArgs)
                            && final(self).nfts == old(self).nfts,
                        Some(x) => {
                            let n = SupportedNftView { contract_id: x.nft_contract@, role: x.role };
                            &&& r is Ok
                            &&& nft_views(final(self).nfts@) == if nft_views(old(self).nfts@).contains(n) {
                                nft_views(old(self).nfts@)
                            } else {
                                nft_views(old(self).nfts@).push(n)
                            }
                        },
                    }
                },
            },
    {
        match call {
            OwnerCall::SetRewardRate(a) => self._set_reward_rate(a),
            OwnerCall::UpdateWeights(a) => self._update_weights(a),
            OwnerCall::AddNftContract(a) => self._add_nft_contract(a),
        }
    }
}

} // verus!
