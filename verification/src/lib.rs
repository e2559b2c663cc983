//! The logic of the parkdao contracts: an NFT marketplace with fixed-price
//! sales and auctions (`market`), and an NFT staking pool where NFTs create
//! proposals and vote on them (`park`).
//!
//! The contracts' persistent state is modelled as plain values; everything the
//! blockchain supplies (caller, signer, attached deposit, block time, the
//! outcome of a cross-contract call) comes in as an argument, and everything a
//! contract asks the chain to do (transfers, cross-contract calls, token
//! deposits) comes back as an action value.

pub mod ordered_map;
pub mod account;
pub mod context;
pub mod market;
pub mod sale;
pub mod nft_on_approve;
pub mod sale_views;
pub mod park;
pub mod stake;
pub mod proposals;
pub mod views;
pub mod owner_calls;
pub mod laws;
pub mod validity;
pub mod token_metadata;
