# parkdao

The logic of two NEAR contracts, verified with Verus:

- **market** — an NFT marketplace. Owners list tokens by approving the market
  (`nft_on_approve`); buyers pay a fixed price or bid in an auction (`bid`);
  an expired auction is settled by anyone (`settle`).
- **park** — an NFT staking pool. An NFT of a creator contract creates a
  proposal, NFTs vote on it (`nft_on_transfer`), and once the proposal's
  lifetime has passed every staked NFT is returned and its staker rewarded
  with the pool's token (`complete_proposal`, `resolve_send_nft`).

`src/` holds the verified library. A contract's state is a plain value; what
the chain supplies (caller, signer, deposit, block time, a callback's
outcome) comes in as arguments, and what the contract asks of the chain
(transfers, cross-contract calls, token deposits) comes back as action
values. `src/laws.rs` states properties that span calls.

`app/` holds the two contracts as NEAR contracts: each method reads the
chain, calls the library, stores the new state and performs the actions.
