//! Properties of the contracts that span calls.
use vstd::prelude::*;
use crate::account::{delim_from, join_key, lemma_join_segments};
use crate::market::{near_id, MarketActionView};
use crate::nft_on_approve::{approve_error, listed_sale};
use crate::ordered_map::{
    has_key, inserted, keys_distinct, lemma_key_index_unique, lemma_lookup_inserted, lemma_lookup_removed,
    lemma_inserted_distinct, lookup, removed,
};
use crate::park::{ParkActionView, ParkError};
use crate::proposals::{completion, unstaking, voter_return, voter_returns};
use crate::sale::{
    after_bid, all_leave_sale, apply_step, bid_error, is_purchase, leaves_sale, purchase_action, run_steps, same_but_bid,
    refund_action, settle_error, with_bid, BidView, SaleStep, SaleView,
};
use crate::stake::{acl_spec, lemma_first_supported_at, stake_error, NftAction, NftCallView, NftRole, StakeView, SupportedNftView};
use crate::views::{holds_named, lemma_first_named_none, stakes_for};

verus! {

/// A listed sale can be read back under the key the listing returned, and
/// the number of sales grows by one unless the token was listed already.
pub proof fn law_listing_is_readable(
    sales: Seq<(Seq<char>, SaleView)>,
    predecessor: Seq<char>,
    now: u64,
    token_id: Seq<char>,
    owner: Seq<char>,
    approval_id: u64,
    args: crate::nft_on_approve::SaleArgs,
)
    requires
        keys_distinct(sales),
    ensures
        ({
            let key = join_key(predecessor, token_id);
            let after = inserted(sales, key, listed_sale(predecessor, now, token_id, owner, approval_id, args));
            &&& lookup(after, key) == Some(listed_sale(predecessor, now, token_id, owner, approval_id, args))
            &&& after.len() == sales.len() + (if has_key(sales, key) { 0int } else { 1int })
        }),
{
    let key = join_key(predecessor, token_id);
    let sale = listed_sale(predecessor, now, token_id, owner, approval_id, args);
    lemma_lookup_inserted(sales, key, sale, key);
    lemma_inserted_distinct(sales, key, sale);
}

/// A bid that buys a fixed-price sale takes the sale off the market; the
/// token goes to the buyer and the seller is paid the whole deposit in NEAR.
pub proof fn law_purchase_ends_sale(sales: Seq<(Seq<char>, SaleView)>, buyer: Seq<char>, deposit: u128, key: Seq<char>)
    requires
        keys_distinct(sales),
        bid_error(sales, buyer, deposit, key) is None,
        is_purchase(lookup(sales, key).unwrap(), deposit),
    ensures
        lookup(removed(sales, key), key) is None,
        removed(sales, key).len() == sales.len() - 1,
        ({
            let sale = lookup(sales, key).unwrap();
            purchase_action(sale, buyer, near_id(), deposit) == (MarketActionView::PurchaseNft {
                nft_contract: sale.nft_contract,
                token_id: sale.token_id,
                approval_id: sale.approval_id,
                buyer_id: buyer,
                ft_contract: near_id(),
                seller_id: sale.owner_id,
                price: deposit,
            })
        }),
{
    lemma_lookup_removed(sales, key, key);
    crate::ordered_map::lemma_removed_distinct(sales, key);
}

/// Bids on a sale only go up: an accepted bid that does not buy the sale
/// exceeds the bid it replaces, covers an auction's minimum, and becomes the
/// sale's bid.
pub proof fn law_bids_increase(sales: Seq<(Seq<char>, SaleView)>, buyer: Seq<char>, deposit: u128, key: Seq<char>)
    requires
        keys_distinct(sales),
        bid_error(sales, buyer, deposit, key) is None,
        !is_purchase(lookup(sales, key).unwrap(), deposit),
    ensures
        ({
            let sale = lookup(sales, key).unwrap();
            let after = inserted(sales, key, with_bid(sale, BidView { owner_id: buyer, price: deposit }));
            &&& sale.bid is Some ==> deposit > sale.bid.unwrap().price
            &&& sale.exp > 0 ==> deposit >= sale.min_price
            &&& sale.exp == 0 ==> deposit < sale.min_price
            &&& lookup(after, key).unwrap().bid == Some(BidView { owner_id: buyer, price: deposit })
        }),
{
    let sale = lookup(sales, key).unwrap();
    lemma_lookup_inserted(sales, key, with_bid(sale, BidView { owner_id: buyer, price: deposit }), key);
}

/// Nobody can bid on their own sale, and only native NEAR sales take bids.
pub proof fn law_bid_requires_other_buyer_and_near(sales: Seq<(Seq<char>, SaleView)>, buyer: Seq<char>, deposit: u128, key: Seq<char>)
    requires
        bid_error(sales, buyer, deposit, key) is None,
    ensures
        has_key(sales, key),
        lookup(sales, key).unwrap().owner_id != buyer,
        lookup(sales, key).unwrap().ft_contract == near_id(),
        deposit > 0,
{
}

/// An auction settles only once it has expired and has a bid; it then goes
/// to its highest bidder for the bid's price, whoever calls.
pub proof fn law_settle_after_expiry(sales: Seq<(Seq<char>, SaleView)>, now: u64, key: Seq<char>)
    requires
        keys_distinct(sales),
        settle_error(sales, now, key) is None,
    ensures
        ({
            let sale = lookup(sales, key).unwrap();
            &&& sale.exp > 0
            &&& sale.exp < now
            &&& sale.bid is Some
            &&& lookup(removed(sales, key), key) is None
        }),
{
    lemma_lookup_removed(sales, key, key);
}

/// A voter may only vote; a creator may vote and create proposals.
pub proof fn law_role_permissions()
    ensures
        acl_spec(NftRole::Voter).contains(NftAction::Stake),
        !acl_spec(NftRole::Voter).contains(NftAction::Create),
        acl_spec(NftRole::Creator).contains(NftAction::Stake),
        acl_spec(NftRole::Creator).contains(NftAction::Create),
{
    assert(acl_spec(NftRole::Voter)[0] == NftAction::Stake);
    assert(acl_spec(NftRole::Creator)[1] == NftAction::Create);
    assert(acl_spec(NftRole::Creator)[0] == NftAction::Stake);
}

/// A vote is accepted only on a stake that holds a proposal, and a new
/// proposal only under a new key.
pub proof fn law_stake_targets(
    stakes: Seq<(Seq<char>, StakeView)>,
    nfts: Seq<SupportedNftView>,
    nft_contract: Seq<char>,
    token_id: Seq<char>,
    call: NftCallView,
)
    requires
        stake_error(stakes, nfts, nft_contract, token_id, Some(call)) is None,
    ensures
        call.proposal is None ==> call.proposal_id is Some && has_key(stakes, call.proposal_id.unwrap())
            && lookup(stakes, call.proposal_id.unwrap()).unwrap().proposal is Some,
        call.proposal is Some ==> !has_key(stakes, join_key(nft_contract, token_id)),
{
}

/// Only the staker can take an NFT back, and only once its proposal has
/// ended (for a proposal's NFT) or it has been staked an epoch (for a vote).
pub proof fn law_only_staker_unstakes(
    stakes: Seq<(Seq<char>, StakeView)>,
    epoch_millis: u64,
    now: u64,
    caller: Seq<char>,
    nft_contract: Seq<char>,
    token_id: Seq<char>,
)
    requires
        unstaking(stakes, epoch_millis, now, caller, nft_contract, token_id) is Ok,
    ensures
        lookup(stakes, join_key(nft_contract, token_id)) is Some,
        lookup(stakes, join_key(nft_contract, token_id)).unwrap().staker_id == caller,
        ({
            let stake = lookup(stakes, join_key(nft_contract, token_id)).unwrap();
            match stake.proposal {
                Some(p) => now >= stake.time + epoch_millis * p.lifetime,
                None => now >= stake.time + epoch_millis,
            }
        }),
{
}

/// Whether `a` sends an NFT back to `to` with a reward of one unit.
pub open spec fn returns_to(a: ParkActionView, to: Seq<char>) -> bool {
    match a {
        ParkActionView::SendNft { to: t, new_tokens, .. } => t == to && new_tokens == 1,
        _ => false,
    }
}

/// The returns of the voting stakes, when they succeed, are one per stake,
/// each to its staker with a reward of one unit.
pub proof fn lemma_voter_returns_len(s: Seq<(Seq<char>, StakeView)>)
    ensures
        voter_returns(s) is Ok ==> voter_returns(s).unwrap().len() == s.len(),
        voter_returns(s) is Ok ==> forall|i: int|
            0 <= i < s.len() ==> returns_to(#[trigger] voter_returns(s).unwrap()[i], s[i].1.staker_id),
    decreases s.len(),
{
    if s.len() > 0 {
        lemma_voter_returns_len(s.drop_last());
        if voter_returns(s) is Ok {
            let acts = voter_returns(s).unwrap();
            assert forall|i: int| 0 <= i < s.len() implies returns_to(#[trigger] acts[i], s[i].1.staker_id) by {
                if i < s.len() - 1 {
                    assert(acts[i] == voter_returns(s.drop_last()).unwrap()[i]);
                    assert(s[i] == s.drop_last()[i]);
                }
            }
        }
    }
}

/// A proposal completes only after its lifetime; completing it sends back
/// one NFT for each stake that voted on it, to that stake's staker, then the
/// proposal's own NFT to its creator; each return rewards one unit.
pub proof fn law_completion_returns_every_nft(
    stakes: Seq<(Seq<char>, StakeView)>,
    epoch_millis: u64,
    now: u64,
    nft_contract: Seq<char>,
    token_id: Seq<char>,
)
    requires
        completion(stakes, epoch_millis, now, nft_contract, token_id) is Ok,
    ensures
        ({
            let key = join_key(nft_contract, token_id);
            let stake = lookup(stakes, key).unwrap();
            let acts = completion(stakes, epoch_millis, now, nft_contract, token_id).unwrap();
            &&& stake.proposal is Some
            &&& now > stake.time + epoch_millis * stake.proposal.unwrap().lifetime
            &&& acts.len() == stakes_for(stakes, key).len() + 1
            &&& forall|i: int| 0 <= i < acts.len() - 1 ==> returns_to(#[trigger] acts[i], stakes_for(stakes, key)[i].1.staker_id)
            &&& acts.last() == (ParkActionView::SendNft { to: stake.staker_id, nft_contract, token_id, new_tokens: 1 })
        }),
{
    let key = join_key(nft_contract, token_id);
    let voters = stakes_for(stakes, key);
    lemma_voter_returns_len(voters);
    let acts = completion(stakes, epoch_millis, now, nft_contract, token_id).unwrap();
    assert forall|i: int| 0 <= i < acts.len() - 1 implies returns_to(#[trigger] acts[i], voters[i].1.staker_id) by {
        assert(acts[i] == voter_returns(voters).unwrap()[i]);
    }
}

/// The return of a voting NFT whose key holds one delimiter is resolved
/// under that same key, so the return's callback removes that very stake.
pub proof fn law_voter_return_resolves_its_stake(key: Seq<char>, stake: StakeView)
    requires
        voter_return(key, stake) is Ok,
        delim_from(key, delim_from(key, 0) + 2) == key.len(),
    ensures
        voter_return(key, stake).unwrap() matches ParkActionView::SendNft { to, nft_contract, token_id, new_tokens }
            && to == stake.staker_id && join_key(nft_contract, token_id) == key && new_tokens == 1,
{
    lemma_join_segments(key);
}

/// One step that leaves the sale under `k` in place keeps it readable with
/// every field but its bid unchanged, and keeps the keys distinct.
pub proof fn lemma_step_keeps_sale(sales: Seq<(Seq<char>, SaleView)>, step: SaleStep, k: Seq<char>)
    requires
        keys_distinct(sales),
        has_key(sales, k),
        leaves_sale(sales, step, k),
    ensures
        keys_distinct(apply_step(sales, step)),
        has_key(apply_step(sales, step), k),
        same_but_bid(lookup(apply_step(sales, step), k).unwrap(), lookup(sales, k).unwrap()),
{
    match step {
        SaleStep::Bid { buyer, deposit, key } => {
            let sale = lookup(sales, key).unwrap();
            let nb = with_bid(sale, BidView { owner_id: buyer, price: deposit });
            lemma_lookup_inserted(sales, key, nb, k);
            lemma_inserted_distinct(sales, key, nb);
            lemma_lookup_removed(sales, key, k);
            crate::ordered_map::lemma_removed_distinct(sales, key);
        },
        SaleStep::Unchanged => {},
        SaleStep::Remove { key } => {
            lemma_lookup_removed(sales, key, k);
            crate::ordered_map::lemma_removed_distinct(sales, key);
        },
        SaleStep::List { key, sale } => {
            lemma_lookup_inserted(sales, key, sale, k);
            lemma_inserted_distinct(sales, key, sale);
        },
    }
}

/// A listed sale stays readable across later calls, with every field but its
/// bid unchanged, as long as no call buys, settles, removes or re-lists it.
pub proof fn law_listed_sale_persists(sales: Seq<(Seq<char>, SaleView)>, steps: Seq<SaleStep>, k: Seq<char>)
    requires
        keys_distinct(sales),
        has_key(sales, k),
        all_leave_sale(sales, steps, k),
    ensures
        has_key(run_steps(sales, steps), k),
        same_but_bid(lookup(run_steps(sales, steps), k).unwrap(), lookup(sales, k).unwrap()),
    decreases steps.len(),
{
    if steps.len() > 0 {
        let next = apply_step(sales, steps[0]);
        lemma_step_keeps_sale(sales, steps[0], k);
        law_listed_sale_persists(next, steps.drop_first(), k);
    }
}

/// The law over the market's successive states: `states[i + 1]` is the
/// market's sales after the `i`-th call, whose `ensures` gives it as
/// `apply_step(states[i], steps[i])` (every call that changes the sales states
/// its step). If none of the calls buys, removes or re-lists the sale under
/// `k`, `get_sale(k)` still returns it with every field but its bid unchanged.
pub proof fn law_listed_sale_persists_over_calls(
    states: Seq<Seq<(Seq<char>, SaleView)>>,
    steps: Seq<SaleStep>,
    k: Seq<char>,
)
    requires
        states.len() == steps.len() + 1,
        keys_distinct(states[0]),
        has_key(states[0], k),
        forall|i: int| 0 <= i < steps.len() ==> #[trigger] states[i + 1] == apply_step(states[i], steps[i]),
        forall|i: int| 0 <= i < steps.len() ==> leaves_sale(states[i], #[trigger] steps[i], k),
    ensures
        has_key(states.last(), k),
        same_but_bid(lookup(states.last(), k).unwrap(), lookup(states[0], k).unwrap()),
    decreases steps.len(),
{
    if steps.len() > 0 {
        lemma_step_keeps_sale(states[0], steps[0], k);
        let rest = states.drop_first();
        assert forall|i: int| 0 <= i < steps.drop_first().len() implies #[trigger] rest[i + 1] == apply_step(rest[i], steps.drop_first()[i]) by {
            assert(rest[i + 1] == states[i + 2]);
            assert(steps.drop_first()[i] == steps[i + 1]);
        }
        assert forall|i: int| 0 <= i < steps.drop_first().len() implies leaves_sale(rest[i], #[trigger] steps.drop_first()[i], k) by {
            assert(steps.drop_first()[i] == steps[i + 1]);
        }
        assert(rest[0] == states[1]);
        law_listed_sale_persists_over_calls(rest, steps.drop_first(), k);
        assert(rest.last() == states.last());
    }
}

/// A key that was never listed reads as no sale.
pub proof fn law_unlisted_key_has_no_sale(sales: Seq<(Seq<char>, SaleView)>, k: Seq<char>)
    requires
        !has_key(sales, k),
    ensures
        lookup(sales, k) is None,
{
}

/// A proposal completes only once its whole lifetime has passed: `lifetime`
/// epochs of `epoch_millis` milliseconds from the time its NFT was staked.
/// Until then it is still active; once past, with every vote's key readable,
/// it completes.
pub proof fn law_completion_waits_whole_lifetime(
    stakes: Seq<(Seq<char>, StakeView)>,
    epoch_millis: u64,
    now: u64,
    nft_contract: Seq<char>,
    token_id: Seq<char>,
)
    requires
        lookup(stakes, join_key(nft_contract, token_id)) is Some,
        lookup(stakes, join_key(nft_contract, token_id)).unwrap().proposal is Some,
    ensures
        ({
            let key = join_key(nft_contract, token_id);
            let stake = lookup(stakes, key).unwrap();
            let end = stake.time + epoch_millis * stake.proposal.unwrap().lifetime;
            let r = completion(stakes, epoch_millis, now, nft_contract, token_id);
            &&& r is Ok ==> now > end
            &&& end <= u64::MAX && now <= end ==> r == Err::<Seq<ParkActionView>, ParkError>(ParkError::ProposalStillActive)
            &&& end > u64::MAX ==> r == Err::<Seq<ParkActionView>, ParkError>(ParkError::ArithmeticOverflow)
            &&& end <= u64::MAX && now > end && voter_returns(stakes_for(stakes, key)) is Ok ==> r is Ok
        }),
{
}

/// A bid in NEAR that tops the current offer on someone else's sale, and
/// does not buy it outright, is accepted on auctions and fixed-price sales
/// alike: it becomes the sale's bid, and the offer it replaces goes back in
/// full, in NEAR, to its bidder.
pub proof fn law_outbid_is_refunded(sales: Seq<(Seq<char>, SaleView)>, buyer: Seq<char>, deposit: u128, key: Seq<char>)
    requires
        keys_distinct(sales),
        lookup(sales, key) is Some,
        lookup(sales, key).unwrap().bid is Some,
        lookup(sales, key).unwrap().owner_id != buyer,
        lookup(sales, key).unwrap().ft_contract == seq!['n', 'e', 'a', 'r'],
        deposit > lookup(sales, key).unwrap().bid.unwrap().price,
        lookup(sales, key).unwrap().exp > 0 ==> deposit >= lookup(sales, key).unwrap().min_price,
        lookup(sales, key).unwrap().exp == 0 ==> deposit < lookup(sales, key).unwrap().min_price,
    ensures
        ({
            let sale = lookup(sales, key).unwrap();
            let b = sale.bid.unwrap();
            let after = after_bid(sales, buyer, deposit, key);
            &&& bid_error(sales, buyer, deposit, key) is None
            &&& !is_purchase(sale, deposit)
            &&& refund_action(sale, seq!['n', 'e', 'a', 'r']) == Some(
                MarketActionView::TransferNear { receiver_id: b.owner_id, amount: b.price },
            )
            &&& lookup(after, key) == Some(SaleView { bid: Some(BidView { owner_id: buyer, price: deposit }), ..sale })
            &&& after.len() == sales.len()
        }),
{
    let sale = lookup(sales, key).unwrap();
    let nb = with_bid(sale, BidView { owner_id: buyer, price: deposit });
    lemma_lookup_inserted(sales, key, nb, key);
}

/// A bid is accepted exactly when it is a positive deposit in NEAR on a
/// listed sale of someone else that either buys a fixed-price sale outright,
/// or meets an auction's minimum and tops the current offer. An accepted bid
/// that does not buy the sale becomes its bid, and any offer it replaces goes
/// back in full, in NEAR, to its bidder.
pub proof fn law_bid_acceptance(sales: Seq<(Seq<char>, SaleView)>, buyer: Seq<char>, deposit: u128, key: Seq<char>)
    requires
        keys_distinct(sales),
    ensures
        bid_error(sales, buyer, deposit, key) is None <==> {
            let sale = lookup(sales, key).unwrap();
            &&& lookup(sales, key) is Some
            &&& sale.owner_id != buyer
            &&& sale.ft_contract == seq!['n', 'e', 'a', 'r']
            &&& deposit > 0
            &&& (sale.exp == 0 && deposit >= sale.min_price) || ((sale.exp > 0 ==> deposit >= sale.min_price) && (
            sale.bid is Some ==> deposit > sale.bid.unwrap().price))
        },
        ({
            let sale = lookup(sales, key).unwrap();
            (bid_error(sales, buyer, deposit, key) is None && !(sale.exp == 0 && deposit >= sale.min_price)) ==> {
                &&& lookup(after_bid(sales, buyer, deposit, key), key) == Some(
                    SaleView { bid: Some(BidView { owner_id: buyer, price: deposit }), ..sale },
                )
                &&& refund_action(sale, seq!['n', 'e', 'a', 'r']) == match sale.bid {
                    Some(b) => Some(MarketActionView::TransferNear { receiver_id: b.owner_id, amount: b.price }),
                    None => None,
                }
            }
        }),
{
    let sale = lookup(sales, key).unwrap();
    let nb = with_bid(sale, BidView { owner_id: buyer, price: deposit });
    lemma_lookup_inserted(sales, key, nb, key);
}

/// A bid in NEAR on someone else's fixed-price sale that covers its price
/// buys the token: the sale leaves the market, the token goes to the buyer and
/// the seller is paid the deposit in NEAR.
pub proof fn law_covering_bid_buys(sales: Seq<(Seq<char>, SaleView)>, buyer: Seq<char>, deposit: u128, key: Seq<char>)
    requires
        keys_distinct(sales),
        lookup(sales, key) is Some,
        lookup(sales, key).unwrap().owner_id != buyer,
        lookup(sales, key).unwrap().ft_contract == seq!['n', 'e', 'a', 'r'],
        lookup(sales, key).unwrap().exp == 0,
        deposit > 0,
        deposit >= lookup(sales, key).unwrap().min_price,
    ensures
        ({
            let sale = lookup(sales, key).unwrap();
            let after = after_bid(sales, buyer, deposit, key);
            &&& bid_error(sales, buyer, deposit, key) is None
            &&& is_purchase(sale, deposit)
            &&& lookup(after, key) is None
            &&& after.len() == sales.len() - 1
            &&& purchase_action(sale, buyer, seq!['n', 'e', 'a', 'r'], deposit) == (MarketActionView::PurchaseNft {
                nft_contract: sale.nft_contract,
                token_id: sale.token_id,
                approval_id: sale.approval_id,
                buyer_id: buyer,
                ft_contract: seq!['n', 'e', 'a', 'r'],
                seller_id: sale.owner_id,
                price: deposit,
            })
        }),
{
    lemma_lookup_removed(sales, key, key);
    crate::ordered_map::lemma_removed_distinct(sales, key);
}

/// A listing is accepted exactly when a supported NFT contract makes it on
/// behalf of the token's owner, with terms that parse, an expiry that is not
/// past and a supported payment token: whatever its price, an auction with no
/// reserve too. It lists exactly the terms given.
pub proof fn law_valid_listing_is_accepted(
    nft_contracts: Seq<Seq<char>>,
    ft_contracts: Seq<Seq<char>>,
    predecessor: Seq<char>,
    signer: Seq<char>,
    now: u64,
    owner: Seq<char>,
    token_id: Seq<char>,
    approval_id: u64,
    args: Option<crate::nft_on_approve::SaleArgs>,
)
    ensures
        approve_error(nft_contracts, ft_contracts, predecessor, signer, now, owner, args) is None <==> {
            &&& nft_contracts.contains(predecessor)
            &&& predecessor != signer
            &&& owner == signer
            &&& args is Some
            &&& args.unwrap().exp == 0 || args.unwrap().exp > now
            &&& ft_contracts.contains(
                match args.unwrap().ft_contract {
                    Some(f) => f@,
                    None => seq!['n', 'e', 'a', 'r'],
                },
            )
        },
        args is Some ==> listed_sale(predecessor, now, token_id, owner, approval_id, args.unwrap()) == (SaleView {
            owner_id: owner,
            approval_id,
            nft_contract: predecessor,
            token_id,
            ft_contract: match args.unwrap().ft_contract {
                Some(f) => f@,
                None => seq!['n', 'e', 'a', 'r'],
            },
            min_price: args.unwrap().price,
            bid: None,
            created_at: now,
            exp: args.unwrap().exp,
        }),
{
}

/// An NFT whose contract's first entry has the creator role may create any
/// proposal, whatever its tasks and metadata, under a new key and a name no
/// stake's proposal holds.
pub proof fn law_new_proposal_is_accepted(
    stakes: Seq<(Seq<char>, StakeView)>,
    nfts: Seq<SupportedNftView>,
    nft_contract: Seq<char>,
    token_id: Seq<char>,
    call: NftCallView,
    i: int,
)
    requires
        call.proposal is Some,
        forall|k: int| 0 <= k < stakes.len() ==> (#[trigger] stakes[k]).0 != join_key(nft_contract, token_id),
        forall|k: int|
            0 <= k < stakes.len() ==> !((#[trigger] stakes[k]).1.proposal is Some
                && stakes[k].1.proposal.unwrap().name == call.proposal.unwrap().name),
        0 <= i < nfts.len(),
        nfts[i].contract_id == nft_contract,
        nfts[i].role == NftRole::Creator,
        forall|j: int| 0 <= j < i ==> (#[trigger] nfts[j]).contract_id != nft_contract,
    ensures
        stake_error(stakes, nfts, nft_contract, token_id, Some(call)) is None,
{
    let name = call.proposal.unwrap().name;
    lemma_first_named_none(stakes, name);
    assert forall|k: int| 0 <= k < stakes.len() implies !holds_named(#[trigger] stakes[k], name) by {}
    lemma_first_supported_at(nfts, nft_contract, i);
    assert(acl_spec(NftRole::Creator)[1] == NftAction::Create);
}

/// An NFT of any supported contract may vote on a stake that holds a proposal.
pub proof fn law_vote_is_accepted(
    stakes: Seq<(Seq<char>, StakeView)>,
    nfts: Seq<SupportedNftView>,
    nft_contract: Seq<char>,
    token_id: Seq<char>,
    call: NftCallView,
    k: int,
    i: int,
)
    requires
        keys_distinct(stakes),
        call.proposal is None,
        0 <= k < stakes.len(),
        call.proposal_id == Some(stakes[k].0),
        stakes[k].1.proposal is Some,
        0 <= i < nfts.len(),
        nfts[i].contract_id == nft_contract,
        forall|j: int| 0 <= j < i ==> (#[trigger] nfts[j]).contract_id != nft_contract,
    ensures
        stake_error(stakes, nfts, nft_contract, token_id, Some(call)) is None,
{
    lemma_key_index_unique(stakes, k);
    lemma_first_supported_at(nfts, nft_contract, i);
    assert(acl_spec(NftRole::Creator)[0] == NftAction::Stake);
    assert(acl_spec(NftRole::Voter)[0] == NftAction::Stake);
}

/// An auction can be settled exactly when it has expired and holds a bid:
/// by anyone and however long after its expiry. The token then goes to the
/// bidder and the seller is paid the bid in the sale's payment token.
pub proof fn law_expired_auction_settles(sales: Seq<(Seq<char>, SaleView)>, now: u64, key: Seq<char>)
    ensures
        settle_error(sales, now, key) is None <==> {
            &&& lookup(sales, key) is Some
            &&& lookup(sales, key).unwrap().bid is Some
            &&& lookup(sales, key).unwrap().exp > 0
            &&& lookup(sales, key).unwrap().exp < now
        },
        ({
            let sale = lookup(sales, key).unwrap();
            let b = sale.bid.unwrap();
            purchase_action(sale, b.owner_id, sale.ft_contract, b.price) == (MarketActionView::PurchaseNft {
                nft_contract: sale.nft_contract,
                token_id: sale.token_id,
                approval_id: sale.approval_id,
                buyer_id: b.owner_id,
                ft_contract: sale.ft_contract,
                seller_id: sale.owner_id,
                price: b.price,
            })
        }),
{
}

/// The staker of an NFT can always take it back once its time is up: the
/// whole lifetime of the proposal it created, or one epoch for a vote. The
/// NFT then goes back to the staker with a reward of one unit.
pub proof fn law_staker_unstakes_when_due(
    stakes: Seq<(Seq<char>, StakeView)>,
    epoch_millis: u64,
    now: u64,
    nft_contract: Seq<char>,
    token_id: Seq<char>,
)
    requires
        lookup(stakes, join_key(nft_contract, token_id)) is Some,
    ensures
        ({
            let stake = lookup(stakes, join_key(nft_contract, token_id)).unwrap();
            let end = match stake.proposal {
                Some(p) => stake.time + epoch_millis * p.lifetime,
                None => stake.time + epoch_millis,
            };
            end <= u64::MAX && now >= end ==> unstaking(stakes, epoch_millis, now, stake.staker_id, nft_contract, token_id)
                == Ok::<ParkActionView, ParkError>(
                ParkActionView::SendNft { to: stake.staker_id, nft_contract, token_id, new_tokens: 1 },
            )
        }),
{
}

/// The votes on a proposal are exactly the stakes, in their order, whose
/// `proposal_id` names it: completing the proposal returns each of them.
pub proof fn law_votes_are_the_stakes_naming_the_proposal(s: Seq<(Seq<char>, StakeView)>, pid: Seq<char>)
    ensures
        stakes_for(s, pid) == s.filter(|e: (Seq<char>, StakeView)| e.1.proposal_id == Some(pid)),
    decreases s.len(),
{
    reveal(Seq::filter);
    if s.len() > 0 {
        law_votes_are_the_stakes_naming_the_proposal(s.drop_last(), pid);
    }
}

} // verus!
