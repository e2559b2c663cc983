use parkdao::context::PromiseOutcome;
use parkdao::owner_calls::{AddNftContractArgs, MultiOwnableCall, OwnerCall, SetRewardRateArgs, UpdateWeightsArgs};
use parkdao::park::{Contract, ParkAction, ParkError};
use parkdao::proposals::{Metadata, Proposal};
use parkdao::stake::{NftAction, NftCall, NftRole, SupportedNft};
use parkdao::token_metadata::TokenMetadata;

fn s(x: &str) -> String {
    x.to_string()
}

const TOTAL_SUPPLY: u128 = 1_000_000_000_000_000;
// 1_000_000_000 milliseconds, as a block timestamp in nanoseconds.
const T0: u64 = 1_000_000_000_000_000;

fn ms(t: u64) -> u64 {
    t * 1_000_000
}

fn proposal(name: &str, lifetime: u16) -> Proposal {
    Proposal { name: s(name), lifetime, metadata: None, tasks: Vec::new() }
}

fn park(epoch: u64) -> Contract {
    let (mut c, _) = Contract::new_default_meta(s("root"), 1_000_000, epoch, T0);
    c.on_call(OwnerCall::AddNftContract(Some(AddNftContractArgs { nft_contract: s("nft"), role: NftRole::Creator })))
        .unwrap();
    c
}

fn create(c: &mut Contract, who: &str, token: &str, name: &str, at: u64) -> Result<bool, ParkError> {
    c.nft_on_transfer(
        &s("nft"),
        at,
        s(who),
        s(who),
        s(token),
        Some(NftCall { proposal_id: None, proposal: Some(proposal(name, 1)) }),
    )
}

fn vote(c: &mut Contract, who: &str, token: &str, pid: &str, at: u64) -> Result<bool, ParkError> {
    c.nft_on_transfer(&s("nft"), at, s(who), s(who), s(token), Some(NftCall { proposal_id: Some(s(pid)), proposal: None }))
}

#[test]
fn test_new() {
    let (c, actions) = Contract::new_default_meta(s("bob"), TOTAL_SUPPLY, 30_000, T0);
    assert_eq!(actions.len(), 3);
    match &actions[0] {
        ParkAction::InitOwners { owners, threshold } => {
            assert_eq!(owners, &vec![s("bob")]);
            assert_eq!(*threshold, 1);
        }
        _ => panic!("expected the owners"),
    }
    match &actions[1] {
        ParkAction::RegisterAccount { account_id } => assert_eq!(account_id, "bob"),
        _ => panic!("expected a registration"),
    }
    match &actions[2] {
        ParkAction::Deposit { account_id, amount } => {
            assert_eq!(account_id, "bob");
            assert_eq!(*amount, TOTAL_SUPPLY);
        }
        _ => panic!("expected a deposit"),
    }
    assert_eq!(c.genesis(), 1_000_000_000);
    assert_eq!(c.reward_rate(), 0);
    assert!(c.supported_nfts().is_empty());
    assert!(c.stakes().is_empty());
}

#[test]
fn roles() {
    assert_eq!(NftRole::Voter.acl(), vec![NftAction::Stake]);
    assert_eq!(NftRole::Creator.acl(), vec![NftAction::Stake, NftAction::Create]);
    let voter = SupportedNft { contract_id: s("v"), role: NftRole::Voter };
    assert!(voter.can(NftAction::Stake));
    assert!(!voter.can(NftAction::Create));
    let creator = SupportedNft { contract_id: s("c"), role: NftRole::Creator };
    assert!(creator.can(NftAction::Stake));
    assert!(creator.can(NftAction::Create));
}

#[test]
fn owner_calls() {
    let (mut c, _) = Contract::new_default_meta(s("root"), 1, 5_000, T0);
    assert_eq!(c.on_call(OwnerCall::SetRewardRate(Some(SetRewardRateArgs { rate: 1000 }))), Ok(()));
    assert_eq!(c.reward_rate(), 1000);
    assert_eq!(
        c.on_call(OwnerCall::SetRewardRate(Some(SetRewardRateArgs { rate: 1001 }))),
        Err(ParkError::RateTooHigh)
    );
    assert_eq!(c.reward_rate(), 1000);
    assert_eq!(c.on_call(OwnerCall::SetRewardRate(None)), Err(ParkError::InvalidSetRewardRateArgs));
    assert_eq!(c.on_call(OwnerCall::AddNftContract(None)), Err(ParkError::InvalidAddNftContractArgs));
    assert_eq!(c.on_call(OwnerCall::UpdateWeights(None)), Err(ParkError::InvalidUpdateWeightsArgs));
    assert_eq!(c.on_call(OwnerCall::UpdateWeights(Some(UpdateWeightsArgs { proposal_id: s("x") }))), Ok(()));
    let add = || OwnerCall::AddNftContract(Some(AddNftContractArgs { nft_contract: s("nft"), role: NftRole::Voter }));
    assert_eq!(add().name(), MultiOwnableCall::AddNftContract);
    c.on_call(add()).unwrap();
    c.on_call(add()).unwrap();
    assert_eq!(c.supported_nfts(), vec![SupportedNft { contract_id: s("nft"), role: NftRole::Voter }]);
    match c.mint(true, s("root"), 5).unwrap() {
        ParkAction::Deposit { account_id, amount } => {
            assert_eq!(account_id, "root");
            assert_eq!(amount, 5);
        }
        _ => panic!("expected a deposit"),
    }
    assert!(matches!(c.mint(false, s("eve"), 5), Err(ParkError::NotOwner)));
}

#[test]
fn test_park() {
    let epoch = 5_000;
    let mut c = park(epoch);
    // alice creates a proposal with token 0
    assert_eq!(create(&mut c, "alice", "0", "to do a thing", T0), Ok(false));
    assert_eq!(c.stakes().len(), 1);
    assert_eq!(c.proposals().len(), 1);
    assert_eq!(c.proposal_by_name(s("to do a thing")).unwrap().lifetime, 1);
    // root votes on it with token 1
    let prop_id = "nft||0";
    assert_eq!(vote(&mut c, "root", "1", prop_id, T0), Ok(false));
    assert_eq!(c.stakes().len(), 2);
    let voters = c.stakes_for_proposal_id(s(prop_id));
    assert_eq!(voters.len(), 1);
    assert_eq!(voters[0].0, "nft||1");
    assert_eq!(c.my_stakes(&s("alice")).len(), 1);
    // too early
    assert_eq!(c.complete_proposal(T0, s("nft"), s("0")).err(), Some(ParkError::ProposalStillActive));
    // after the proposal's lifetime every NFT goes back
    let later = T0 + ms(epoch + 1);
    let actions = c.complete_proposal(later, s("nft"), s("0")).unwrap();
    assert_eq!(actions.len(), 2);
    match &actions[0] {
        ParkAction::SendNft { to, nft_contract, token_id, new_tokens } => {
            assert_eq!(to, "root");
            assert_eq!(nft_contract, "nft");
            assert_eq!(token_id, "1");
            assert_eq!(*new_tokens, 1);
        }
        _ => panic!("expected a return"),
    }
    match &actions[1] {
        ParkAction::SendNft { to, nft_contract, token_id, new_tokens } => {
            assert_eq!(to, "alice");
            assert_eq!(nft_contract, "nft");
            assert_eq!(token_id, "0");
            assert_eq!(*new_tokens, 1);
        }
        _ => panic!("expected a return"),
    }
    // each successful return removes the stake and rewards the staker
    let (n, a) = c.resolve_send_nft(1, PromiseOutcome::Successful, s("root"), 1, s("nft"), s("1")).unwrap();
    assert_eq!(n, 1);
    match a {
        ParkAction::Deposit { account_id, amount } => {
            assert_eq!(account_id, "root");
            assert_eq!(amount, 1);
        }
        _ => panic!("expected a deposit"),
    }
    c.resolve_send_nft(1, PromiseOutcome::Successful, s("alice"), 1, s("nft"), s("0")).unwrap();
    assert!(c.stakes().is_empty());
    assert!(c.proposals().is_empty());
}

#[test]
fn staking_errors() {
    let mut c = park(5_000);
    assert_eq!(
        c.nft_on_transfer(&s("nft"), T0, s("a"), s("a"), s("0"), None),
        Err(ParkError::InvalidStakeCall)
    );
    assert_eq!(
        c.nft_on_transfer(&s("nft"), T0, s("a"), s("a"), s("0"), Some(NftCall { proposal_id: None, proposal: None })),
        Err(ParkError::MissingProposalId)
    );
    assert_eq!(vote(&mut c, "a", "0", "nft||9", T0), Err(ParkError::NoMatchingProposal));
    create(&mut c, "alice", "0", "p", T0).unwrap();
    assert_eq!(create(&mut c, "bob", "0", "q", T0), Err(ParkError::ProposalIdTaken));
    assert_eq!(create(&mut c, "bob", "1", "p", T0), Err(ParkError::ProposalNameTaken));
    assert_eq!(
        c.nft_on_transfer(
            &s("other"),
            T0,
            s("a"),
            s("a"),
            s("0"),
            Some(NftCall { proposal_id: Some(s("nft||0")), proposal: None })
        ),
        Err(ParkError::InvalidNftContract)
    );
    c.on_call(OwnerCall::AddNftContract(Some(AddNftContractArgs { nft_contract: s("vote"), role: NftRole::Voter })))
        .unwrap();
    assert_eq!(
        c.nft_on_transfer(
            &s("vote"),
            T0,
            s("a"),
            s("a"),
            s("0"),
            Some(NftCall { proposal_id: None, proposal: Some(proposal("r", 1)) })
        ),
        Err(ParkError::ActionNotAllowed)
    );
    assert_eq!(
        c.nft_on_transfer(
            &s("vote"),
            T0,
            s("a"),
            s("a"),
            s("0"),
            Some(NftCall { proposal_id: Some(s("nft||0")), proposal: None })
        ),
        Ok(false)
    );
    assert_eq!(c.stakes().len(), 2);
    // a vote must target a proposal, not another vote
    assert_eq!(vote(&mut c, "bob", "5", "vote||0", T0), Err(ParkError::NoMatchingProposal));
    assert_eq!(c.stakes().len(), 2);
}

#[test]
fn unstaking() {
    let epoch = 5_000;
    let mut c = park(epoch);
    create(&mut c, "alice", "0", "p", T0).unwrap();
    vote(&mut c, "bob", "1", "nft||0", T0).unwrap();
    assert_eq!(c.unstake(&s("alice"), T0, s("nft"), s("9")).err(), Some(ParkError::NoMatchingStake));
    assert_eq!(c.unstake(&s("bob"), T0, s("nft"), s("0")).err(), Some(ParkError::Unauthorized));
    // before the proposal ends, and within a vote's first epoch, nothing comes back
    assert_eq!(c.unstake(&s("alice"), T0, s("nft"), s("0")).err(), Some(ParkError::TooEarlyToUnstake));
    assert_eq!(c.unstake(&s("bob"), T0, s("nft"), s("1")).err(), Some(ParkError::MinimumStakeTime));
    let later = T0 + ms(epoch);
    match c.unstake(&s("alice"), later, s("nft"), s("0")).unwrap() {
        ParkAction::SendNft { to, nft_contract, token_id, new_tokens } => {
            assert_eq!(to, "alice");
            assert_eq!(nft_contract, "nft");
            assert_eq!(token_id, "0");
            assert_eq!(new_tokens, 1);
        }
        _ => panic!("expected a return"),
    }
    assert!(c.unstake(&s("bob"), later, s("nft"), s("1")).is_ok());
}

#[test]
fn completion_errors() {
    let mut c = park(5_000);
    assert_eq!(c.complete_proposal(T0, s("nft"), s("0")).err(), Some(ParkError::StakeNotFound));
    create(&mut c, "alice", "0", "p", T0).unwrap();
    vote(&mut c, "bob", "1", "nft||0", T0).unwrap();
    assert_eq!(c.complete_proposal(T0, s("nft"), s("1")).err(), Some(ParkError::ProposalMissing));
    // a voting stake whose key does not name a valid contract cannot be returned
    c.on_call(OwnerCall::AddNftContract(Some(AddNftContractArgs { nft_contract: s("Bad"), role: NftRole::Voter })))
        .unwrap();
    vote(&mut c, "bob", "2", "nft||0", T0).unwrap();
    c.nft_on_transfer(&s("Bad"), T0, s("x"), s("x"), s("3"), Some(NftCall { proposal_id: Some(s("nft||0")), proposal: None }))
        .unwrap();
    let later = T0 + ms(10_000);
    assert_eq!(c.complete_proposal(later, s("nft"), s("0")).err(), Some(ParkError::InvalidStakeId));
    // overflowing end times are refused
    let (mut big, _) = Contract::new_default_meta(s("root"), 1, u64::MAX, T0);
    big.on_call(OwnerCall::AddNftContract(Some(AddNftContractArgs { nft_contract: s("nft"), role: NftRole::Creator })))
        .unwrap();
    create(&mut big, "alice", "0", "p", T0).unwrap();
    assert_eq!(big.complete_proposal(later, s("nft"), s("0")).err(), Some(ParkError::ArithmeticOverflow));
}

#[test]
fn callback_errors() {
    let mut c = park(5_000);
    create(&mut c, "alice", "0", "p", T0).unwrap();
    assert_eq!(
        c.resolve_send_nft(0, PromiseOutcome::Successful, s("alice"), 1, s("nft"), s("0")).err(),
        Some(ParkError::NotACallback)
    );
    assert_eq!(
        c.resolve_send_nft(1, PromiseOutcome::Failed, s("alice"), 1, s("nft"), s("0")).err(),
        Some(ParkError::UnableToReturnToken)
    );
    assert_eq!(
        c.resolve_send_nft(1, PromiseOutcome::Successful, s("alice"), 1, s("nft"), s("7")).err(),
        Some(ParkError::CouldntRemoveStake)
    );
    assert_eq!(c.stakes().len(), 1);
    assert!(c.remove_and_reward_stake(s("nft||0"), s("alice"), 3).is_ok());
    assert!(c.stakes().is_empty());
    assert_eq!(ParkError::RateTooHigh.message(), "Rate too high");
    let m = Metadata {
        name: s("m"),
        budget: Some(5),
        ft_contract: None,
        note: None,
        url: None,
        contact: None,
        media: None,
    };
    let p = Proposal { name: s("x"), lifetime: 2, metadata: Some(m.clone()), tasks: vec![m] };
    assert_eq!(p.clone(), p);
}

#[test]
fn token_metadata() {
    let (c, _) = Contract::new_default_meta(s("root"), 1, 5_000, T0);
    let m = c.ft_metadata();
    assert_eq!(m.spec, "ft-1.0.0");
    assert_eq!(m.name, "Park Token");
    assert_eq!(m.symbol, "PARK");
    assert_eq!(m.decimals, 24);
    assert!(m.icon.as_ref().unwrap().starts_with("data:image/svg+xml,"));
    assert!(m.is_valid());
    let with = |spec: &str, reference: Option<String>, hash: Option<Vec<u8>>| TokenMetadata {
        spec: s(spec),
        name: s("T"),
        symbol: s("T"),
        icon: None,
        reference,
        reference_hash: hash,
        decimals: 0,
    };
    assert_eq!(Contract::new(s("o"), 1, 1, with("ft-2.0.0", None, None), T0).err(), Some(ParkError::InvalidMetadata));
    assert_eq!(
        Contract::new(s("o"), 1, 1, with("ft-1.0.0", Some(s("r")), None), T0).err(),
        Some(ParkError::InvalidMetadata)
    );
    assert_eq!(
        Contract::new(s("o"), 1, 1, with("ft-1.0.0", Some(s("r")), Some(vec![0; 31])), T0).err(),
        Some(ParkError::InvalidReferenceHash)
    );
    let (c2, actions) = Contract::new(s("o"), 7, 1, with("ft-1.0.0", Some(s("r")), Some(vec![0; 32])), T0).unwrap();
    assert_eq!(actions.len(), 3);
    assert_eq!(c2.ft_metadata().reference_hash, Some(vec![0; 32]));
    assert!(c2.is_valid());
}
