use parkdao::context::PromiseOutcome;
use parkdao::market::{Market, MarketAction, MarketError, StorageKey};
use parkdao::nft_on_approve::SaleArgs;
use parkdao::sale::{Bid, Sale};

fn s(x: &str) -> String {
    x.to_string()
}

// 1_000_000_000 milliseconds, as a block timestamp in nanoseconds.
const T0: u64 = 1_000_000_000_000_000;
const BASE_GAS: u128 = 5_000_000_000_000;

fn market() -> Market {
    Market::new(s("root"), s("nft"))
}

fn list(m: &mut Market, token: &str, price: u128, exp: u64) -> Result<String, MarketError> {
    m.nft_on_approve(
        &s("nft"),
        &s("root"),
        T0,
        s(token),
        s("root"),
        7,
        Some(SaleArgs { price, exp, ft_contract: None }),
    )
}

#[test]
fn simulate_market_listing() {
    let mut m = market();
    let key = list(&mut m, "0", 12, 9999999999).unwrap();
    assert_eq!(key, "nft||0");
    assert!(m.get_sale(key).is_some());
}

#[test]
fn new_market_supports_near_and_the_nft_contract() {
    let m = market();
    assert_eq!(m.owner_id(), "root");
    assert_eq!(m.supported_ft_contracts(), vec![s("near")]);
    assert_eq!(m.supported_nft_contracts(), vec![s("nft")]);
    assert_eq!(m.get_supply_sales(), 0);
    assert_eq!(StorageKey::Sales, StorageKey::Sales);
}

#[test]
fn only_owner_adds_contracts() {
    let mut m = market();
    assert_eq!(m.add_nft_contract(&s("alice"), s("nft2")), Err(MarketError::NotOwner));
    assert_eq!(m.add_nft_contract(&s("root"), s("nft2")), Ok(true));
    assert_eq!(m.add_nft_contract(&s("root"), s("nft2")), Ok(false));
    assert_eq!(m.supported_nft_contracts(), vec![s("nft"), s("nft2")]);
    assert_eq!(m.add_ft_contract(&s("bob"), s("usdc")), Err(MarketError::NotOwner));
    assert_eq!(m.add_ft_contract(&s("root"), s("usdc")), Ok(true));
    assert_eq!(m.add_ft_contract(&s("root"), s("near")), Ok(false));
    assert_eq!(m.supported_ft_contracts(), vec![s("near"), s("usdc")]);
}

#[test]
fn listing_stores_the_sale() {
    let mut m = market();
    let key = list(&mut m, "0", 12, 0).unwrap();
    assert_eq!(m.get_supply_sales(), 1);
    let sale = m.get_sale(key).unwrap();
    assert_eq!(
        sale,
        Sale {
            owner_id: s("root"),
            approval_id: 7,
            nft_contract: s("nft"),
            token_id: s("0"),
            ft_contract: s("near"),
            min_price: 12,
            bid: None,
            created_at: 1_000_000_000,
            exp: 0,
        }
    );
    // listing the same token again replaces the sale
    list(&mut m, "0", 20, 0).unwrap();
    assert_eq!(m.get_supply_sales(), 1);
    assert_eq!(m.get_sale(s("nft||0")).unwrap().min_price, 20);
}

#[test]
fn listing_errors() {
    let mut m = market();
    let args = || Some(SaleArgs { price: 1, exp: 0, ft_contract: None });
    assert_eq!(
        m.nft_on_approve(&s("other"), &s("root"), T0, s("0"), s("root"), 0, args()),
        Err(MarketError::UnsupportedNftContract)
    );
    assert_eq!(
        m.nft_on_approve(&s("nft"), &s("nft"), T0, s("0"), s("nft"), 0, args()),
        Err(MarketError::NotCrossContractCall)
    );
    assert_eq!(
        m.nft_on_approve(&s("nft"), &s("root"), T0, s("0"), s("alice"), 0, args()),
        Err(MarketError::OwnerNotSigner)
    );
    assert_eq!(
        m.nft_on_approve(&s("nft"), &s("root"), T0, s("0"), s("root"), 0, None),
        Err(MarketError::InvalidSaleArgs)
    );
    assert_eq!(list(&mut m, "0", 1, 1_000_000_000), Err(MarketError::ExpiryInPast));
    assert_eq!(
        m.nft_on_approve(
            &s("nft"),
            &s("root"),
            T0,
            s("0"),
            s("root"),
            0,
            Some(SaleArgs { price: 1, exp: 0, ft_contract: Some(s("usdc")) })
        ),
        Err(MarketError::UnsupportedFtContract)
    );
    assert_eq!(m.get_supply_sales(), 0);
}

#[test]
fn buy_at_fixed_price() {
    let mut m = market();
    list(&mut m, "1", 12, 0).unwrap();
    let a = m.bid(&s("alice"), BASE_GAS, s("nft"), s("1")).unwrap().unwrap();
    match a {
        MarketAction::PurchaseNft { nft_contract, token_id, approval_id, buyer_id, ft_contract, seller_id, price } => {
            assert_eq!(nft_contract, "nft");
            assert_eq!(token_id, "1");
            assert_eq!(approval_id, 7);
            assert_eq!(buyer_id, "alice");
            assert_eq!(ft_contract, "near");
            assert_eq!(seller_id, "root");
            assert_eq!(price, BASE_GAS);
        }
        _ => panic!("expected a purchase"),
    }
    assert_eq!(m.get_supply_sales(), 0);
    // the seller is paid once the transfer succeeds
    let pay = m.resolve_purchase(PromiseOutcome::Successful, s("near"), s("root"), BASE_GAS).unwrap();
    match pay {
        MarketAction::TransferNear { receiver_id, amount } => {
            assert_eq!(receiver_id, "root");
            assert_eq!(amount, BASE_GAS);
        }
        _ => panic!("expected a native transfer"),
    }
    assert!(matches!(
        m.resolve_purchase(PromiseOutcome::Failed, s("near"), s("root"), BASE_GAS),
        Err(MarketError::NftTransferFailed)
    ));
}

#[test]
fn bid_below_fixed_price_is_kept() {
    let mut m = market();
    list(&mut m, "1", 100, 0).unwrap();
    assert!(m.bid(&s("alice"), 10, s("nft"), s("1")).unwrap().is_none());
    let refund = m.bid(&s("bob"), 20, s("nft"), s("1")).unwrap().unwrap();
    match refund {
        MarketAction::TransferNear { receiver_id, amount } => {
            assert_eq!(receiver_id, "alice");
            assert_eq!(amount, 10);
        }
        _ => panic!("expected a refund"),
    }
    assert_eq!(m.get_sale(s("nft||1")).unwrap().bid, Some(Bid { owner_id: s("bob"), price: 20 }));
    assert!(matches!(m.bid(&s("carol"), 20, s("nft"), s("1")), Err(MarketError::BidTooLow)));
}

#[test]
fn bid_errors() {
    let mut m = market();
    assert!(matches!(m.bid(&s("alice"), 1, s("nft"), s("0")), Err(MarketError::NoSale)));
    list(&mut m, "0", 12, 2_000_000_000).unwrap();
    assert!(matches!(m.bid(&s("root"), 20, s("nft"), s("0")), Err(MarketError::BidOnOwnSale)));
    assert!(matches!(m.bid(&s("alice"), 0, s("nft"), s("0")), Err(MarketError::ZeroDeposit)));
    assert!(matches!(m.bid(&s("alice"), 5, s("nft"), s("0")), Err(MarketError::DepositBelowMinPrice)));
    m.add_ft_contract(&s("root"), s("usdc")).unwrap();
    m.nft_on_approve(
        &s("nft"),
        &s("root"),
        T0,
        s("9"),
        s("root"),
        0,
        Some(SaleArgs { price: 1, exp: 0, ft_contract: Some(s("usdc")) }),
    )
    .unwrap();
    assert!(matches!(m.bid(&s("alice"), 5, s("nft"), s("9")), Err(MarketError::NotForSaleInNear)));
}

#[test]
fn test_market() {
    let mut m = market();
    // an auction ending 10 seconds from now
    let exp = 1_000_000_000 + 10_000;
    list(&mut m, "0", 12, exp).unwrap();
    assert_eq!(m.get_supply_sales(), 1);
    assert_eq!(m.get_all_sales().len(), 1);
    assert!(m.bid(&s("alice"), BASE_GAS, s("nft"), s("0")).unwrap().is_none());
    // too early to settle
    assert!(matches!(m.settle(T0, s("nft"), s("0")), Err(MarketError::AuctionNotExpired)));
    // after expiry anyone settles, and alice gets the token
    let later = T0 + 20_000 * 1_000_000;
    match m.settle(later, s("nft"), s("0")).unwrap() {
        MarketAction::PurchaseNft { buyer_id, price, seller_id, .. } => {
            assert_eq!(buyer_id, "alice");
            assert_eq!(price, BASE_GAS);
            assert_eq!(seller_id, "root");
        }
        _ => panic!("expected a purchase"),
    }
    assert_eq!(m.get_supply_sales(), 0);
    // a fixed-price sale is bought outright
    list(&mut m, "1", 12, 0).unwrap();
    assert!(matches!(
        m.bid(&s("alice"), BASE_GAS, s("nft"), s("1")),
        Ok(Some(MarketAction::PurchaseNft { .. }))
    ));
    assert_eq!(m.get_supply_sales(), 0);
}

#[test]
fn settle_errors() {
    let mut m = market();
    assert!(matches!(m.settle(T0, s("nft"), s("0")), Err(MarketError::NoSale)));
    list(&mut m, "0", 12, 2_000_000_000).unwrap();
    assert!(matches!(m.settle(T0, s("nft"), s("0")), Err(MarketError::NoBidToSettle)));
    list(&mut m, "1", 100, 0).unwrap();
    m.bid(&s("alice"), 5, s("nft"), s("1")).unwrap();
    assert!(matches!(m.settle(T0, s("nft"), s("1")), Err(MarketError::NotAnAuction)));
}

#[test]
fn payout_in_tokens() {
    let m = market();
    match m.payout(s("usdc"), s("bob"), 3) {
        MarketAction::TransferFt { ft_contract, receiver_id, amount } => {
            assert_eq!(ft_contract, "usdc");
            assert_eq!(receiver_id, "bob");
            assert_eq!(amount, 3);
        }
        _ => panic!("expected an ft transfer"),
    }
}

#[test]
fn sales_by_contract() {
    let mut m = market();
    m.add_nft_contract(&s("root"), s("nft2")).unwrap();
    list(&mut m, "0", 1, 0).unwrap();
    m.nft_on_approve(
        &s("nft2"),
        &s("root"),
        T0,
        s("5"),
        s("root"),
        0,
        Some(SaleArgs { price: 1, exp: 0, ft_contract: None }),
    )
    .unwrap();
    list(&mut m, "1", 1, 0).unwrap();
    let sales = m.get_sales_by_contract(s("nft"));
    assert_eq!(sales.len(), 2);
    assert_eq!(sales[0].token_id, "0");
    assert_eq!(sales[1].token_id, "1");
    assert_eq!(m.get_sales_by_contract(s("nft2")).len(), 1);
    assert_eq!(m.get_sales_by_contract(s("nf")).len(), 0);
    // removal moves the last sale into the freed slot
    m.internal_remove_sale(s("nft"), s("0")).unwrap();
    let all = m.get_all_sales();
    assert_eq!(all[0].token_id, "1");
    assert_eq!(all[1].token_id, "5");
    assert_eq!(m.get_now(T0), 1_000_000_000);
    assert_eq!(MarketError::NoSale.message(), "No sale");
}

#[test]
fn restored_state_is_checked() {
    let mut m = market();
    list(&mut m, "0", 100, 0).unwrap();
    m.bid(&s("alice"), 10, s("nft"), s("0")).unwrap();
    assert!(m.is_valid());
    m.nft_contracts.push(s("nft"));
    assert!(!m.is_valid());
}

#[test]
fn listed_sale_persists_but_for_its_bid() {
    let mut m = market();
    list(&mut m, "0", 100, 0).unwrap();
    let before = m.get_sale(s("nft||0")).unwrap();
    list(&mut m, "1", 5, 0).unwrap();
    m.bid(&s("alice"), 10, s("nft"), s("0")).unwrap();
    m.bid(&s("bob"), 7, s("nft"), s("1")).unwrap();
    list(&mut m, "2", 5, 0).unwrap();
    let after = m.get_sale(s("nft||0")).unwrap();
    assert_eq!(after.bid, Some(Bid { owner_id: s("alice"), price: 10 }));
    assert_eq!(Sale { bid: None, ..after }, before);
}
