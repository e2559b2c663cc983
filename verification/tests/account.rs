use parkdao::account::{contract_and_token_id, split_first, split_second};
use parkdao::context::millis;

fn s(x: &str) -> String {
    x.to_string()
}

#[test]
fn keys_join_and_split() {
    let k = contract_and_token_id(&s("nft.near"), &s("42"));
    assert_eq!(k, "nft.near||42");
    assert_eq!(split_first(&k), "nft.near");
    assert_eq!(split_second(&k), Some(s("42")));
    assert_eq!(split_first(&s("plain")), "plain");
    assert_eq!(split_second(&s("plain")), None);
    assert_eq!(split_second(&s("a||b||c")), Some(s("b")));
    assert_eq!(split_second(&s("a|||b")), Some(s("|b")));
    assert_eq!(millis(2_500_000), 2);
}
