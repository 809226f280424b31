use packet_host::action::{decode_action, encode_action, Action};

#[test]
fn swap_round_trips() {
    let a = Action::Swap {
        offer_asset: "juno".to_string(),
        ask_asset: "osmo".to_string(),
        amount: 123456789012345,
    };
    let bytes = encode_action(&a).expect("encodable");
    assert_eq!(decode_action(&bytes), Some(a));
}

#[test]
fn provide_liquidity_round_trips() {
    let a = Action::ProvideLiquidity {
        asset_a: "juno".to_string(),
        asset_b: "".to_string(),
        amount_a: 0,
        amount_b: u64::MAX,
    };
    let bytes = encode_action(&a).expect("encodable");
    assert_eq!(decode_action(&bytes), Some(a));
}

#[test]
fn withdraw_liquidity_round_trips() {
    let a = Action::WithdrawLiquidity { lp_asset: "lp/juno-osmo".to_string(), amount: 1 };
    let bytes = encode_action(&a).expect("encodable");
    assert_eq!(decode_action(&bytes), Some(a));
}

#[test]
fn withdraw_liquidity_exact_bytes() {
    let a = Action::WithdrawLiquidity { lp_asset: "ab".to_string(), amount: 5 };
    let bytes = encode_action(&a).expect("encodable");
    assert_eq!(bytes, vec![2, 2, 0, 97, 98, 5, 0, 0, 0, 0, 0, 0, 0]);
}

#[test]
fn non_ascii_string_round_trips() {
    let a = Action::Swap {
        offer_asset: "päron".to_string(),
        ask_asset: "æble".to_string(),
        amount: 2,
    };
    let bytes = encode_action(&a).expect("encodable");
    assert_eq!(decode_action(&bytes), Some(a));
}

#[test]
fn empty_payload_is_malformed() {
    assert_eq!(decode_action(&[]), None);
}

#[test]
fn unknown_tag_is_malformed() {
    assert_eq!(decode_action(&[9, 0, 0]), None);
}

#[test]
fn truncated_payload_is_malformed() {
    let a = Action::WithdrawLiquidity { lp_asset: "ab".to_string(), amount: 5 };
    let mut bytes = encode_action(&a).expect("encodable");
    bytes.pop();
    assert_eq!(decode_action(&bytes), None);
}

#[test]
fn trailing_bytes_are_malformed() {
    let a = Action::WithdrawLiquidity { lp_asset: "ab".to_string(), amount: 5 };
    let mut bytes = encode_action(&a).expect("encodable");
    bytes.push(0);
    assert_eq!(decode_action(&bytes), None);
}

#[test]
fn invalid_utf8_is_malformed() {
    // A withdraw whose string field holds a lone continuation byte.
    let bytes = vec![2, 1, 0, 0xff, 5, 0, 0, 0, 0, 0, 0, 0];
    assert_eq!(decode_action(&bytes), None);
}

#[test]
fn oversized_string_is_not_encodable() {
    let a = Action::WithdrawLiquidity { lp_asset: "x".repeat(65536), amount: 5 };
    assert_eq!(encode_action(&a), None);
    let a = Action::WithdrawLiquidity { lp_asset: "x".repeat(65535), amount: 5 };
    assert!(encode_action(&a).is_some());
}
