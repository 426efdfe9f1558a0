use miden_oracle::codec::{decode_asset_pair_from_u32, encode_asset_pair_to_u32};

#[test]
fn encode_btc_usd_exact_value() {
    // B=1, T=19, C=2, U=20, S=18, D=3 packed five bits per letter:
    // 1 + (19<<5) + (2<<10) + (20<<15) + (18<<20) + (3<<25).
    assert_eq!(encode_asset_pair_to_u32("BTC/USD"), Some(120195681));
}

#[test]
fn round_trip_seven_char_pairs() {
    for pair in ["BTC/USD", "ETH/USD", "SOL/USD", "POL/USD", "AAA/AAA", "ZZZ/ZZZ"] {
        let code = encode_asset_pair_to_u32(pair).unwrap();
        let decoded = decode_asset_pair_from_u32(code).unwrap();
        assert_eq!(decoded, pair);
    }
}

#[test]
fn round_trip_eight_char_pairs() {
    // The eighth letter occupies the truncated top position: only A..=D fit,
    // and A decodes as absence, so B..=D round-trip.
    for pair in ["BTC/USDB", "BTC/USDC", "EUR/USDD", "ZZZ/ZZZB"] {
        let code = encode_asset_pair_to_u32(pair).unwrap();
        let decoded = decode_asset_pair_from_u32(code).unwrap();
        assert_eq!(decoded, pair);
    }
}

#[test]
fn encode_rejects_bad_lengths() {
    assert_eq!(encode_asset_pair_to_u32(""), None);
    assert_eq!(encode_asset_pair_to_u32("BTC/US"), None);
    assert_eq!(encode_asset_pair_to_u32("BTC/USDXX"), None);
}

#[test]
fn encode_rejects_lowercase() {
    assert_eq!(encode_asset_pair_to_u32("btc/usd"), None);
    assert_eq!(encode_asset_pair_to_u32("BTC/usd"), None);
    assert_eq!(encode_asset_pair_to_u32("BTc/USD"), None);
}

#[test]
fn encode_rejects_missing_separator() {
    assert_eq!(encode_asset_pair_to_u32("BTCXUSD"), None);
    assert_eq!(encode_asset_pair_to_u32("BT/CUSD"), None);
}

#[test]
fn encode_rejects_digits() {
    assert_eq!(encode_asset_pair_to_u32("BT1/USD"), None);
    assert_eq!(encode_asset_pair_to_u32("BTC/US1"), None);
    assert_eq!(encode_asset_pair_to_u32("BTC/USD1"), None);
}

#[test]
fn encode_rejects_overflowing_top_letter() {
    // Any eighth letter from E upward needs bits beyond the 32-bit width;
    // the chosen policy is to reject, never to truncate silently.
    assert_eq!(encode_asset_pair_to_u32("QQQ/ZZZZ"), None);
    assert_eq!(encode_asset_pair_to_u32("AAA/AAAE"), None);
    assert_eq!(encode_asset_pair_to_u32("BTC/USDQ"), None);
    assert_eq!(encode_asset_pair_to_u32("BTC/USDZ"), None);
}

#[test]
fn eight_char_pair_ending_in_a_decodes_to_prefix() {
    // A trailing A packs to a zero top group, indistinguishable from the
    // seven-character encoding, so the decoder returns the prefix.
    let code = encode_asset_pair_to_u32("ABC/ABCA").unwrap();
    assert_eq!(code, encode_asset_pair_to_u32("ABC/ABC").unwrap());
    assert_eq!(decode_asset_pair_from_u32(code).unwrap(), "ABC/ABC");
}

#[test]
fn decode_then_encode_restores_code() {
    for code in [120195681_u32, 0, encode_asset_pair_to_u32("ZZZ/ZZZB").unwrap()] {
        let pair = decode_asset_pair_from_u32(code).unwrap();
        assert_eq!(encode_asset_pair_to_u32(&pair), Some(code));
    }
}

#[test]
fn decode_rejects_non_letter_groups() {
    // Group 0 holds 26, which no uppercase letter maps to.
    assert_eq!(decode_asset_pair_from_u32(26), None);
    assert_eq!(decode_asset_pair_from_u32(31), None);
    // Group 5 holds 31.
    assert_eq!(decode_asset_pair_from_u32(31 << 25), None);
}
