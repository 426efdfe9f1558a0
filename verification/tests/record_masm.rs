use miden_oracle::masm::{word_to_hex, word_to_masm};
use miden_oracle::record::{OracleData, data_to_word, from_word};
use miden_oracle::word::Word;

fn btc_record() -> OracleData {
    OracleData {
        asset_pair: "BTC/USD".to_string(),
        price: 50000,
        decimals: 2,
        publisher_id: 1,
    }
}

#[test]
fn record_packs_in_fixed_order() {
    let word = data_to_word(&btc_record());
    assert_eq!(word, Word { e0: 120195681, e1: 50000, e2: 2, e3: 1 });
}

#[test]
fn record_word_round_trip() {
    let record = btc_record();
    let restored = from_word(&data_to_word(&record)).unwrap();
    assert_eq!(restored, record);
}

#[test]
fn record_word_round_trip_eight_chars() {
    let record = OracleData {
        asset_pair: "BTC/USDC".to_string(),
        price: 99999,
        decimals: 6,
        publisher_id: 7,
    };
    let restored = from_word(&data_to_word(&record)).unwrap();
    assert_eq!(restored, record);
}

#[test]
fn from_word_rejects_invalid_code() {
    // Element 0 holds 26 in its first letter group: not a letter.
    let word = Word { e0: 26, e1: 1, e2: 1, e3: 1 };
    assert!(from_word(&word).is_none());
    // Element 0 does not fit in 32 bits.
    let word = Word { e0: 1 << 40, e1: 1, e2: 1, e3: 1 };
    assert!(from_word(&word).is_none());
}

#[test]
fn word_renders_as_dotted_decimals() {
    let word = data_to_word(&btc_record());
    assert_eq!(word_to_masm(&word), "120195681.50000.2.1");
    assert_eq!(word_to_masm(&Word { e0: 0, e1: 0, e2: 0, e3: 0 }), "0.0.0.0");
    assert_eq!(
        word_to_masm(&Word { e0: u64::MAX, e1: 10, e2: 100, e3: 9 }),
        "18446744073709551615.10.100.9"
    );
}

#[test]
fn word_renders_as_little_endian_hex() {
    assert_eq!(
        word_to_hex(&Word { e0: 1, e1: 0, e2: 0, e3: 0 }),
        "0x0100000000000000000000000000000000000000000000000000000000000000"
    );
    assert_eq!(
        word_to_hex(&Word { e0: 0x0123456789abcdef, e1: 0, e2: 0, e3: 0xff }),
        "0xefcdab896745230100000000000000000000000000000000ff00000000000000"
    );
}

#[test]
fn hex_rendering_matches_digest_display() {
    // The rendering must agree with the digest display the assembler parses.
    let ours = word_to_hex(&Word { e0: 12345, e1: 678, e2: 9, e3: 4294967297 });
    let theirs = miden_crypto::Word::new([
        miden_crypto::Felt::new(12345),
        miden_crypto::Felt::new(678),
        miden_crypto::Felt::new(9),
        miden_crypto::Felt::new(4294967297),
    ])
    .to_hex();
    assert_eq!(ours, theirs);
}
