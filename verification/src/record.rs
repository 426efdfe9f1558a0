//! The oracle record and its packing into a word.
//!
//! A record holds an asset pair, a price, a decimals count and a publisher
//! id. It is packed into one [`Word`] in fixed order: element 0 is the packed
//! asset-pair code, element 1 the price, element 2 the decimals, element 3
//! the publisher id. The order is part of the wire contract; reordering
//! breaks cross-account agreement on the layout.

use vstd::prelude::*;
use crate::codec::{
    code_valid, decode_asset_pair_from_u32, decode_spec, encode_asset_pair_to_u32, encode_spec,
    letter_val, pair_encodable,
};
use crate::word::{FIELD_MODULUS, Word};

verus! {

/// One oracle price record, as a publisher constructs it immediately before
/// a write.
#[derive(Clone, PartialEq, Eq, Debug)]
pub struct OracleData {
    /// Ticker pair such as `BTC/USD`: 7 or 8 ASCII characters, uppercase
    /// letters and one `/` at index 3.
    pub asset_pair: String,
    /// Price, an unsigned 64-bit integer within the field's range.
    pub price: u64,
    /// Number of decimals of the price.
    pub decimals: u64,
    /// Identity of the publisher.
    pub publisher_id: u64,
}

/// The mathematical content of a record: the pair as a character sequence
/// and the three numeric fields.
pub struct RecordModel {
    /// The asset pair's characters.
    pub asset_pair: Seq<char>,
    /// Price.
    pub price: u64,
    /// Decimals.
    pub decimals: u64,
    /// Publisher identity.
    pub publisher_id: u64,
}

impl OracleData {
    /// The record's mathematical model.
    pub open spec fn model(self) -> RecordModel {
        RecordModel {
            asset_pair: self.asset_pair@,
            price: self.price,
            decimals: self.decimals,
            publisher_id: self.publisher_id,
        }
    }
}

/// A record is valid when its pair is accepted by the codec and each numeric
/// field lies in the field's range, so that the packed word is well formed.
pub open spec fn record_valid(m: RecordModel) -> bool {
    &&& pair_encodable(m.asset_pair)
    &&& m.price < FIELD_MODULUS
    &&& m.decimals < FIELD_MODULUS
    &&& m.publisher_id < FIELD_MODULUS
}

/// The word a valid record packs into.
pub open spec fn to_word_model(m: RecordModel) -> Word {
    Word {
        e0: encode_spec(m.asset_pair) as u64,
        e1: m.price,
        e2: m.decimals,
        e3: m.publisher_id,
    }
}

/// The record a word unpacks into: element 0 must hold a valid asset-pair
/// code; elements 1..4 are copied as plain integers.
pub open spec fn from_word_model(w: Word) -> Option<RecordModel> {
    if w.e0 <= u32::MAX && code_valid(w.e0 as u32) {
        Some(
            RecordModel {
                asset_pair: decode_spec(w.e0 as u32),
                price: w.e1,
                decimals: w.e2,
                publisher_id: w.e3,
            },
        )
    } else {
        None
    }
}

/// Packs a record into its word.
///
/// Total over valid records; a record whose pair the codec rejects has no
/// word, so such inputs are excluded up front.
pub fn data_to_word(data: &OracleData) -> (w: Word)
    requires
        record_valid(data.model()),
    ensures
        w == to_word_model(data.model()),
        w.wf(),
{
    let code_value = encode_asset_pair_to_u32(data.asset_pair.as_str()).unwrap();
    Word {
        e0: code_value as u64,
        e1: data.price,
        e2: data.decimals,
        e3: data.publisher_id,
    }
}

/// Unpacks a word back into a record.
///
/// Returns `None` exactly when element 0 is not a valid asset-pair code.
pub fn from_word(word: &Word) -> (r: Option<OracleData>)
    ensures
        r is Some <==> from_word_model(*word) is Some,
        r is Some ==> r->Some_0.model() == from_word_model(*word)->Some_0,
{
    if word.e0 > u32::MAX as u64 {
        return None;
    }
    let code = word.e0 as u32;
    match decode_asset_pair_from_u32(code) {
        Some(pair) => Some(
            OracleData {
                asset_pair: pair,
                price: word.e1,
                decimals: word.e2,
                publisher_id: word.e3,
            },
        ),
        None => None,
    }
}

/// Packing then unpacking restores the record.
///
/// Holds for every valid record except one whose eight-character pair ends
/// in `A`, the codec's one non-invertible accepted input.
pub proof fn lemma_record_word_roundtrip(m: RecordModel)
    requires
        record_valid(m),
        m.asset_pair.len() == 8 ==> letter_val(m.asset_pair[7]) != 0,
    ensures
        from_word_model(to_word_model(m)) == Some(m),
{
    crate::codec::lemma_decode_encode_roundtrip(m.asset_pair);
    let w = to_word_model(m);
    assert(w.e0 == encode_spec(m.asset_pair));
    assert(from_word_model(w)->Some_0 =~~= m);
}

} // verus!
