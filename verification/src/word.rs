//! The fixed four-element storage and transfer unit.
//!
//! A [`Word`] holds four field elements of the 64-bit Goldilocks field, the
//! wire and storage unit of the oracle's account model. Every element must lie
//! below [`FIELD_MODULUS`].

use vstd::prelude::*;

verus! {

/// Order of the 64-bit field: `2^64 - 2^32 + 1`.
pub const FIELD_MODULUS: u64 = 18446744069414584321;

/// A fixed four-element sequence of field elements.
///
/// Element order is significant: reordering breaks cross-account agreement on
/// the storage layout.
#[derive(Clone, Copy, PartialEq, Eq, Structural, Debug)]
pub struct Word {
    /// Element 0, the first element pushed to or read from a slot.
    pub e0: u64,
    /// Element 1.
    pub e1: u64,
    /// Element 2.
    pub e2: u64,
    /// Element 3.
    pub e3: u64,
}

impl View for Word {
    type V = Seq<u64>;

    open spec fn view(&self) -> Seq<u64> {
        seq![self.e0, self.e1, self.e2, self.e3]
    }
}

impl Word {
    /// Every element lies in the field's valid range.
    pub open spec fn wf(self) -> bool {
        self.e0 < FIELD_MODULUS && self.e1 < FIELD_MODULUS && self.e2 < FIELD_MODULUS
            && self.e3 < FIELD_MODULUS
    }

    /// The all-zero word: the sentinel value of a data slot before its first
    /// write.
    pub fn zeroed() -> (w: Word)
        ensures
            w == Word::zeroed_spec(),
    {
        Word { e0: 0, e1: 0, e2: 0, e3: 0 }
    }

    /// The all-zero word, as a specification value.
    pub open spec fn zeroed_spec() -> Word {
        Word { e0: 0, e1: 0, e2: 0, e3: 0 }
    }
}

} // verus!
