//! The oracle account's state and the effect of a write.
//!
//! An oracle account owns an identity, a nonce, five storage slots and a
//! three-entry procedure table. Slot 0 holds the authentication key and
//! never holds price data; slots 1..5 hold one packed record word each, the
//! all-zero sentinel before the first write. The slot indices and procedure
//! positions are named constants shared by construction, the write path and
//! the foreign-read path.
//!
//! A write is atomic: an authenticated transaction updates all four data
//! slots and increments the nonce by exactly one, or — when authentication
//! fails — changes nothing at all.

use vstd::prelude::*;
use crate::word::{FIELD_MODULUS, Word};

verus! {

/// Number of data slots holding price records.
pub const NUM_DATA_SLOTS: usize = 4;

/// Number of storage slots: the authentication slot plus the data slots.
pub const NUM_STORAGE_SLOTS: usize = 5;

/// Storage slot holding the authentication key; never holds price data.
pub const AUTH_SLOT_INDEX: usize = 0;

/// First storage slot holding price data.
pub const FIRST_DATA_SLOT_INDEX: usize = 1;

/// Procedure-table position of the authentication procedure.
pub const AUTH_PROC_INDEX: usize = 0;

/// Procedure-table position of the write procedure.
pub const WRITE_PROC_INDEX: usize = 1;

/// Procedure-table position of the read procedure.
pub const READ_PROC_INDEX: usize = 2;

/// Number of entries in the procedure table.
pub const NUM_PROCEDURES: usize = 3;

/// The nonce a freshly provisioned account starts with: nonzero, signaling
/// "initialized".
pub const INITIAL_NONCE: u64 = 1;

/// Why a write transaction was rejected.
#[derive(Clone, Copy, PartialEq, Eq, Structural, Debug)]
pub enum WriteError {
    /// The signing key does not match the account's authentication key. The
    /// transaction has no effect.
    AuthenticationFailed,
}

/// The state delta of a successful write: the four new data-slot words and
/// the nonce after the write. Applied atomically or not at all.
#[derive(Clone, PartialEq, Eq, Debug)]
pub struct AccountDelta {
    /// New contents of the data slots, in slot order.
    pub new_slots: Vec<Word>,
    /// The account nonce after the write: exactly one above the nonce the
    /// write was executed against.
    pub new_nonce: u64,
}

impl AccountDelta {
    /// Four well-formed slot words and a nonce in the field's range.
    pub open spec fn wf(self) -> bool {
        &&& self.new_slots@.len() == NUM_DATA_SLOTS
        &&& forall|i: int| 0 <= i < self.new_slots@.len() ==> (#[trigger] self.new_slots@[i]).wf()
        &&& self.new_nonce < FIELD_MODULUS
    }
}

/// The persistent state of an oracle account.
#[derive(Clone, PartialEq, Eq, Debug)]
pub struct OracleAccountState {
    /// Account identity, a field element.
    pub id: u64,
    /// Monotonic counter, incremented by exactly one on every accepted state
    /// change.
    pub nonce: u64,
    /// The five storage slots: slot 0 the authentication key, slots 1..5 one
    /// record word each.
    pub storage: Vec<Word>,
    /// Roots of the three published procedures, in table order:
    /// authentication, write, read.
    pub procedures: Vec<Word>,
}

impl OracleAccountState {
    /// Well-formedness: identity and nonce in the field's range, the slot and
    /// procedure tables of their fixed sizes, every word well formed.
    pub open spec fn wf(self) -> bool {
        &&& self.id < FIELD_MODULUS
        &&& self.nonce < FIELD_MODULUS
        &&& self.storage@.len() == NUM_STORAGE_SLOTS
        &&& forall|i: int| 0 <= i < self.storage@.len() ==> (#[trigger] self.storage@[i]).wf()
        &&& self.procedures@.len() == NUM_PROCEDURES
        &&& forall|i: int|
            0 <= i < self.procedures@.len() ==> (#[trigger] self.procedures@[i]).wf()
    }

    /// The authentication key bound at slot 0.
    pub open spec fn auth_key(self) -> Word {
        self.storage@[AUTH_SLOT_INDEX as int]
    }

    /// Provisions a fresh oracle account: the supplied key at slot 0, all
    /// data slots zeroed, the three procedure roots in table order, and the
    /// initial nonce.
    pub fn new(
        id: u64,
        pub_key: Word,
        auth_proc_root: Word,
        write_proc_root: Word,
        read_proc_root: Word,
    ) -> (s: Self)
        requires
            id < FIELD_MODULUS,
            pub_key.wf(),
            auth_proc_root.wf(),
            write_proc_root.wf(),
            read_proc_root.wf(),
        ensures
            s.wf(),
            s.id == id,
            s.nonce == INITIAL_NONCE,
            s.auth_key() == pub_key,
            s.storage@ == seq![
                pub_key,
                Word::zeroed_spec(),
                Word::zeroed_spec(),
                Word::zeroed_spec(),
                Word::zeroed_spec(),
            ],
            s.procedures@ == seq![auth_proc_root, write_proc_root, read_proc_root],
    {
        let mut storage: Vec<Word> = Vec::new();
        storage.push(pub_key);
        storage.push(Word::zeroed());
        storage.push(Word::zeroed());
        storage.push(Word::zeroed());
        storage.push(Word::zeroed());
        let mut procedures: Vec<Word> = Vec::new();
        procedures.push(auth_proc_root);
        procedures.push(write_proc_root);
        procedures.push(read_proc_root);
        let s = OracleAccountState { id, nonce: INITIAL_NONCE, storage, procedures };
        proof {
            assert(s.storage@ =~= seq![
                pub_key,
                Word::zeroed_spec(),
                Word::zeroed_spec(),
                Word::zeroed_spec(),
                Word::zeroed_spec(),
            ]);
            assert(s.procedures@ =~= seq![auth_proc_root, write_proc_root, read_proc_root]);
        }
        s
    }

    /// Returns the word at the requested storage slot, the read procedure's
    /// effect; `None` exactly when the index is out of range.
    pub fn read_slot(&self, index: usize) -> (r: Option<Word>)
        requires
            self.wf(),
        ensures
            r is Some <==> index < NUM_STORAGE_SLOTS,
            r is Some ==> r->Some_0 == self.storage@[index as int],
    {
        if index < NUM_STORAGE_SLOTS {
            Some(self.storage[index])
        } else {
            None
        }
    }

    /// Executes an authenticated write of four record words.
    ///
    /// When the signing key matches the authentication key at slot 0, all
    /// four data slots are stored in order, the nonce increments by exactly
    /// one, and the returned delta describes the new state. When it does
    /// not, the state is unchanged and the write fails with
    /// [`WriteError::AuthenticationFailed`]; no partial effect is ever
    /// observed.
    pub fn execute_write(&mut self, words: &Vec<Word>, signing_key: Word) -> (r: Result<
        AccountDelta,
        WriteError,
    >)
        requires
            old(self).wf(),
            words@.len() == NUM_DATA_SLOTS,
            forall|i: int| 0 <= i < words@.len() ==> (#[trigger] words@[i]).wf(),
            old(self).nonce + 1 < FIELD_MODULUS,
        ensures
            r is Ok <==> signing_key == old(self).auth_key(),
            r is Err ==> *final(self) == *old(self) && r->Err_0 == WriteError::AuthenticationFailed,
            r is Ok ==> {
                &&& final(self).wf()
                &&& final(self).id == old(self).id
                &&& final(self).procedures == old(self).procedures
                &&& final(self).nonce == old(self).nonce + 1
                &&& final(self).storage@ == seq![old(self).auth_key()] + words@
                &&& r->Ok_0.new_slots@ == words@
                &&& r->Ok_0.new_nonce == final(self).nonce
                &&& r->Ok_0.wf()
            },
    {
        let auth_key = self.storage[AUTH_SLOT_INDEX];
        if signing_key != auth_key {
            return Err(WriteError::AuthenticationFailed);
        }
        let mut new_storage: Vec<Word> = Vec::new();
        new_storage.push(auth_key);
        new_storage.push(words[0]);
        new_storage.push(words[1]);
        new_storage.push(words[2]);
        new_storage.push(words[3]);
        self.storage = new_storage;
        self.nonce = self.nonce + 1;
        let mut new_slots: Vec<Word> = Vec::new();
        new_slots.push(words[0]);
        new_slots.push(words[1]);
        new_slots.push(words[2]);
        new_slots.push(words[3]);
        proof {
            assert(self.storage@ =~= seq![old(self).auth_key()] + words@);
            assert(new_slots@ =~= words@);
        }
        Ok(AccountDelta { new_slots, new_nonce: self.nonce })
    }

    /// Applies a write's delta to a locally held copy of the account state:
    /// the four data slots are replaced in order and the nonce is set, as one
    /// atomic unit. Slot 0 and the procedure table are untouched.
    pub fn apply_delta(&mut self, delta: &AccountDelta)
        requires
            old(self).wf(),
            delta.wf(),
        ensures
            final(self).wf(),
            final(self).id == old(self).id,
            final(self).procedures == old(self).procedures,
            final(self).nonce == delta.new_nonce,
            final(self).storage@ == seq![old(self).auth_key()] + delta.new_slots@,
    {
        let auth_key = self.storage[AUTH_SLOT_INDEX];
        let mut new_storage: Vec<Word> = Vec::new();
        new_storage.push(auth_key);
        new_storage.push(delta.new_slots[0]);
        new_storage.push(delta.new_slots[1]);
        new_storage.push(delta.new_slots[2]);
        new_storage.push(delta.new_slots[3]);
        self.storage = new_storage;
        self.nonce = delta.new_nonce;
        proof {
            assert(self.storage@ =~= seq![old(self).auth_key()] + delta.new_slots@);
        }
    }
}

} // verus!
