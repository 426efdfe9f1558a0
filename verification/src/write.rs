//! The write path: from records to an authenticated, atomic state change.
//!
//! A publisher packs up to four records into words, builds the write
//! transaction's instruction list, and executes it against the oracle
//! account with its signing capability. Either the transaction authenticates
//! and all four data slots update with the nonce incremented by one, or
//! nothing changes.

use vstd::prelude::*;
use crate::account::{AccountDelta, FIRST_DATA_SLOT_INDEX, NUM_DATA_SLOTS, OracleAccountState,
    READ_PROC_INDEX, WRITE_PROC_INDEX, WriteError};
use crate::protocol::{ForeignReadEvidence, evidence_consistent, lemma_fresh_evidence_reads,
    merkle_root_spec, proc_in_table, words_commitment_spec};
use crate::record::{OracleData, record_valid, to_word_model};
use crate::script::{Instruction, build_write_script, write_script_spec};
use crate::word::{FIELD_MODULUS, Word};

verus! {

/// The words a record list packs into, in order.
pub open spec fn records_words_spec(records: Seq<OracleData>) -> Seq<Word> {
    records.map_values(|d: OracleData| to_word_model(d.model()))
}

/// Packs a record list into its words.
pub fn records_to_words(records: &Vec<OracleData>) -> (words: Vec<Word>)
    requires
        forall|i: int| 0 <= i < records@.len() ==> record_valid(#[trigger] records@[i].model()),
    ensures
        words@ == records_words_spec(records@),
        forall|i: int| 0 <= i < words@.len() ==> (#[trigger] words@[i]).wf(),
{
    let mut words: Vec<Word> = Vec::new();
    let mut i: usize = 0;
    while i < records.len()
        invariant
            i <= records@.len(),
            forall|k: int| 0 <= k < records@.len() ==> record_valid(#[trigger] records@[k].model()),
            words@ == records_words_spec(records@.take(i as int)),
            forall|k: int| 0 <= k < words@.len() ==> (#[trigger] words@[k]).wf(),
        decreases records@.len() - i,
    {
        let w = crate::record::data_to_word(&records[i]);
        words.push(w);
        proof {
            assert(records@.take(i as int + 1).drop_last() =~= records@.take(i as int));
            assert(words@ =~= records_words_spec(records@.take(i as int + 1)));
        }
        i = i + 1;
    }
    proof {
        assert(records@.take(records@.len() as int) =~= records@);
    }
    words
}

/// Runs the full write path for four records: packs them into words, builds
/// the write transaction's instruction list against the account's write
/// procedure, and executes the authenticated write.
///
/// On success the returned script is exactly the write script for the packed
/// words, the account's four data slots hold those words in record order,
/// the nonce has incremented by exactly one, and the returned delta
/// describes the new state. On an authentication failure the account is
/// unchanged and no script is returned.
pub fn write_records(
    account: &mut OracleAccountState,
    records: &Vec<OracleData>,
    signing_key: Word,
) -> (r: Result<(Vec<Instruction>, AccountDelta), WriteError>)
    requires
        old(account).wf(),
        records@.len() == NUM_DATA_SLOTS,
        forall|i: int| 0 <= i < records@.len() ==> record_valid(#[trigger] records@[i].model()),
        old(account).nonce + 1 < FIELD_MODULUS,
    ensures
        r is Ok <==> signing_key == old(account).auth_key(),
        r is Err ==> *final(account) == *old(account) && r->Err_0
            == WriteError::AuthenticationFailed,
        r is Ok ==> {
            &&& final(account).wf()
            &&& final(account).id == old(account).id
            &&& final(account).procedures == old(account).procedures
            &&& final(account).nonce == old(account).nonce + 1
            &&& final(account).storage@ == seq![old(account).auth_key()] + records_words_spec(
                records@,
            )
            &&& r->Ok_0.0@ == write_script_spec(
                records_words_spec(records@),
                old(account).procedures@[WRITE_PROC_INDEX as int],
            )
            &&& r->Ok_0.1.new_slots@ == records_words_spec(records@)
            &&& r->Ok_0.1.new_nonce == final(account).nonce
        },
{
    let words = records_to_words(records);
    let write_proc_root = account.procedures[WRITE_PROC_INDEX];
    let script = build_write_script(&words, write_proc_root);
    match account.execute_write(&words, signing_key) {
        Ok(delta) => Ok((script, delta)),
        Err(e) => Err(e),
    }
}

/// Foreign-read of a freshly written oracle: evidence captured from the
/// state a write produced — its commitments recomputed from that state,
/// against a ledger root committing exactly that state — is consistent, the
/// oracle's read procedure resolves in it, and each data slot holds exactly
/// the written record's packed word. With [`crate::protocol::foreign_read`]'s
/// contract, a fresh read of data slot `slot` therefore returns
/// `to_word_model(records[slot].model())`.
pub proof fn lemma_fresh_read_returns_written(
    account: OracleAccountState,
    records: Seq<OracleData>,
    ev: ForeignReadEvidence,
    ledger_root: Word,
    slot: int,
)
    requires
        account.wf(),
        records.len() == NUM_DATA_SLOTS,
        account.storage@ == seq![account.auth_key()] + records_words_spec(records),
        ev.account_id == account.id,
        ev.nonce == account.nonce,
        ev.storage@ == account.storage@,
        ev.procedures@ == account.procedures@,
        ev.storage_root@ == words_commitment_spec(account.storage@),
        ev.code_root@ == words_commitment_spec(account.procedures@),
        ledger_root@ == merkle_root_spec(ev.leaf(), ev.merkle_path@),
        0 <= slot < NUM_DATA_SLOTS,
    ensures
        evidence_consistent(ev, ledger_root),
        proc_in_table(ev.procedures@, account.procedures@[READ_PROC_INDEX as int]),
        ev.storage@[FIRST_DATA_SLOT_INDEX + slot] == to_word_model(records[slot].model()),
{
    lemma_fresh_evidence_reads(account, ev, ledger_root);
    assert(account.storage@[FIRST_DATA_SLOT_INDEX + slot] == records_words_spec(records)[slot]);
}

} // verus!
