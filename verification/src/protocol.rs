//! The foreign-read protocol: commitments, evidence, and verification.
//!
//! A verifier reads the oracle's storage inside its own transaction, trusting
//! only the ledger's published root. It packages the oracle's raw state and a
//! Merkle path as a [`ForeignReadEvidence`] bundle; [`foreign_read`] then
//! recomputes every commitment from the raw data, checks it against the root,
//! resolves the read procedure by its root, and only then returns the slot's
//! word. Recomputation is mandatory: a returned word is tied to a consistent
//! bundle by the function's contract, never to the bundle producer's word.

use vstd::prelude::*;
use crate::account::{NUM_PROCEDURES, NUM_STORAGE_SLOTS, OracleAccountState, READ_PROC_INDEX};
use crate::hashing::{rpo_hash_elements, rpo_hash_of, rpo_merge, rpo_merge_of};
use crate::word::{FIELD_MODULUS, Word};

verus! {

/// Why a foreign read was rejected. Every variant is fatal to the enclosing
/// transaction; nothing is partially applied.
#[derive(Clone, Copy, PartialEq, Eq, Structural, Debug)]
pub enum ReadError {
    /// The evidence is inconsistent with the ledger root: a commitment could
    /// not be re-derived from the raw data, or the Merkle path does not reach
    /// the root. Signals staleness or tampering.
    CommitmentMismatch,
    /// The requested procedure root does not resolve in the supplied code.
    ProcedureNotFound,
    /// The returned word failed the caller's assertion against the expected
    /// value.
    UnexpectedValue,
}

/// Two words are equal exactly when their element views are.
pub proof fn lemma_word_view_eq(a: Word, b: Word)
    ensures
        a@ == b@ <==> a == b,
{
    if a@ == b@ {
        assert(a.e0 == a@[0] && a.e1 == a@[1] && a.e2 == a@[2] && a.e3 == a@[3]);
        assert(b.e0 == b@[0] && b.e1 == b@[1] && b.e2 == b@[2] && b.e3 == b@[3]);
    }
}

/// The field elements of the first `i` words, in word order.
pub open spec fn words_elements_upto(words: Seq<Word>, i: int) -> Seq<u64>
    decreases i,
{
    if i <= 0 {
        Seq::empty()
    } else {
        words_elements_upto(words, i - 1) + words[i - 1]@
    }
}

/// The field elements of a word sequence, flattened in order.
pub open spec fn words_elements_spec(words: Seq<Word>) -> Seq<u64> {
    words_elements_upto(words, words.len() as int)
}

/// Flattens a word list into its field elements.
pub fn words_to_elements(words: &Vec<Word>) -> (v: Vec<u64>)
    requires
        forall|i: int| 0 <= i < words@.len() ==> (#[trigger] words@[i]).wf(),
    ensures
        v@ == words_elements_spec(words@),
        forall|i: int| 0 <= i < v@.len() ==> v@[i] < FIELD_MODULUS,
{
    let mut v: Vec<u64> = Vec::new();
    let mut i: usize = 0;
    while i < words.len()
        invariant
            i <= words@.len(),
            forall|k: int| 0 <= k < words@.len() ==> (#[trigger] words@[k]).wf(),
            v@ == words_elements_upto(words@, i as int),
            forall|k: int| 0 <= k < v@.len() ==> v@[k] < FIELD_MODULUS,
        decreases words@.len() - i,
    {
        let w = words[i];
        v.push(w.e0);
        v.push(w.e1);
        v.push(w.e2);
        v.push(w.e3);
        proof {
            assert(v@ =~= words_elements_upto(words@, i as int + 1));
        }
        i = i + 1;
    }
    v
}

/// The commitment to a list of words: the digest of its flattened elements.
/// Both the storage commitment (over the five slots) and the code commitment
/// (over the procedure table) take this form.
pub open spec fn words_commitment_spec(words: Seq<Word>) -> Seq<u64> {
    rpo_hash_of(words_elements_spec(words))
}

/// Computes the commitment to a list of words.
pub fn words_commitment(words: &Vec<Word>) -> (d: Word)
    requires
        forall|i: int| 0 <= i < words@.len() ==> (#[trigger] words@[i]).wf(),
    ensures
        d@ == words_commitment_spec(words@),
        d.wf(),
{
    let elements = words_to_elements(words);
    rpo_hash_elements(&elements)
}

/// The elements of the oracle's identity-keyed account record: the identity
/// and nonce padded to one word, then the vault, storage and code
/// commitments.
pub open spec fn account_leaf_elements_spec(
    id: u64,
    nonce: u64,
    vault_root: Word,
    storage_root: Word,
    code_root: Word,
) -> Seq<u64> {
    seq![id, 0u64, 0u64, nonce] + vault_root@ + storage_root@ + code_root@
}

/// The digest of the account record: the leaf the ledger's account tree
/// holds for this identity.
pub open spec fn account_leaf_spec(
    id: u64,
    nonce: u64,
    vault_root: Word,
    storage_root: Word,
    code_root: Word,
) -> Seq<u64> {
    rpo_hash_of(account_leaf_elements_spec(id, nonce, vault_root, storage_root, code_root))
}

/// Computes the digest of the account record.
pub fn account_leaf(
    id: u64,
    nonce: u64,
    vault_root: Word,
    storage_root: Word,
    code_root: Word,
) -> (d: Word)
    requires
        id < FIELD_MODULUS,
        nonce < FIELD_MODULUS,
        vault_root.wf(),
        storage_root.wf(),
        code_root.wf(),
    ensures
        d@ == account_leaf_spec(id, nonce, vault_root, storage_root, code_root),
        d.wf(),
{
    let mut elements: Vec<u64> = Vec::new();
    elements.push(id);
    elements.push(0);
    elements.push(0);
    elements.push(nonce);
    elements.push(vault_root.e0);
    elements.push(vault_root.e1);
    elements.push(vault_root.e2);
    elements.push(vault_root.e3);
    elements.push(storage_root.e0);
    elements.push(storage_root.e1);
    elements.push(storage_root.e2);
    elements.push(storage_root.e3);
    elements.push(code_root.e0);
    elements.push(code_root.e1);
    elements.push(code_root.e2);
    elements.push(code_root.e3);
    proof {
        assert(elements@ =~= account_leaf_elements_spec(
            id,
            nonce,
            vault_root,
            storage_root,
            code_root,
        ));
    }
    rpo_hash_elements(&elements)
}

/// One step of a Merkle path: the sibling digest and which side the current
/// node is on.
#[derive(Clone, Copy, PartialEq, Eq, Structural, Debug)]
pub struct MerkleStep {
    /// Digest of the sibling subtree.
    pub sibling: Word,
    /// Whether the current node is the right child of its parent.
    pub node_is_right: bool,
}

impl MerkleStep {
    /// The sibling digest is well formed.
    pub open spec fn wf(self) -> bool {
        self.sibling.wf()
    }
}

/// The root reached from `node` by merging along `path`, leaf end first.
pub open spec fn merkle_root_spec(node: Seq<u64>, path: Seq<MerkleStep>) -> Seq<u64>
    decreases path.len(),
{
    if path.len() == 0 {
        node
    } else {
        let step = path[0];
        let parent = if step.node_is_right {
            rpo_merge_of(step.sibling@, node)
        } else {
            rpo_merge_of(node, step.sibling@)
        };
        merkle_root_spec(parent, path.drop_first())
    }
}

/// Folds a Merkle path from the leaf to the root.
pub fn compute_merkle_root(leaf: Word, path: &Vec<MerkleStep>) -> (d: Word)
    requires
        leaf.wf(),
        forall|i: int| 0 <= i < path@.len() ==> (#[trigger] path@[i]).wf(),
    ensures
        d@ == merkle_root_spec(leaf@, path@),
        d.wf(),
{
    let mut node = leaf;
    let mut i: usize = 0;
    proof {
        assert(path@.skip(0) =~= path@);
    }
    while i < path.len()
        invariant
            i <= path@.len(),
            forall|k: int| 0 <= k < path@.len() ==> (#[trigger] path@[k]).wf(),
            node.wf(),
            merkle_root_spec(node@, path@.skip(i as int)) == merkle_root_spec(leaf@, path@),
        decreases path@.len() - i,
    {
        let step = path[i];
        let ghost before = node;
        node = if step.node_is_right {
            rpo_merge(&step.sibling, &node)
        } else {
            rpo_merge(&node, &step.sibling)
        };
        proof {
            let rest = path@.skip(i as int);
            assert(rest[0] == path@[i as int]);
            assert(rest.drop_first() =~= path@.skip(i as int + 1));
            assert(merkle_root_spec(before@, rest) == merkle_root_spec(node@, rest.drop_first()));
        }
        i = i + 1;
    }
    proof {
        assert(path@.skip(path@.len() as int) =~= Seq::<MerkleStep>::empty());
    }
    node
}

/// The evidence bundle a verifier attaches to its transaction: the oracle's
/// identity-and-nonce record, its three commitments, the raw storage and
/// procedure table the commitments must be re-derivable from, and the Merkle
/// path tying the account record to the ledger root. Built fresh per
/// verifying transaction and discarded after it executes.
#[derive(Clone, PartialEq, Eq, Debug)]
pub struct ForeignReadEvidence {
    /// The oracle's account identity.
    pub account_id: u64,
    /// The oracle's nonce at capture time.
    pub nonce: u64,
    /// Commitment to the oracle's asset vault.
    pub vault_root: Word,
    /// Commitment to the oracle's storage, re-derivable from `storage`.
    pub storage_root: Word,
    /// Commitment to the oracle's code, re-derivable from `procedures`.
    pub code_root: Word,
    /// The raw storage slots.
    pub storage: Vec<Word>,
    /// The raw procedure table.
    pub procedures: Vec<Word>,
    /// Merkle path from the account record to the ledger root.
    pub merkle_path: Vec<MerkleStep>,
}

impl ForeignReadEvidence {
    /// Shape and range constraints: fixed table sizes, all words well
    /// formed.
    pub open spec fn wf(self) -> bool {
        &&& self.account_id < FIELD_MODULUS
        &&& self.nonce < FIELD_MODULUS
        &&& self.vault_root.wf()
        &&& self.storage_root.wf()
        &&& self.code_root.wf()
        &&& self.storage@.len() == NUM_STORAGE_SLOTS
        &&& forall|i: int| 0 <= i < self.storage@.len() ==> (#[trigger] self.storage@[i]).wf()
        &&& self.procedures@.len() == NUM_PROCEDURES
        &&& forall|i: int|
            0 <= i < self.procedures@.len() ==> (#[trigger] self.procedures@[i]).wf()
        &&& forall|i: int|
            0 <= i < self.merkle_path@.len() ==> (#[trigger] self.merkle_path@[i]).wf()
    }

    /// The account-record digest the bundle's own fields imply.
    pub open spec fn leaf(self) -> Seq<u64> {
        account_leaf_spec(self.account_id, self.nonce, self.vault_root, self.storage_root,
            self.code_root)
    }
}

/// Every commitment in the bundle is re-derivable from the raw data beside
/// it, and the account record reaches the given ledger root along the
/// bundle's Merkle path. A verifier never trusts the bundle: it recomputes
/// and compares exactly these equalities.
pub open spec fn evidence_consistent(ev: ForeignReadEvidence, ledger_root: Word) -> bool {
    &&& ev.storage_root@ == words_commitment_spec(ev.storage@)
    &&& ev.code_root@ == words_commitment_spec(ev.procedures@)
    &&& merkle_root_spec(ev.leaf(), ev.merkle_path@) == ledger_root@
}

/// The given procedure root resolves in the supplied procedure table.
pub open spec fn proc_in_table(procedures: Seq<Word>, proc_root: Word) -> bool {
    exists|i: int| 0 <= i < procedures.len() && procedures[i] == proc_root
}

/// Copies a word list.
fn copy_words(src: &Vec<Word>) -> (v: Vec<Word>)
    ensures
        v@ == src@,
{
    let mut v: Vec<Word> = Vec::new();
    let mut i: usize = 0;
    while i < src.len()
        invariant
            i <= src@.len(),
            v@ == src@.take(i as int),
        decreases src@.len() - i,
    {
        v.push(src[i]);
        proof {
            assert(v@ =~= src@.take(i as int + 1));
        }
        i = i + 1;
    }
    proof {
        assert(src@.take(src@.len() as int) =~= src@);
    }
    v
}

/// Builds the evidence bundle for the oracle's current state: copies the raw
/// storage and procedure table, recomputes the storage and code commitments
/// from them, and attaches the supplied vault commitment and Merkle path.
pub fn build_evidence(
    account: &OracleAccountState,
    vault_root: Word,
    merkle_path: Vec<MerkleStep>,
) -> (ev: ForeignReadEvidence)
    requires
        account.wf(),
        vault_root.wf(),
        forall|i: int| 0 <= i < merkle_path@.len() ==> (#[trigger] merkle_path@[i]).wf(),
    ensures
        ev.wf(),
        ev.account_id == account.id,
        ev.nonce == account.nonce,
        ev.vault_root == vault_root,
        ev.storage@ == account.storage@,
        ev.procedures@ == account.procedures@,
        ev.merkle_path@ == merkle_path@,
        ev.storage_root@ == words_commitment_spec(account.storage@),
        ev.code_root@ == words_commitment_spec(account.procedures@),
{
    let storage_root = words_commitment(&account.storage);
    let code_root = words_commitment(&account.procedures);
    ForeignReadEvidence {
        account_id: account.id,
        nonce: account.nonce,
        vault_root,
        storage_root,
        code_root,
        storage: copy_words(&account.storage),
        procedures: copy_words(&account.procedures),
        merkle_path,
    }
}

/// The ledger root the bundle claims: the root reached from its account
/// record along its Merkle path. A ledger that has committed exactly the
/// bundled state publishes this root.
pub fn evidence_root(ev: &ForeignReadEvidence) -> (d: Word)
    requires
        ev.wf(),
    ensures
        d@ == merkle_root_spec(ev.leaf(), ev.merkle_path@),
        d.wf(),
{
    let leaf = account_leaf(ev.account_id, ev.nonce, ev.vault_root, ev.storage_root, ev.code_root);
    compute_merkle_root(leaf, &ev.merkle_path)
}

/// Executes a foreign read of one oracle storage slot against an evidence
/// bundle and the ledger root.
///
/// The commitments are recomputed from the raw data and checked against the
/// root before anything else; inconsistent evidence — including stale
/// evidence captured before a write the root already reflects — fails with
/// [`ReadError::CommitmentMismatch`] and is never silently used. A read
/// procedure root that does not resolve in the supplied code fails with
/// [`ReadError::ProcedureNotFound`]. Only with both checks passed is the
/// named procedure's effect applied to the supplied storage: the word at the
/// requested slot is returned.
pub fn foreign_read(
    ev: &ForeignReadEvidence,
    ledger_root: Word,
    read_proc_root: Word,
    slot_index: usize,
) -> (r: Result<Word, ReadError>)
    requires
        ev.wf(),
        slot_index < NUM_STORAGE_SLOTS,
    ensures
        r is Ok <==> evidence_consistent(*ev, ledger_root) && proc_in_table(
            ev.procedures@,
            read_proc_root,
        ),
        r is Ok ==> r->Ok_0 == ev.storage@[slot_index as int],
        !evidence_consistent(*ev, ledger_root) ==> r == Err::<Word, ReadError>(
            ReadError::CommitmentMismatch,
        ),
        evidence_consistent(*ev, ledger_root) && !proc_in_table(ev.procedures@, read_proc_root)
            ==> r == Err::<Word, ReadError>(ReadError::ProcedureNotFound),
{
    let storage_root = words_commitment(&ev.storage);
    proof {
        lemma_word_view_eq(storage_root, ev.storage_root);
    }
    if storage_root != ev.storage_root {
        return Err(ReadError::CommitmentMismatch);
    }
    let code_root = words_commitment(&ev.procedures);
    proof {
        lemma_word_view_eq(code_root, ev.code_root);
    }
    if code_root != ev.code_root {
        return Err(ReadError::CommitmentMismatch);
    }
    let root = evidence_root(ev);
    proof {
        lemma_word_view_eq(root, ledger_root);
    }
    if root != ledger_root {
        return Err(ReadError::CommitmentMismatch);
    }
    let mut i: usize = 0;
    let mut found = false;
    while i < ev.procedures.len()
        invariant
            i <= ev.procedures@.len(),
            found <==> exists|k: int| 0 <= k < i && ev.procedures@[k] == read_proc_root,
        decreases ev.procedures@.len() - i,
    {
        if ev.procedures[i] == read_proc_root {
            found = true;
        }
        i = i + 1;
    }
    if !found {
        return Err(ReadError::ProcedureNotFound);
    }
    Ok(ev.storage[slot_index])
}

/// The verifier's final assertion: the returned word must equal the expected
/// record word; a mismatch signals stale or tampered evidence and aborts the
/// transaction.
pub fn confirm_read_value(returned: Word, expected: Word) -> (r: Result<(), ReadError>)
    ensures
        r is Ok <==> returned == expected,
        r is Err ==> r->Err_0 == ReadError::UnexpectedValue,
{
    if returned == expected {
        Ok(())
    } else {
        Err(ReadError::UnexpectedValue)
    }
}

/// Evidence captured from the oracle's current state — its commitments
/// recomputed from the raw data, against a ledger root that commits exactly
/// that state — is consistent, and the oracle's read procedure resolves in
/// it. With [`foreign_read`]'s contract this guarantees that a fresh read of
/// any slot returns exactly the word the oracle's storage holds there.
pub proof fn lemma_fresh_evidence_reads(
    account: OracleAccountState,
    ev: ForeignReadEvidence,
    ledger_root: Word,
)
    requires
        account.wf(),
        ev.account_id == account.id,
        ev.nonce == account.nonce,
        ev.storage@ == account.storage@,
        ev.procedures@ == account.procedures@,
        ev.storage_root@ == words_commitment_spec(account.storage@),
        ev.code_root@ == words_commitment_spec(account.procedures@),
        ledger_root@ == merkle_root_spec(ev.leaf(), ev.merkle_path@),
    ensures
        evidence_consistent(ev, ledger_root),
        proc_in_table(ev.procedures@, account.procedures@[READ_PROC_INDEX as int]),
{
    assert(ev.procedures@[READ_PROC_INDEX as int] == account.procedures@[READ_PROC_INDEX as int]);
}

} // verus!
