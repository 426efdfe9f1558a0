//! Transaction-script construction as a typed instruction list.
//!
//! The write path and the foreign-read path each build a small list of typed
//! instructions rather than substituting text into a template; the list is
//! rendered to assembly text once, at the boundary, by [`render_script`].
//! The construction functions pin the exact instruction sequence, and the
//! renderer pins the exact text of each instruction, so the emitted script
//! is determined end to end.

use vstd::prelude::*;
use crate::masm::{word_hex_spec, word_masm_spec, word_to_hex, word_to_masm, dec_spec,
    push_u64_decimal};
use crate::word::Word;

verus! {

/// One transaction-script instruction.
#[derive(Clone, Copy, PartialEq, Eq, Structural, Debug)]
pub enum Instruction {
    /// Push a four-element word onto the stack.
    PushWord(Word),
    /// Push a single integer, such as a storage-slot index.
    PushInt(u64),
    /// Push the identity of the account whose procedure is to be invoked.
    PushAccountId(u64),
    /// Call a procedure of the executing account by its root.
    CallProc(Word),
    /// Call the generic authentication check bound to the account.
    CallAuth,
    /// Drop the top word of the stack.
    DropWord,
    /// Drop the top stack element.
    Drop,
    /// Pad the stack to the fixed argument-frame size of the foreign-call
    /// convention.
    PadFrame,
    /// Invoke the foreign-procedure execution primitive.
    ExecForeign,
    /// Assert that the top word equals the given word, aborting on mismatch.
    AssertEqWord(Word),
    /// Truncate the stack to its canonical size before the script ends.
    TruncateStack,
}

/// The text of one rendered instruction, including its line break.
pub open spec fn instr_render_spec(i: Instruction) -> Seq<char> {
    match i {
        Instruction::PushWord(w) => "    push."@ + word_masm_spec(w) + "\n"@,
        Instruction::PushInt(n) => "    push."@ + dec_spec(n) + "\n"@,
        Instruction::PushAccountId(id) => "    push."@ + dec_spec(id) + "\n"@,
        Instruction::CallProc(root) => "    call."@ + word_hex_spec(root) + "\n"@,
        Instruction::CallAuth => "    call.::miden::contracts::auth::basic::auth_tx_rpo_falcon512\n"@,
        Instruction::DropWord => "    dropw\n"@,
        Instruction::Drop => "    drop\n"@,
        Instruction::PadFrame => "    padw padw padw push.0.0\n"@,
        Instruction::ExecForeign => "    exec.tx::execute_foreign_procedure\n"@,
        Instruction::AssertEqWord(w) => "    push."@ + word_masm_spec(w) + " assert_eqw\n"@,
        Instruction::TruncateStack => "    exec.sys::truncate_stack\n"@,
    }
}

/// The text of the first `i` instructions, in order.
pub open spec fn render_upto(instrs: Seq<Instruction>, i: int) -> Seq<char>
    decreases i,
{
    if i <= 0 {
        Seq::empty()
    } else {
        render_upto(instrs, i - 1) + instr_render_spec(instrs[i - 1])
    }
}

/// The full script text: the rendered instructions between `begin` and
/// `end` markers.
pub open spec fn script_text_spec(instrs: Seq<Instruction>) -> Seq<char> {
    "begin\n"@ + render_upto(instrs, instrs.len() as int) + "end\n"@
}

/// Appends the text of one instruction to `out`.
fn render_instruction(i: &Instruction, out: &mut String)
    ensures
        final(out)@ == old(out)@ + instr_render_spec(*i),
{
    match i {
        Instruction::PushWord(w) => {
            out.append("    push.");
            let operand = word_to_masm(w);
            out.append(operand.as_str());
            out.append("\n");
        },
        Instruction::PushInt(n) => {
            out.append("    push.");
            push_u64_decimal(out, *n);
            out.append("\n");
        },
        Instruction::PushAccountId(id) => {
            out.append("    push.");
            push_u64_decimal(out, *id);
            out.append("\n");
        },
        Instruction::CallProc(root) => {
            out.append("    call.");
            let operand = word_to_hex(root);
            out.append(operand.as_str());
            out.append("\n");
        },
        Instruction::CallAuth => {
            out.append("    call.::miden::contracts::auth::basic::auth_tx_rpo_falcon512\n");
        },
        Instruction::DropWord => {
            out.append("    dropw\n");
        },
        Instruction::Drop => {
            out.append("    drop\n");
        },
        Instruction::PadFrame => {
            out.append("    padw padw padw push.0.0\n");
        },
        Instruction::ExecForeign => {
            out.append("    exec.tx::execute_foreign_procedure\n");
        },
        Instruction::AssertEqWord(w) => {
            out.append("    push.");
            let operand = word_to_masm(w);
            out.append(operand.as_str());
            out.append(" assert_eqw\n");
        },
        Instruction::TruncateStack => {
            out.append("    exec.sys::truncate_stack\n");
        },
    }
    proof {
        assert(out@ =~= old(out)@ + instr_render_spec(*i));
    }
}

/// Renders an instruction list once, at the boundary, into the script text
/// the assembler consumes.
pub fn render_script(instrs: &Vec<Instruction>) -> (s: String)
    ensures
        s@ == script_text_spec(instrs@),
{
    let mut out = String::from_str("begin\n");
    let mut i: usize = 0;
    while i < instrs.len()
        invariant
            i <= instrs@.len(),
            out@ == "begin\n"@ + render_upto(instrs@, i as int),
        decreases instrs@.len() - i,
    {
        render_instruction(&instrs[i], &mut out);
        proof {
            assert(out@ =~= "begin\n"@ + render_upto(instrs@, i as int + 1));
        }
        i = i + 1;
    }
    out.append("end\n");
    proof {
        assert(out@ =~= script_text_spec(instrs@));
    }
    out
}

/// The instruction sequence of the write transaction: push the four record
/// words, call the write procedure by root, clear the sixteen pushed
/// elements, then run and consume the authentication check.
pub open spec fn write_script_spec(words: Seq<Word>, write_proc_root: Word) -> Seq<Instruction> {
    seq![
        Instruction::PushWord(words[0]),
        Instruction::PushWord(words[1]),
        Instruction::PushWord(words[2]),
        Instruction::PushWord(words[3]),
        Instruction::CallProc(write_proc_root),
        Instruction::DropWord,
        Instruction::DropWord,
        Instruction::DropWord,
        Instruction::DropWord,
        Instruction::CallAuth,
        Instruction::Drop,
    ]
}

/// Builds the write transaction's instruction list for four record words.
pub fn build_write_script(words: &Vec<Word>, write_proc_root: Word) -> (r: Vec<Instruction>)
    requires
        words@.len() == crate::account::NUM_DATA_SLOTS,
    ensures
        r@ == write_script_spec(words@, write_proc_root),
{
    let mut r: Vec<Instruction> = Vec::new();
    r.push(Instruction::PushWord(words[0]));
    r.push(Instruction::PushWord(words[1]));
    r.push(Instruction::PushWord(words[2]));
    r.push(Instruction::PushWord(words[3]));
    r.push(Instruction::CallProc(write_proc_root));
    r.push(Instruction::DropWord);
    r.push(Instruction::DropWord);
    r.push(Instruction::DropWord);
    r.push(Instruction::DropWord);
    r.push(Instruction::CallAuth);
    r.push(Instruction::Drop);
    proof {
        assert(r@ =~= write_script_spec(words@, write_proc_root));
    }
    r
}

/// The instruction block reading one foreign slot: pad the argument frame,
/// push the slot index, the read procedure's root and the oracle's identity,
/// invoke the foreign-procedure primitive, and assert the returned word.
pub open spec fn read_block_spec(
    oracle_id: u64,
    read_proc_root: Word,
    slot_index: u64,
    expected: Word,
) -> Seq<Instruction> {
    seq![
        Instruction::PadFrame,
        Instruction::PushInt(slot_index),
        Instruction::PushWord(read_proc_root),
        Instruction::PushAccountId(oracle_id),
        Instruction::ExecForeign,
        Instruction::AssertEqWord(expected),
    ]
}

/// The concatenated read blocks for the first `i` expected words, data slots
/// in order starting at the first data slot.
pub open spec fn read_blocks_upto(
    oracle_id: u64,
    read_proc_root: Word,
    expected: Seq<Word>,
    i: int,
) -> Seq<Instruction>
    decreases i,
{
    if i <= 0 {
        Seq::empty()
    } else {
        read_blocks_upto(oracle_id, read_proc_root, expected, i - 1) + read_block_spec(
            oracle_id,
            read_proc_root,
            (crate::account::FIRST_DATA_SLOT_INDEX + i - 1) as u64,
            expected[i - 1],
        )
    }
}

/// The instruction sequence of the verifier's read transaction: one read
/// block per data slot, then a stack truncation.
pub open spec fn read_script_spec(
    oracle_id: u64,
    read_proc_root: Word,
    expected: Seq<Word>,
) -> Seq<Instruction> {
    read_blocks_upto(oracle_id, read_proc_root, expected, expected.len() as int) + seq![
        Instruction::TruncateStack,
    ]
}

/// Builds the verifier's read transaction: for each data slot in order, a
/// foreign invocation of the oracle's read procedure by root against the
/// oracle's identity, with the returned word asserted against the expected
/// record word.
pub fn build_read_script(
    oracle_id: u64,
    read_proc_root: Word,
    expected: &Vec<Word>,
) -> (r: Vec<Instruction>)
    requires
        expected@.len() == crate::account::NUM_DATA_SLOTS,
    ensures
        r@ == read_script_spec(oracle_id, read_proc_root, expected@),
{
    let mut r: Vec<Instruction> = Vec::new();
    let mut i: usize = 0;
    while i < expected.len()
        invariant
            i <= expected@.len(),
            expected@.len() == crate::account::NUM_DATA_SLOTS,
            r@ == read_blocks_upto(oracle_id, read_proc_root, expected@, i as int),
        decreases expected@.len() - i,
    {
        let slot_index = (crate::account::FIRST_DATA_SLOT_INDEX + i) as u64;
        r.push(Instruction::PadFrame);
        r.push(Instruction::PushInt(slot_index));
        r.push(Instruction::PushWord(read_proc_root));
        r.push(Instruction::PushAccountId(oracle_id));
        r.push(Instruction::ExecForeign);
        r.push(Instruction::AssertEqWord(expected[i]));
        proof {
            assert(r@ =~= read_blocks_upto(oracle_id, read_proc_root, expected@, i as int + 1));
        }
        i = i + 1;
    }
    r.push(Instruction::TruncateStack);
    proof {
        assert(r@ =~= read_script_spec(oracle_id, read_proc_root, expected@));
    }
    r
}

} // verus!
