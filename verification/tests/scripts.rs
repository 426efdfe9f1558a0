use miden_oracle::script::{Instruction, build_read_script, build_write_script, render_script};
use miden_oracle::word::Word;

fn w(e0: u64, e1: u64, e2: u64, e3: u64) -> Word {
    Word { e0, e1, e2, e3 }
}

#[test]
fn write_script_instruction_list() {
    let words = vec![w(1, 2, 3, 4), w(5, 6, 7, 8), w(9, 10, 11, 12), w(13, 14, 15, 16)];
    let root = w(42, 0, 0, 0);
    let script = build_write_script(&words, root);
    assert_eq!(script.len(), 11);
    assert_eq!(script[0], Instruction::PushWord(words[0]));
    assert_eq!(script[3], Instruction::PushWord(words[3]));
    assert_eq!(script[4], Instruction::CallProc(root));
    assert_eq!(script[5], Instruction::DropWord);
    assert_eq!(script[8], Instruction::DropWord);
    assert_eq!(script[9], Instruction::CallAuth);
    assert_eq!(script[10], Instruction::Drop);
}

#[test]
fn write_script_renders_exactly() {
    let words = vec![w(1, 2, 3, 4), w(5, 6, 7, 8), w(9, 10, 11, 12), w(13, 14, 15, 16)];
    let root = w(1, 0, 0, 0);
    let text = render_script(&build_write_script(&words, root));
    let expected = "begin\n\
        \x20   push.1.2.3.4\n\
        \x20   push.5.6.7.8\n\
        \x20   push.9.10.11.12\n\
        \x20   push.13.14.15.16\n\
        \x20   call.0x0100000000000000000000000000000000000000000000000000000000000000\n\
        \x20   dropw\n\
        \x20   dropw\n\
        \x20   dropw\n\
        \x20   dropw\n\
        \x20   call.::miden::contracts::auth::basic::auth_tx_rpo_falcon512\n\
        \x20   drop\n\
        end\n";
    assert_eq!(text, expected);
}

#[test]
fn read_script_one_block_per_slot() {
    let expected_words =
        vec![w(1, 1, 1, 1), w(2, 2, 2, 2), w(3, 3, 3, 3), w(4, 4, 4, 4)];
    let read_root = w(7, 7, 7, 7);
    let oracle_id = 10376293541461622847_u64;
    let script = build_read_script(oracle_id, read_root, &expected_words);
    // Four blocks of six instructions, then the stack truncation.
    assert_eq!(script.len(), 25);
    for slot in 0..4usize {
        let base = slot * 6;
        assert_eq!(script[base], Instruction::PadFrame);
        // Data slots start at index 1; slot 0 holds the auth key.
        assert_eq!(script[base + 1], Instruction::PushInt(slot as u64 + 1));
        assert_eq!(script[base + 2], Instruction::PushWord(read_root));
        assert_eq!(script[base + 3], Instruction::PushAccountId(oracle_id));
        assert_eq!(script[base + 4], Instruction::ExecForeign);
        assert_eq!(
            script[base + 5],
            Instruction::AssertEqWord(expected_words[slot])
        );
    }
    assert_eq!(script[24], Instruction::TruncateStack);
}

#[test]
fn read_script_renders_pad_and_foreign_call() {
    let expected_words =
        vec![w(1, 1, 1, 1), w(2, 2, 2, 2), w(3, 3, 3, 3), w(4, 4, 4, 4)];
    let read_root = w(7, 7, 7, 7);
    let text = render_script(&build_read_script(5, read_root, &expected_words));
    assert!(text.starts_with("begin\n    padw padw padw push.0.0\n    push.1\n"));
    assert!(text.contains("    exec.tx::execute_foreign_procedure\n"));
    assert!(text.contains("    push.1.1.1.1 assert_eqw\n"));
    assert!(text.contains("    push.4\n    push.7.7.7.7\n    push.5\n"));
    assert!(text.ends_with("    exec.sys::truncate_stack\nend\n"));
}
