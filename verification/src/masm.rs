//! Deterministic text rendering of words for transaction scripts.
//!
//! A word is rendered for a `push` operand as its four elements in decimal,
//! joined by `.`; a procedure root is rendered for a `call` operand as `0x`
//! followed by the hexadecimal bytes of its four elements, each element
//! little-endian, matching the digest display the assembler parses.

use vstd::prelude::*;
use crate::word::Word;

verus! {

/// The decimal digit character with value `v`.
pub open spec fn digit_char(v: u32) -> char {
    match v {
        0u32 => '0',
        1u32 => '1',
        2u32 => '2',
        3u32 => '3',
        4u32 => '4',
        5u32 => '5',
        6u32 => '6',
        7u32 => '7',
        8u32 => '8',
        _ => '9',
    }
}

/// The decimal rendering of `n`, most significant digit first, no leading
/// zeros except for `n == 0` itself.
pub open spec fn dec_spec(n: u64) -> Seq<char>
    decreases n,
{
    if n < 10 {
        seq![digit_char(n as u32)]
    } else {
        dec_spec((n / 10) as u64) + seq![digit_char((n % 10) as u32)]
    }
}

/// The one-character string slice holding the decimal digit with value `v`.
pub fn digit_str(v: u32) -> (r: &'static str)
    requires
        v <= 9,
    ensures
        r@ == seq![digit_char(v)],
{
    match v {
        0u32 => {
            proof {
                reveal_strlit("0");
                assert("0"@ =~= seq![digit_char(0u32)]);
            }
            "0"
        },
        1u32 => {
            proof {
                reveal_strlit("1");
                assert("1"@ =~= seq![digit_char(1u32)]);
            }
            "1"
        },
        2u32 => {
            proof {
                reveal_strlit("2");
                assert("2"@ =~= seq![digit_char(2u32)]);
            }
            "2"
        },
        3u32 => {
            proof {
                reveal_strlit("3");
                assert("3"@ =~= seq![digit_char(3u32)]);
            }
            "3"
        },
        4u32 => {
            proof {
                reveal_strlit("4");
                assert("4"@ =~= seq![digit_char(4u32)]);
            }
            "4"
        },
        5u32 => {
            proof {
                reveal_strlit("5");
                assert("5"@ =~= seq![digit_char(5u32)]);
            }
            "5"
        },
        6u32 => {
            proof {
                reveal_strlit("6");
                assert("6"@ =~= seq![digit_char(6u32)]);
            }
            "6"
        },
        7u32 => {
            proof {
                reveal_strlit("7");
                assert("7"@ =~= seq![digit_char(7u32)]);
            }
            "7"
        },
        8u32 => {
            proof {
                reveal_strlit("8");
                assert("8"@ =~= seq![digit_char(8u32)]);
            }
            "8"
        },
        _ => {
            proof {
                reveal_strlit("9");
                assert("9"@ =~= seq![digit_char(v)]);
            }
            "9"
        },
    }
}

/// Appends the decimal rendering of `n` to `out`.
pub fn push_u64_decimal(out: &mut String, n: u64)
    ensures
        final(out)@ == old(out)@ + dec_spec(n),
    decreases n,
{
    if n < 10 {
        out.append(digit_str(n as u32));
    } else {
        push_u64_decimal(out, n / 10);
        out.append(digit_str((n % 10) as u32));
    }
}

/// The `push` operand rendering of a word: the four elements in decimal,
/// joined by `.`.
pub open spec fn word_masm_spec(w: Word) -> Seq<char> {
    dec_spec(w.e0) + "."@ + dec_spec(w.e1) + "."@ + dec_spec(w.e2) + "."@ + dec_spec(w.e3)
}

/// Renders a word as a `push` operand: its elements in decimal, joined by
/// `.`, element 0 first.
pub fn word_to_masm(word: &Word) -> (s: String)
    ensures
        s@ == word_masm_spec(*word),
{
    let mut s = String::new();
    push_u64_decimal(&mut s, word.e0);
    s.append(".");
    push_u64_decimal(&mut s, word.e1);
    s.append(".");
    push_u64_decimal(&mut s, word.e2);
    s.append(".");
    push_u64_decimal(&mut s, word.e3);
    proof {
        assert(s@ =~= word_masm_spec(*word));
    }
    s
}

/// The lowercase hexadecimal digit character with value `v`.
pub open spec fn hex_digit_char(v: u32) -> char {
    match v {
        0u32 => '0',
        1u32 => '1',
        2u32 => '2',
        3u32 => '3',
        4u32 => '4',
        5u32 => '5',
        6u32 => '6',
        7u32 => '7',
        8u32 => '8',
        9u32 => '9',
        10u32 => 'a',
        11u32 => 'b',
        12u32 => 'c',
        13u32 => 'd',
        14u32 => 'e',
        _ => 'f',
    }
}

/// The two hexadecimal digits of a byte, high nibble first.
pub open spec fn byte_hex_spec(b: u32) -> Seq<char> {
    seq![hex_digit_char(b >> 4u32), hex_digit_char(b & 15)]
}

/// Byte `i` (little-endian) of `v`.
pub open spec fn le_byte(v: u64, i: int) -> u32 {
    ((v >> ((8 * i) as u64)) & 0xff) as u32
}

/// The hexadecimal rendering of the first `i` little-endian bytes of `v`.
pub open spec fn u64_le_hex_upto(v: u64, i: int) -> Seq<char>
    decreases i,
{
    if i <= 0 {
        Seq::empty()
    } else {
        u64_le_hex_upto(v, i - 1) + byte_hex_spec(le_byte(v, i - 1))
    }
}

/// The hexadecimal rendering of `v` as eight little-endian bytes.
pub open spec fn u64_le_hex_spec(v: u64) -> Seq<char> {
    u64_le_hex_upto(v, 8)
}

/// The one-character string slice holding the lowercase hexadecimal digit
/// with value `v`.
pub fn hex_digit_str(v: u32) -> (r: &'static str)
    requires
        v <= 15,
    ensures
        r@ == seq![hex_digit_char(v)],
{
    if v <= 9 {
        let r = digit_str(v);
        proof {
            assert(seq![digit_char(v)] =~= seq![hex_digit_char(v)]);
        }
        r
    } else {
        match v {
            10u32 => {
                proof {
                    reveal_strlit("a");
                    assert("a"@ =~= seq![hex_digit_char(10u32)]);
                }
                "a"
            },
            11u32 => {
                proof {
                    reveal_strlit("b");
                    assert("b"@ =~= seq![hex_digit_char(11u32)]);
                }
                "b"
            },
            12u32 => {
                proof {
                    reveal_strlit("c");
                    assert("c"@ =~= seq![hex_digit_char(12u32)]);
                }
                "c"
            },
            13u32 => {
                proof {
                    reveal_strlit("d");
                    assert("d"@ =~= seq![hex_digit_char(13u32)]);
                }
                "d"
            },
            14u32 => {
                proof {
                    reveal_strlit("e");
                    assert("e"@ =~= seq![hex_digit_char(14u32)]);
                }
                "e"
            },
            _ => {
                proof {
                    reveal_strlit("f");
                    assert("f"@ =~= seq![hex_digit_char(v)]);
                }
                "f"
            },
        }
    }
}

/// Appends the hexadecimal rendering of `v`'s eight little-endian bytes to
/// `out`.
pub fn push_u64_le_hex(out: &mut String, v: u64)
    ensures
        final(out)@ == old(out)@ + u64_le_hex_spec(v),
{
    let ghost start = out@;
    let mut i: u64 = 0;
    while i < 8
        invariant
            i <= 8,
            out@ == start + u64_le_hex_upto(v, i as int),
        decreases 8 - i,
    {
        let b = ((v >> (8 * i)) & 0xff) as u32;
        proof {
            assert(b <= 255 && b >> 4u32 <= 15 && (b & 15) <= 15) by (bit_vector)
                requires
                    b == ((v >> (8 * i)) & 0xff) as u32,
            ;
            assert(b == le_byte(v, i as int));
        }
        out.append(hex_digit_str(b >> 4));
        out.append(hex_digit_str(b & 15));
        proof {
            assert(out@ =~= start + u64_le_hex_upto(v, i as int + 1));
        }
        i = i + 1;
    }
}

/// The `call` operand rendering of a procedure root: `0x` followed by the
/// hexadecimal bytes of the four elements, each little-endian, element 0
/// first.
pub open spec fn word_hex_spec(w: Word) -> Seq<char> {
    "0x"@ + u64_le_hex_spec(w.e0) + u64_le_hex_spec(w.e1) + u64_le_hex_spec(w.e2) + u64_le_hex_spec(
        w.e3,
    )
}

/// Renders a word as a hexadecimal digest literal prefixed with `0x`.
pub fn word_to_hex(word: &Word) -> (s: String)
    ensures
        s@ == word_hex_spec(*word),
{
    let mut s = String::from_str("0x");
    push_u64_le_hex(&mut s, word.e0);
    push_u64_le_hex(&mut s, word.e1);
    push_u64_le_hex(&mut s, word.e2);
    push_u64_le_hex(&mut s, word.e3);
    proof {
        assert(s@ =~= word_hex_spec(*word));
    }
    s
}

} // verus!
