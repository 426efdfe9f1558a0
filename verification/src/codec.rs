//! The asset-pair codec.
//!
//! A ticker pair of the form `XXX/YYY` or `XXX/YYYY` (uppercase letters, a
//! `/` at index 3) is packed into a single 32-bit integer, five bits per
//! letter: the three letters before the separator occupy packing positions
//! 0..3, the letters after it occupy positions 3..7, and the letter at
//! position `k` occupies bits `5*k..5*k+5`.
//!
//! Position 6 (the fourth letter of an eight-character pair) only has bits
//! 30 and 31 available, so only letter values below 4 (`A`..=`D`) fit there.
//! Encoding rejects any eight-character pair whose last letter does not fit,
//! rather than truncating it silently; the boundary is covered by tests.
//!
//! Decoding is the left inverse of encoding: it recovers each letter from its
//! five-bit group and reinserts the separator. A code whose position-6 group
//! is zero decodes to a seven-character pair, so an eight-character pair
//! ending in `A` (letter value zero) is encoded but decodes to its
//! seven-character prefix; the round-trip law excludes exactly that case.

use vstd::prelude::*;

verus! {

/// `c` is an uppercase ASCII letter.
pub open spec fn is_upper(c: char) -> bool {
    65 <= c as u32 && c as u32 <= 90
}

/// The five-bit value of an uppercase letter: `'A'` is 0, `'Z'` is 25.
pub open spec fn letter_val(c: char) -> u32 {
    ((c as u32) - 65) as u32
}

/// The uppercase letter with five-bit value `v`.
pub open spec fn letter_char(v: u32) -> char {
    match v {
        0u32 => 'A',
        1u32 => 'B',
        2u32 => 'C',
        3u32 => 'D',
        4u32 => 'E',
        5u32 => 'F',
        6u32 => 'G',
        7u32 => 'H',
        8u32 => 'I',
        9u32 => 'J',
        10u32 => 'K',
        11u32 => 'L',
        12u32 => 'M',
        13u32 => 'N',
        14u32 => 'O',
        15u32 => 'P',
        16u32 => 'Q',
        17u32 => 'R',
        18u32 => 'S',
        19u32 => 'T',
        20u32 => 'U',
        21u32 => 'V',
        22u32 => 'W',
        23u32 => 'X',
        24u32 => 'Y',
        _ => 'Z',
    }
}

/// The pair string has a valid format: length 7 or 8, `/` at index 3, every
/// other character an uppercase letter.
pub open spec fn pair_format_ok(s: Seq<char>) -> bool {
    &&& (s.len() == 7 || s.len() == 8)
    &&& s[3] == '/'
    &&& forall|i: int| 0 <= i < s.len() && i != 3 ==> is_upper(#[trigger] s[i])
}

/// An eight-character pair fits the 32-bit target width: its last letter
/// occupies packing position 6, whose field is truncated to bits 30..32, so
/// the letter's value must be below 4.
pub open spec fn pair_fits_u32(s: Seq<char>) -> bool {
    s.len() == 8 ==> letter_val(s[7]) < 4
}

/// The pair is accepted by the encoder: well formed and within the packing
/// width.
pub open spec fn pair_encodable(s: Seq<char>) -> bool {
    pair_format_ok(s) && pair_fits_u32(s)
}

/// The packed code of an encodable pair: the letter at packing position `k`
/// (skipping the separator) contributes its five-bit value shifted by `5*k`.
pub open spec fn encode_spec(s: Seq<char>) -> u32 {
    let base = letter_val(s[0]) | (letter_val(s[1]) << 5) | (letter_val(s[2]) << 10) | (letter_val(
        s[4],
    ) << 15) | (letter_val(s[5]) << 20) | (letter_val(s[6]) << 25);
    if s.len() == 8 {
        base | (letter_val(s[7]) << 30)
    } else {
        base
    }
}

/// The five-bit group of `code` at packing position `k`.
pub open spec fn group(code: u32, k: u32) -> u32 {
    (code >> ((5 * k) as u32)) & 31
}

/// `code` decodes to a pair: every letter group holds a letter value.
/// Groups 0..6 must stay at or below 25; group 6 is two bits wide and is
/// always below 4, so any value there is a letter.
pub open spec fn code_valid(code: u32) -> bool {
    forall|k: u32| k < 6 ==> #[trigger] group(code, k) <= 25
}

/// The pair a valid code decodes to: seven letters from groups 0..6 with the
/// separator reinserted, and an eighth letter from group 6 when that group is
/// nonzero.
pub open spec fn decode_spec(code: u32) -> Seq<char> {
    let base = seq![
        letter_char(group(code, 0)),
        letter_char(group(code, 1)),
        letter_char(group(code, 2)),
        '/',
        letter_char(group(code, 3)),
        letter_char(group(code, 4)),
        letter_char(group(code, 5)),
    ];
    if group(code, 6) != 0 {
        base.push(letter_char(group(code, 6)))
    } else {
        base
    }
}

/// Encodes an asset-pair string into its packed 32-bit code.
///
/// Returns `None` exactly on a format error: wrong length, missing separator,
/// a character that is not an uppercase letter, or an eight-character pair
/// whose last letter does not fit the packing width.
pub fn encode_asset_pair_to_u32(s: &str) -> (r: Option<u32>)
    ensures
        r is Some <==> pair_encodable(s@),
        r is Some ==> r->Some_0 == encode_spec(s@),
{
    let len = s.unicode_len();
    if len < 7 || len > 8 {
        return None;
    }
    if s.get_char(3) != '/' {
        return None;
    }
    let c0 = s.get_char(0) as u32;
    let c1 = s.get_char(1) as u32;
    let c2 = s.get_char(2) as u32;
    let c4 = s.get_char(4) as u32;
    let c5 = s.get_char(5) as u32;
    let c6 = s.get_char(6) as u32;
    if c0 < 65 || c0 > 90 || c1 < 65 || c1 > 90 || c2 < 65 || c2 > 90 {
        return None;
    }
    if c4 < 65 || c4 > 90 || c5 < 65 || c5 > 90 || c6 < 65 || c6 > 90 {
        return None;
    }
    let base = (c0 - 65) | ((c1 - 65) << 5) | ((c2 - 65) << 10) | ((c4 - 65) << 15) | ((c5 - 65)
        << 20) | ((c6 - 65) << 25);
    if len == 8 {
        let c7 = s.get_char(7) as u32;
        if c7 < 65 || c7 > 90 {
            return None;
        }
        if c7 - 65 >= 4 {
            // The last letter's high bits would be shifted out of the 32-bit
            // width: reject instead of truncating.
            return None;
        }
        proof {
            lemma_format_from_checks(s@);
        }
        Some(base | ((c7 - 65) << 30))
    } else {
        proof {
            lemma_format_from_checks(s@);
        }
        Some(base)
    }
}

/// The one-character string slice holding the uppercase letter with five-bit
/// value `v`.
pub fn letter_str(v: u32) -> (r: &'static str)
    requires
        v <= 25,
    ensures
        r@ == seq![letter_char(v)],
{
    match v {
        0u32 => {
            proof {
                reveal_strlit("A");
                assert("A"@ =~= seq![letter_char(0u32)]);
            }
            "A"
        },
        1u32 => {
            proof {
                reveal_strlit("B");
                assert("B"@ =~= seq![letter_char(1u32)]);
            }
            "B"
        },
        2u32 => {
            proof {
                reveal_strlit("C");
                assert("C"@ =~= seq![letter_char(2u32)]);
            }
            "C"
        },
        3u32 => {
            proof {
                reveal_strlit("D");
                assert("D"@ =~= seq![letter_char(3u32)]);
            }
            "D"
        },
        4u32 => {
            proof {
                reveal_strlit("E");
                assert("E"@ =~= seq![letter_char(4u32)]);
            }
            "E"
        },
        5u32 => {
            proof {
                reveal_strlit("F");
                assert("F"@ =~= seq![letter_char(5u32)]);
            }
            "F"
        },
        6u32 => {
            proof {
                reveal_strlit("G");
                assert("G"@ =~= seq![letter_char(6u32)]);
            }
            "G"
        },
        7u32 => {
            proof {
                reveal_strlit("H");
                assert("H"@ =~= seq![letter_char(7u32)]);
            }
            "H"
        },
        8u32 => {
            proof {
                reveal_strlit("I");
                assert("I"@ =~= seq![letter_char(8u32)]);
            }
            "I"
        },
        9u32 => {
            proof {
                reveal_strlit("J");
                assert("J"@ =~= seq![letter_char(9u32)]);
            }
            "J"
        },
        10u32 => {
            proof {
                reveal_strlit("K");
                assert("K"@ =~= seq![letter_char(10u32)]);
            }
            "K"
        },
        11u32 => {
            proof {
                reveal_strlit("L");
                assert("L"@ =~= seq![letter_char(11u32)]);
            }
            "L"
        },
        12u32 => {
            proof {
                reveal_strlit("M");
                assert("M"@ =~= seq![letter_char(12u32)]);
            }
            "M"
        },
        13u32 => {
            proof {
                reveal_strlit("N");
                assert("N"@ =~= seq![letter_char(13u32)]);
            }
            "N"
        },
        14u32 => {
            proof {
                reveal_strlit("O");
                assert("O"@ =~= seq![letter_char(14u32)]);
            }
            "O"
        },
        15u32 => {
            proof {
                reveal_strlit("P");
                assert("P"@ =~= seq![letter_char(15u32)]);
            }
            "P"
        },
        16u32 => {
            proof {
                reveal_strlit("Q");
                assert("Q"@ =~= seq![letter_char(16u32)]);
            }
            "Q"
        },
        17u32 => {
            proof {
                reveal_strlit("R");
                assert("R"@ =~= seq![letter_char(17u32)]);
            }
            "R"
        },
        18u32 => {
            proof {
                reveal_strlit("S");
                assert("S"@ =~= seq![letter_char(18u32)]);
            }
            "S"
        },
        19u32 => {
            proof {
                reveal_strlit("T");
                assert("T"@ =~= seq![letter_char(19u32)]);
            }
            "T"
        },
        20u32 => {
            proof {
                reveal_strlit("U");
                assert("U"@ =~= seq![letter_char(20u32)]);
            }
            "U"
        },
        21u32 => {
            proof {
                reveal_strlit("V");
                assert("V"@ =~= seq![letter_char(21u32)]);
            }
            "V"
        },
        22u32 => {
            proof {
                reveal_strlit("W");
                assert("W"@ =~= seq![letter_char(22u32)]);
            }
            "W"
        },
        23u32 => {
            proof {
                reveal_strlit("X");
                assert("X"@ =~= seq![letter_char(23u32)]);
            }
            "X"
        },
        24u32 => {
            proof {
                reveal_strlit("Y");
                assert("Y"@ =~= seq![letter_char(24u32)]);
            }
            "Y"
        },
        _ => {
            proof {
                reveal_strlit("Z");
                assert("Z"@ =~= seq![letter_char(v)]);
            }
            "Z"
        },
    }
}

/// Decodes a packed 32-bit code back into its asset-pair string.
///
/// Returns `None` exactly when some five-bit letter group below position 6
/// holds a value above 25, which no uppercase letter maps to.
pub fn decode_asset_pair_from_u32(code: u32) -> (r: Option<String>)
    ensures
        r is Some <==> code_valid(code),
        r is Some ==> r->Some_0@ == decode_spec(code),
{
    let g0 = (code >> 0u32) & 31;
    let g1 = (code >> 5u32) & 31;
    let g2 = (code >> 10u32) & 31;
    let g3 = (code >> 15u32) & 31;
    let g4 = (code >> 20u32) & 31;
    let g5 = (code >> 25u32) & 31;
    let g6 = (code >> 30u32) & 31;
    if g0 > 25 || g1 > 25 || g2 > 25 || g3 > 25 || g4 > 25 || g5 > 25 {
        proof {
            lemma_groups_cover_validity(code, g0, g1, g2, g3, g4, g5);
        }
        return None;
    }
    proof {
        lemma_groups_cover_validity(code, g0, g1, g2, g3, g4, g5);
        assert(g6 <= 3) by (bit_vector)
            requires
                g6 == (code >> 30u32) & 31,
        ;
    }
    let mut out = String::new();
    out.append(letter_str(g0));
    out.append(letter_str(g1));
    out.append(letter_str(g2));
    proof {
        reveal_strlit("/");
        assert("/"@ =~= seq!['/']);
    }
    out.append("/");
    out.append(letter_str(g3));
    out.append(letter_str(g4));
    out.append(letter_str(g5));
    if g6 != 0 {
        out.append(letter_str(g6));
    }
    proof {
        assert(out@ =~= decode_spec(code));
    }
    Some(out)
}

/// The six pointwise letter groups computed with literal shift amounts are
/// the groups of the packing scheme, so the pointwise bound checks decide
/// validity.
proof fn lemma_groups_cover_validity(code: u32, g0: u32, g1: u32, g2: u32, g3: u32, g4: u32, g5: u32)
    requires
        g0 == (code >> 0u32) & 31,
        g1 == (code >> 5u32) & 31,
        g2 == (code >> 10u32) & 31,
        g3 == (code >> 15u32) & 31,
        g4 == (code >> 20u32) & 31,
        g5 == (code >> 25u32) & 31,
    ensures
        code_valid(code) <==> (g0 <= 25 && g1 <= 25 && g2 <= 25 && g3 <= 25 && g4 <= 25 && g5
            <= 25),
{
    assert(group(code, 0) == g0);
    assert(group(code, 1) == g1);
    assert(group(code, 2) == g2);
    assert(group(code, 3) == g3);
    assert(group(code, 4) == g4);
    assert(group(code, 5) == g5);
    if g0 <= 25 && g1 <= 25 && g2 <= 25 && g3 <= 25 && g4 <= 25 && g5 <= 25 {
        assert forall|k: u32| k < 6 implies #[trigger] group(code, k) <= 25 by {
            if k == 0 {
            } else if k == 1 {
            } else if k == 2 {
            } else if k == 3 {
            } else if k == 4 {
            } else {
                assert(k == 5);
            }
        }
    }
}

/// An uppercase letter survives the trip through its five-bit value.
pub proof fn lemma_letter_roundtrip(c: char)
    requires
        is_upper(c),
    ensures
        letter_char(letter_val(c)) == c,
{
}

/// Decoding is the left inverse of encoding.
///
/// Holds for every accepted pair except an eight-character pair ending in
/// `A`: its position-6 group is zero, which is indistinguishable from the
/// encoding of its seven-character prefix, so such a code decodes to that
/// prefix.
pub proof fn lemma_decode_encode_roundtrip(s: Seq<char>)
    requires
        pair_encodable(s),
        s.len() == 8 ==> letter_val(s[7]) != 0,
    ensures
        code_valid(encode_spec(s)),
        decode_spec(encode_spec(s)) == s,
{
    let v0 = letter_val(s[0]);
    let v1 = letter_val(s[1]);
    let v2 = letter_val(s[2]);
    let v3 = letter_val(s[4]);
    let v4 = letter_val(s[5]);
    let v5 = letter_val(s[6]);
    let c = encode_spec(s);
    lemma_letter_roundtrip(s[0]);
    lemma_letter_roundtrip(s[1]);
    lemma_letter_roundtrip(s[2]);
    lemma_letter_roundtrip(s[4]);
    lemma_letter_roundtrip(s[5]);
    lemma_letter_roundtrip(s[6]);
    if s.len() == 8 {
        let v6 = letter_val(s[7]);
        lemma_letter_roundtrip(s[7]);
        assert(group(c, 0) == v0 && group(c, 1) == v1 && group(c, 2) == v2 && group(c, 3) == v3
            && group(c, 4) == v4 && group(c, 5) == v5 && group(c, 6) == v6) by (bit_vector)
            requires
                c == v0 | (v1 << 5u32) | (v2 << 10u32) | (v3 << 15u32) | (v4 << 20u32) | (v5
                    << 25u32) | (v6 << 30u32),
                v0 <= 25,
                v1 <= 25,
                v2 <= 25,
                v3 <= 25,
                v4 <= 25,
                v5 <= 25,
                v6 < 4,
        ;
        assert forall|k: u32| k < 6 implies #[trigger] group(c, k) <= 25 by {
            if k == 0 {
            } else if k == 1 {
            } else if k == 2 {
            } else if k == 3 {
            } else if k == 4 {
            } else {
                assert(k == 5);
            }
        }
        assert(decode_spec(c) =~= s);
    } else {
        assert(group(c, 0) == v0 && group(c, 1) == v1 && group(c, 2) == v2 && group(c, 3) == v3
            && group(c, 4) == v4 && group(c, 5) == v5 && group(c, 6) == 0) by (bit_vector)
            requires
                c == v0 | (v1 << 5u32) | (v2 << 10u32) | (v3 << 15u32) | (v4 << 20u32) | (v5
                    << 25u32),
                v0 <= 25,
                v1 <= 25,
                v2 <= 25,
                v3 <= 25,
                v4 <= 25,
                v5 <= 25,
        ;
        assert forall|k: u32| k < 6 implies #[trigger] group(c, k) <= 25 by {
            if k == 0 {
            } else if k == 1 {
            } else if k == 2 {
            } else if k == 3 {
            } else if k == 4 {
            } else {
                assert(k == 5);
            }
        }
        assert(decode_spec(c) =~= s);
    }
}

/// A letter value survives the trip through its letter.
proof fn lemma_letter_val_roundtrip(v: u32)
    requires
        v <= 25,
    ensures
        is_upper(letter_char(v)),
        letter_val(letter_char(v)) == v,
{
}

/// Encoding is the left inverse of decoding on every valid code: the decoded
/// pair is accepted by the encoder and re-encodes to the same code. Together
/// with [`lemma_decode_encode_roundtrip`] this makes the codec a bijection
/// between valid codes and the pairs it accepts, up to the one documented
/// trailing-`A` identification.
pub proof fn lemma_encode_decode_roundtrip(code: u32)
    requires
        code_valid(code),
    ensures
        pair_encodable(decode_spec(code)),
        encode_spec(decode_spec(code)) == code,
{
    let g0 = group(code, 0);
    let g1 = group(code, 1);
    let g2 = group(code, 2);
    let g3 = group(code, 3);
    let g4 = group(code, 4);
    let g5 = group(code, 5);
    let g6 = group(code, 6);
    assert(g0 <= 25 && g1 <= 25 && g2 <= 25 && g3 <= 25 && g4 <= 25 && g5 <= 25);
    lemma_letter_val_roundtrip(g0);
    lemma_letter_val_roundtrip(g1);
    lemma_letter_val_roundtrip(g2);
    lemma_letter_val_roundtrip(g3);
    lemma_letter_val_roundtrip(g4);
    lemma_letter_val_roundtrip(g5);
    assert(g6 <= 3) by (bit_vector)
        requires
            g6 == (code >> ((5 * 6u32) as u32)) & 31,
    ;
    lemma_letter_val_roundtrip(g6);
    let s = decode_spec(code);
    assert(g0 == (code >> 0u32) & 31);
    assert(g1 == (code >> 5u32) & 31);
    assert(g2 == (code >> 10u32) & 31);
    assert(g3 == (code >> 15u32) & 31);
    assert(g4 == (code >> 20u32) & 31);
    assert(g5 == (code >> 25u32) & 31);
    assert(g6 == (code >> 30u32) & 31);
    if g6 != 0 {
        assert(s.len() == 8);
        assert forall|i: int| 0 <= i < s.len() && i != 3 implies is_upper(#[trigger] s[i]) by {
            assert(s[0] == letter_char(g0) && s[1] == letter_char(g1) && s[2] == letter_char(g2)
                && s[4] == letter_char(g3) && s[5] == letter_char(g4) && s[6] == letter_char(g5)
                && s[7] == letter_char(g6));
        }
        assert(code == g0 | (g1 << 5) | (g2 << 10) | (g3 << 15) | (g4 << 20) | (g5 << 25) | (g6
            << 30)) by (bit_vector)
            requires
                g0 == (code >> 0u32) & 31,
                g1 == (code >> 5u32) & 31,
                g2 == (code >> 10u32) & 31,
                g3 == (code >> 15u32) & 31,
                g4 == (code >> 20u32) & 31,
                g5 == (code >> 25u32) & 31,
                g6 == (code >> 30u32) & 31,
        ;
        assert(letter_val(s[0]) == g0 && letter_val(s[1]) == g1 && letter_val(s[2]) == g2
            && letter_val(s[4]) == g3 && letter_val(s[5]) == g4 && letter_val(s[6]) == g5
            && letter_val(s[7]) == g6);
    } else {
        assert(s.len() == 7);
        assert forall|i: int| 0 <= i < s.len() && i != 3 implies is_upper(#[trigger] s[i]) by {
            assert(s[0] == letter_char(g0) && s[1] == letter_char(g1) && s[2] == letter_char(g2)
                && s[4] == letter_char(g3) && s[5] == letter_char(g4) && s[6] == letter_char(g5));
        }
        assert(code == g0 | (g1 << 5) | (g2 << 10) | (g3 << 15) | (g4 << 20) | (g5 << 25)) by (
        bit_vector)
            requires
                g0 == (code >> 0u32) & 31,
                g1 == (code >> 5u32) & 31,
                g2 == (code >> 10u32) & 31,
                g3 == (code >> 15u32) & 31,
                g4 == (code >> 20u32) & 31,
                g5 == (code >> 25u32) & 31,
                (code >> 30u32) & 31 == 0,
        ;
        assert(letter_val(s[0]) == g0 && letter_val(s[1]) == g1 && letter_val(s[2]) == g2
            && letter_val(s[4]) == g3 && letter_val(s[5]) == g4 && letter_val(s[6]) == g5);
    }
}

/// Pointwise uppercase checks on the six or seven letter positions imply the
/// quantified format predicate.
proof fn lemma_format_from_checks(s: Seq<char>)
    requires
        s.len() == 7 || s.len() == 8,
        s[3] == '/',
        is_upper(s[0]),
        is_upper(s[1]),
        is_upper(s[2]),
        is_upper(s[4]),
        is_upper(s[5]),
        is_upper(s[6]),
        s.len() == 8 ==> is_upper(s[7]),
    ensures
        pair_format_ok(s),
{
    assert forall|i: int| 0 <= i < s.len() && i != 3 implies is_upper(#[trigger] s[i]) by {
        if i == 0 {
        } else if i == 1 {
        } else if i == 2 {
        } else if i == 4 {
        } else if i == 5 {
        } else if i == 6 {
        } else {
            assert(i == 7);
        }
    }
}

} // verus!
