//! Component identities as 128-bit values, and their registry text form.
//!
//! The platform stores a handler's identity under the file type's
//! registration as braced, hyphen-grouped hexadecimal text.  Resolution reads
//! that text back; a malformed value is a resolution failure.  Both
//! directions are specified against one model: `is_guid_string` says what a
//! well-formed identity string is, and `guid_value` folds its thirty-two
//! hexadecimal digits into the identity they denote.

use vstd::prelude::*;
use vstd::string::StrSliceExecFns;
use vstd::string::StringExecFns;

verus! {

/// The numeric value of one hexadecimal digit character, in either case;
/// meaningful only when `is_hex_digit` holds.
pub open spec fn hex_value(c: char) -> int {
    let v = c as u32;
    if 48 <= v <= 57 {
        v - 48
    } else if 65 <= v <= 70 {
        v - 55
    } else {
        v - 87
    }
}

/// Whether `c` is a hexadecimal digit character, in either case.
pub open spec fn is_hex_digit(c: char) -> bool {
    let v = c as u32;
    (48 <= v <= 57) || (65 <= v <= 70) || (97 <= v <= 102)
}

/// Whether `c` is a hexadecimal digit in its canonical, upper-case form.
pub open spec fn is_upper_hex_digit(c: char) -> bool {
    let v = c as u32;
    (48 <= v <= 57) || (65 <= v <= 70)
}

/// The four group-separating hyphens of the braced text form.
pub open spec fn is_hyphen_pos(j: int) -> bool {
    j == 9 || j == 14 || j == 19 || j == 24
}

/// A well-formed identity string: braces around five hyphen-separated
/// groups of hexadecimal digits, thirty-two digits in all.
pub open spec fn is_guid_string(s: Seq<char>) -> bool {
    &&& s.len() == 38
    &&& s[0] == '{'
    &&& s[37] == '}'
    &&& forall|j: int| 1 <= j <= 36 && is_hyphen_pos(j) ==> s[j] == '-'
    &&& forall|j: int| 1 <= j <= 36 && !is_hyphen_pos(j) ==> is_hex_digit(#[trigger] s[j])
}

/// How many digit positions lie strictly before position `j`.
pub open spec fn digit_count(j: int) -> int
    decreases j,
{
    if j <= 1 {
        0
    } else if is_hyphen_pos(j - 1) {
        digit_count(j - 1)
    } else {
        digit_count(j - 1) + 1
    }
}

/// The value denoted by the digits among positions `[1, j)`, folded from the
/// most significant digit down.
pub open spec fn guid_value_prefix(s: Seq<char>, j: int) -> int
    decreases j,
{
    if j <= 1 {
        0
    } else if is_hyphen_pos(j - 1) {
        guid_value_prefix(s, j - 1)
    } else {
        guid_value_prefix(s, j - 1) * 16 + hex_value(s[j - 1])
    }
}

/// The identity a well-formed string denotes.
pub open spec fn guid_value(s: Seq<char>) -> int {
    guid_value_prefix(s, 37)
}

/// Sixteen to the power `n`.
pub open spec fn pow16(n: int) -> int
    decreases n,
{
    if n <= 0 {
        1
    } else {
        16 * pow16(n - 1)
    }
}

/// The fold of a prefix depends only on the characters below `j`.
proof fn lemma_prefix_stable(s1: Seq<char>, s2: Seq<char>, j: int)
    requires
        forall|k: int| 0 <= k < j ==> s1[k] == s2[k],
    ensures
        guid_value_prefix(s1, j) == guid_value_prefix(s2, j),
    decreases j,
{
    if j > 1 {
        lemma_prefix_stable(s1, s2, j - 1);
    }
}

/// A prefix fold of `n` digits is bounded by sixteen to the `n`.
proof fn lemma_prefix_bound(s: Seq<char>, j: int)
    requires
        forall|k: int| 1 <= k < j && !is_hyphen_pos(k) ==> is_hex_digit(#[trigger] s[k]),
    ensures
        0 <= guid_value_prefix(s, j) < pow16(digit_count(j)),
    decreases j,
{
    if j > 1 {
        lemma_prefix_bound(s, j - 1);
        if !is_hyphen_pos(j - 1) {
            lemma_digit_count_nonneg(j - 1);
            let p = pow16(digit_count(j - 1));
            let v = guid_value_prefix(s, j - 1);
            assert(pow16(digit_count(j)) == 16 * p);
            assert(is_hex_digit(s[j - 1]));
            assert(0 <= hex_value(s[j - 1]) < 16);
            assert(v * 16 + hex_value(s[j - 1]) < p * 16) by (nonlinear_arith)
                requires
                    v < p,
                    hex_value(s[j - 1]) < 16,
            ;
        }
    }
}

/// There is never a negative number of digit positions.
proof fn lemma_digit_count_nonneg(j: int)
    ensures
        digit_count(j) >= 0,
    decreases j,
{
    if j > 1 {
        lemma_digit_count_nonneg(j - 1);
    }
}

/// Sixteen to a smaller power is no larger.
proof fn lemma_pow16_le(a: int, b: int)
    requires
        0 <= a <= b,
    ensures
        pow16(a) <= pow16(b),
        pow16(a) >= 1,
    decreases b,
{
    if a < b {
        lemma_pow16_le(a, b - 1);
    } else if b > 0 {
        lemma_pow16_le(a - 1, b - 1);
    }
}

/// The numeric value of a single hexadecimal digit character.
fn hex_digit_value(c: char) -> (r: Option<u8>)
    ensures
        r is Some <==> is_hex_digit(c),
        r matches Some(v) ==> v == hex_value(c) && v < 16,
{
    let u = c as u32;
    if 48 <= u && u <= 57 {
        Some((u - 48) as u8)
    } else if 65 <= u && u <= 70 {
        Some((u - 55) as u8)
    } else if 97 <= u && u <= 102 {
        Some((u - 87) as u8)
    } else {
        None
    }
}

/// Reads a component identity from its braced registry text form.
///
/// Succeeds exactly on well-formed identity strings, and then returns the
/// identity the string denotes.  Anything else — wrong length, missing
/// braces or hyphens, a stray character — is rejected, which the resolver
/// reports as a resolution failure.
pub fn parse_guid(s: &str) -> (r: Option<u128>)
    ensures
        r is Some <==> is_guid_string(s@),
        r matches Some(g) ==> g == guid_value(s@),
{
    if s.unicode_len() != 38 {
        return None;
    }
    if s.get_char(0) != '{' {
        return None;
    }
    if s.get_char(37) != '}' {
        return None;
    }
    let mut g: u128 = 0;
    let mut j: usize = 1;
    while j < 37
        invariant
            s@.len() == 38,
            s@[0] == '{',
            s@[37] == '}',
            1 <= j <= 37,
            forall|k: int| 1 <= k < j && is_hyphen_pos(k) ==> s@[k] == '-',
            forall|k: int| 1 <= k < j && !is_hyphen_pos(k) ==> is_hex_digit(#[trigger] s@[k]),
            g == guid_value_prefix(s@, j as int),
            0 <= digit_count(j as int) <= 32,
        decreases 37 - j,
    {
        let c = s.get_char(j);
        if j == 9 || j == 14 || j == 19 || j == 24 {
            if c != '-' {
                return None;
            }
        } else {
            match hex_digit_value(c) {
                None => {
                    return None;
                },
                Some(d) => {
                    proof {
                        lemma_prefix_bound(s@, j as int);
                        assert(digit_count(j as int + 1) == digit_count(j as int) + 1);
                        assert(digit_count(37) == 32) by {
                            reveal_with_fuel(digit_count, 38);
                        }
                        assert(digit_count(j as int + 1) <= digit_count(37)) by {
                            lemma_digit_count_le(j as int + 1, 37);
                        }
                        lemma_pow16_le(digit_count(j as int), 31);
                        assert(pow16(31) == 0x10000000000000000000000000000000) by {
                            reveal_with_fuel(pow16, 33);
                        }
                    }
                    g = g * 16 + (d as u128);
                },
            }
        }
        j += 1;
    }
    proof {
        assert(digit_count(37) == 32) by {
            reveal_with_fuel(digit_count, 38);
        }
    }
    Some(g)
}

/// The canonical upper-case character of one hexadecimal digit value.
pub open spec fn upper_hex_char(n: int) -> char {
    if n < 10 {
        ((48 + n) as u8) as char
    } else {
        ((55 + n) as u8) as char
    }
}

/// The value of the top `i` hexadecimal digits of `g`.
pub open spec fn high_digits(g: u128, i: int) -> u128 {
    if i <= 0 {
        0
    } else {
        g >> ((128 - 4 * i) as u128)
    }
}

/// Appends the canonical character of one hexadecimal digit value.
fn append_hex_digit(s: &mut String, n: u8)
    requires
        n < 16,
    ensures
        final(s)@ == old(s)@.push(upper_hex_char(n as int)),
{
    if n == 0 {
        proof {
            reveal_strlit("0");
        }
        s.append("0");
    } else if n == 1 {
        proof {
            reveal_strlit("1");
        }
        s.append("1");
    } else if n == 2 {
        proof {
            reveal_strlit("2");
        }
        s.append("2");
    } else if n == 3 {
        proof {
            reveal_strlit("3");
        }
        s.append("3");
    } else if n == 4 {
        proof {
            reveal_strlit("4");
        }
        s.append("4");
    } else if n == 5 {
        proof {
            reveal_strlit("5");
        }
        s.append("5");
    } else if n == 6 {
        proof {
            reveal_strlit("6");
        }
        s.append("6");
    } else if n == 7 {
        proof {
            reveal_strlit("7");
        }
        s.append("7");
    } else if n == 8 {
        proof {
            reveal_strlit("8");
        }
        s.append("8");
    } else if n == 9 {
        proof {
            reveal_strlit("9");
        }
        s.append("9");
    } else if n == 10 {
        proof {
            reveal_strlit("A");
        }
        s.append("A");
    } else if n == 11 {
        proof {
            reveal_strlit("B");
        }
        s.append("B");
    } else if n == 12 {
        proof {
            reveal_strlit("C");
        }
        s.append("C");
    } else if n == 13 {
        proof {
            reveal_strlit("D");
        }
        s.append("D");
    } else if n == 14 {
        proof {
            reveal_strlit("E");
        }
        s.append("E");
    } else {
        proof {
            reveal_strlit("F");
        }
        s.append("F");
    }
    proof {
        assert(s@ =~= old(s)@.push(upper_hex_char(n as int)));
    }
}

/// Writes a component identity in its canonical registry text form: braced,
/// hyphen-grouped, upper-case hexadecimal.
///
/// The result is a well-formed identity string denoting exactly `g`, so
/// reading it back with `parse_guid` recovers `g`.
pub fn guid_to_string(g: u128) -> (r: String)
    ensures
        is_guid_string(r@),
        guid_value(r@) == g,
        forall|j: int| 1 <= j <= 36 && !is_hyphen_pos(j) ==> is_upper_hex_digit(#[trigger] r@[j]),
{
    let mut cur = String::new();
    proof {
        reveal_strlit("{");
    }
    cur.append("{");
    let mut j: usize = 1;
    let mut i: u32 = 0;
    while j < 37
        invariant
            1 <= j <= 37,
            cur@.len() == j,
            cur@[0] == '{',
            forall|k: int| 1 <= k < j && is_hyphen_pos(k) ==> cur@[k] == '-',
            forall|k: int| 1 <= k < j && !is_hyphen_pos(k) ==> is_upper_hex_digit(#[trigger] cur@[k]),
            i as int == digit_count(j as int),
            0 <= i <= 32,
            guid_value_prefix(cur@, j as int) == high_digits(g, i as int) as int,
        decreases 37 - j,
    {
        let ghost before = cur@;
        if j == 9 || j == 14 || j == 19 || j == 24 {
            proof {
                reveal_strlit("-");
            }
            cur.append("-");
            proof {
                assert(cur@ =~= before.push('-'));
                lemma_prefix_stable(before, cur@, j as int);
            }
        } else {
            proof {
                assert(digit_count(j as int + 1) == digit_count(j as int) + 1);
                assert(digit_count(37) == 32) by {
                    reveal_with_fuel(digit_count, 38);
                }
                lemma_digit_count_le(j as int + 1, 37);
            }
            let sh: u128 = 124 - 4 * (i as u128);
            let d: u128 = (g >> sh) & 0xF;
            proof {
                assert(d < 16) by (bit_vector)
                    requires
                        d == (g >> sh) & 0xF,
                ;
            }
            append_hex_digit(&mut cur, d as u8);
            proof {
                lemma_prefix_stable(before, cur@, j as int);
                assert(cur@[j as int] == upper_hex_char(d as int));
                lemma_upper_hex_char_value(d as int);
                if i == 0 {
                    assert((g >> 124) & 0xF == g >> 124) by (bit_vector);
                } else {
                    assert((g >> (sh + 4)) * 16 + ((g >> sh) & 0xF) == g >> sh) by (bit_vector)
                        requires
                            sh <= 120,
                    ;
                }
            }
            i = i + 1;
        }
        j += 1;
    }
    let ghost before = cur@;
    proof {
        reveal_strlit("}");
    }
    cur.append("}");
    proof {
        assert(cur@ =~= before.push('}'));
        lemma_prefix_stable(before, cur@, 37);
        assert(digit_count(37) == 32) by {
            reveal_with_fuel(digit_count, 38);
        }
        assert(g >> 0u128 == g) by (bit_vector);
    }
    cur
}

/// The canonical character of a digit value carries that value.
proof fn lemma_upper_hex_char_value(n: int)
    requires
        0 <= n < 16,
    ensures
        is_upper_hex_digit(upper_hex_char(n)),
        hex_value(upper_hex_char(n)) == n,
{
}

/// An upper-case hexadecimal digit is determined by its value.
proof fn lemma_upper_hex_char_injective(c1: char, c2: char)
    requires
        is_upper_hex_digit(c1),
        is_upper_hex_digit(c2),
        hex_value(c1) == hex_value(c2),
    ensures
        c1 == c2,
{
    assert(c1 as u32 == c2 as u32);
}

/// Equal folds mean equal digits: two strings of upper-case digits with the
/// same prefix fold agree on every position below `j`.
proof fn lemma_digits_determined(s1: Seq<char>, s2: Seq<char>, j: int)
    requires
        j <= 37,
        forall|k: int| 1 <= k < j && !is_hyphen_pos(k) ==> is_upper_hex_digit(#[trigger] s1[k]),
        forall|k: int| 1 <= k < j && !is_hyphen_pos(k) ==> is_upper_hex_digit(#[trigger] s2[k]),
        guid_value_prefix(s1, j) == guid_value_prefix(s2, j),
    ensures
        forall|k: int| 1 <= k < j && !is_hyphen_pos(k) ==> s1[k] == s2[k],
    decreases j,
{
    if j > 1 {
        if is_hyphen_pos(j - 1) {
            lemma_digits_determined(s1, s2, j - 1);
        } else {
            let v1 = guid_value_prefix(s1, j - 1);
            let v2 = guid_value_prefix(s2, j - 1);
            let d1 = hex_value(s1[j - 1]);
            let d2 = hex_value(s2[j - 1]);
            assert(is_upper_hex_digit(s1[j - 1]) && is_upper_hex_digit(s2[j - 1]));
            assert(0 <= d1 < 16 && 0 <= d2 < 16);
            assert(v1 * 16 + d1 == v2 * 16 + d2);
            assert(v1 == v2 && d1 == d2) by (nonlinear_arith)
                requires
                    v1 * 16 + d1 == v2 * 16 + d2,
                    0 <= d1 < 16,
                    0 <= d2 < 16,
            ;
            lemma_upper_hex_char_injective(s1[j - 1], s2[j - 1]);
            lemma_digits_determined(s1, s2, j - 1);
        }
    }
}

/// The canonical text form is canonical indeed: two well-formed identity
/// strings in upper case that denote the same identity are the same string.
/// With `guid_to_string`'s contract this makes its result the one canonical
/// form of each identity, and reading it back recovers the identity.
pub proof fn lemma_guid_string_canonical(s1: Seq<char>, s2: Seq<char>)
    requires
        is_guid_string(s1),
        is_guid_string(s2),
        forall|j: int| 1 <= j <= 36 && !is_hyphen_pos(j) ==> is_upper_hex_digit(#[trigger] s1[j]),
        forall|j: int| 1 <= j <= 36 && !is_hyphen_pos(j) ==> is_upper_hex_digit(#[trigger] s2[j]),
        guid_value(s1) == guid_value(s2),
    ensures
        s1 == s2,
{
    lemma_digits_determined(s1, s2, 37);
    assert(s1 =~= s2);
}

/// More positions never mean fewer digits.
proof fn lemma_digit_count_le(a: int, b: int)
    requires
        a <= b,
    ensures
        digit_count(a) <= digit_count(b),
    decreases b - a,
{
    if a < b {
        lemma_digit_count_le(a, b - 1);
    }
}

} // verus!
