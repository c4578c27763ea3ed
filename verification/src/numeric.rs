//! Numeric literal interpretation: base-2, base-10 and base-16 digit strings
//! read into an unsigned 16-bit value, with a mathematical model of the value
//! of a digit string.

use vstd::prelude::*;

verus! {

/// The numeric value of one (uppercased) digit character; characters that are
/// no digit count as zero, and `digit_ok` rules them out.
pub open spec fn digit_val(c: char) -> nat {
    if c == '0' {
        0
    } else if c == '1' {
        1
    } else if c == '2' {
        2
    } else if c == '3' {
        3
    } else if c == '4' {
        4
    } else if c == '5' {
        5
    } else if c == '6' {
        6
    } else if c == '7' {
        7
    } else if c == '8' {
        8
    } else if c == '9' {
        9
    } else if c == 'A' {
        10
    } else if c == 'B' {
        11
    } else if c == 'C' {
        12
    } else if c == 'D' {
        13
    } else if c == 'E' {
        14
    } else if c == 'F' {
        15
    } else {
        0
    }
}

/// Whether `c` spells a digit (`0`-`9`, and `A`-`F` for base 16).
pub open spec fn digit_ok(c: char, base: nat) -> bool {
    if c == '0' || c == '1' {
        true
    } else if c == '2' || c == '3' || c == '4' || c == '5' || c == '6' || c == '7' || c == '8'
        || c == '9' {
        base == 10 || base == 16
    } else if c == 'A' || c == 'B' || c == 'C' || c == 'D' || c == 'E' || c == 'F' {
        base == 16
    } else {
        false
    }
}

/// Every character of `s` spells a digit of the given base.
pub open spec fn all_digits(s: Seq<char>, base: nat) -> bool {
    forall|j: int| 0 <= j < s.len() ==> digit_ok(s[j], base)
}

/// The value of a digit string read most-significant first.
pub open spec fn digits_val(s: Seq<char>, base: nat) -> nat
    decreases s.len(),
{
    if s.len() == 0 {
        0
    } else {
        digits_val(s.drop_last(), base) * base + digit_val(s.last())
    }
}

/// What reading a digit string as an unsigned 16-bit integer yields: a value
/// exactly when the string is non-empty, every character is a digit of the
/// base, and the value fits in 16 bits.
pub open spec fn spec_parse_u16(s: Seq<char>, base: nat) -> Option<u16> {
    if s.len() > 0 && all_digits(s, base) && digits_val(s, base) <= 0xFFFF {
        Some(digits_val(s, base) as u16)
    } else {
        None
    }
}

/// A digit string is worth at least as much as any of its prefixes.
pub proof fn lemma_digits_val_prefix_le(s: Seq<char>, i: int, base: nat)
    requires
        base >= 1,
        0 <= i <= s.len(),
    ensures
        digits_val(s.subrange(0, i), base) <= digits_val(s, base),
    decreases s.len() - i,
{
    if i == s.len() {
        assert(s.subrange(0, i) =~= s);
    } else {
        let p = s.subrange(0, i);
        let q = s.subrange(0, i + 1);
        assert(q.drop_last() =~= p);
        assert(digits_val(q, base) == digits_val(p, base) * base + digit_val(q.last()));
        assert(digits_val(p, base) * base >= digits_val(p, base) * 1) by (nonlinear_arith)
            requires
                base >= 1,
        ;
        lemma_digits_val_prefix_le(s, i + 1, base);
    }
}

/// Executable digit test and value, matching `digit_ok` and `digit_val`.
pub fn digit_in_base(c: char, base: u32) -> (r: Option<u8>)
    ensures
        match r {
            Some(d) => digit_ok(c, base as nat) && d as nat == digit_val(c),
            None => !digit_ok(c, base as nat),
        },
{
    match c {
        '0' => Some(0),
        '1' => Some(1),
        '2' if base == 10 || base == 16 => Some(2),
        '3' if base == 10 || base == 16 => Some(3),
        '4' if base == 10 || base == 16 => Some(4),
        '5' if base == 10 || base == 16 => Some(5),
        '6' if base == 10 || base == 16 => Some(6),
        '7' if base == 10 || base == 16 => Some(7),
        '8' if base == 10 || base == 16 => Some(8),
        '9' if base == 10 || base == 16 => Some(9),
        'A' if base == 16 => Some(10),
        'B' if base == 16 => Some(11),
        'C' if base == 16 => Some(12),
        'D' if base == 16 => Some(13),
        'E' if base == 16 => Some(14),
        'F' if base == 16 => Some(15),
        _ => None,
    }
}

/// Reads the characters of `s` from `start` to the end as a digit string of
/// the given base, exactly as `spec_parse_u16` describes.
pub fn parse_radix(s: &str, start: usize, base: u32) -> (r: Option<u16>)
    requires
        start <= s@.len(),
        base == 2 || base == 10 || base == 16,
    ensures
        r == spec_parse_u16(s@.skip(start as int), base as nat),
{
    let ghost tail = s@.skip(start as int);
    let n = s.unicode_len();
    if start == n {
        return None;
    }
    let mut val: u32 = 0;
    let mut k: usize = start;
    while k < n
        invariant
            start <= k <= n,
            n == s@.len(),
            base == 2 || base == 10 || base == 16,
            tail == s@.skip(start as int),
            all_digits(s@.subrange(start as int, k as int), base as nat),
            val as nat == digits_val(s@.subrange(start as int, k as int), base as nat),
            val <= 0xFFFF,
        decreases n - k,
    {
        let c = s.get_char(k);
        match digit_in_base(c, base) {
            None => {
                proof {
                    assert(tail[k - start] == s@[k as int]);
                    assert(!digit_ok(tail[k - start], base as nat));
                    assert(!all_digits(tail, base as nat));
                }
                return None;
            },
            Some(d) => {
                let v2: u32 = val * base + d as u32;
                proof {
                    let p = s@.subrange(start as int, k as int);
                    let q = s@.subrange(start as int, k + 1);
                    assert(q.drop_last() =~= p);
                    assert(q.last() == s@[k as int]);
                    assert(digits_val(q, base as nat) == digits_val(p, base as nat) * (
                    base as nat) + digit_val(s@[k as int]));
                    assert(val * base + d <= 0xFFFF * 16 + 15) by (nonlinear_arith)
                        requires
                            val <= 0xFFFF,
                            base <= 16,
                            d <= 15,
                    ;
                }
                if v2 > 0xFFFF {
                    proof {
                        let q = s@.subrange(start as int, k + 1);
                        assert(q =~= tail.subrange(0, k + 1 - start));
                        lemma_digits_val_prefix_le(tail, k + 1 - start, base as nat);
                        assert(digits_val(tail, base as nat) > 0xFFFF);
                    }
                    return None;
                }
                val = v2;
                k = k + 1;
            },
        }
    }
    proof {
        assert(s@.subrange(start as int, n as int) =~= tail);
    }
    Some(val as u16)
}

} // verus!
