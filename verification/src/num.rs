//! Decimal parsing for the numeric status code.

use vstd::prelude::*;

verus! {

/// An ASCII decimal digit.
pub open spec fn is_digit(c: char) -> bool {
    '0' <= c && c <= '9'
}

/// Every character of `s` is a decimal digit.
pub open spec fn all_digits(s: Seq<char>) -> bool {
    forall|i: int| 0 <= i < s.len() ==> is_digit(s[i])
}

/// The number a digit string denotes, most significant digit first.
pub open spec fn digits_val(s: Seq<char>) -> int
    decreases s.len(),
{
    if s.len() == 0 {
        0
    } else {
        digits_val(s.drop_last()) * 10 + (s[s.len() - 1] as int - 48)
    }
}

/// Ten to the power `n`.
pub open spec fn pow10(n: nat) -> int
    decreases n,
{
    if n == 0 {
        1
    } else {
        10 * pow10((n - 1) as nat)
    }
}

/// What parsing a decimal integer yields: an optional sign, then at
/// least one digit, with a value in the range of `i32`; anything else is
/// rejected.
pub open spec fn spec_parse_i32(s: Seq<char>) -> Option<int> {
    let neg = s.len() > 0 && s[0] == '-';
    let digits = if s.len() > 0 && (s[0] == '-' || s[0] == '+') {
        s.drop_first()
    } else {
        s
    };
    if digits.len() == 0 || !all_digits(digits) {
        None
    } else {
        let v = if neg {
            -digits_val(digits)
        } else {
            digits_val(digits)
        };
        if -2147483648 <= v <= 2147483647 {
            Some(v)
        } else {
            None
        }
    }
}

/// A digit string's value splits at any cut: the prefix is scaled by ten
/// to the length of the suffix.
pub proof fn lemma_digits_val_concat(a: Seq<char>, b: Seq<char>)
    ensures
        digits_val(a + b) == digits_val(a) * pow10(b.len()) + digits_val(b),
    decreases b.len(),
{
    if b.len() == 0 {
        assert(a + b =~= a);
    } else {
        lemma_digits_val_concat(a, b.drop_last());
        assert((a + b).drop_last() =~= a + b.drop_last());
        assert((a + b)[(a + b).len() - 1] == b[b.len() - 1]);
        let x = digits_val(a);
        let p = pow10((b.len() - 1) as nat);
        let dvh = digits_val(b.drop_last());
        let d = b[b.len() - 1] as int - 48;
        assert(digits_val(a + b) == (x * p + dvh) * 10 + d);
        assert((x * p + dvh) * 10 == x * (10 * p) + dvh * 10) by (nonlinear_arith);
        assert(digits_val(b) == dvh * 10 + d);
        assert(pow10(b.len()) == 10 * p);
        assert(x * (10 * p) == x * pow10(b.len())) by (nonlinear_arith)
            requires
                10 * p == pow10(b.len()),
        ;
    }
}

/// A digit string's value is non-negative and below ten to its length.
pub proof fn lemma_digits_val_bounds(s: Seq<char>)
    requires
        all_digits(s),
    ensures
        0 <= digits_val(s) < pow10(s.len()),
    decreases s.len(),
{
    if s.len() > 0 {
        let head = s.drop_last();
        assert(all_digits(head)) by {
            assert(forall|i: int| 0 <= i < head.len() ==> head[i] == s[i]);
        }
        lemma_digits_val_bounds(head);
        let v = digits_val(head);
        let p = pow10(head.len());
        assert(v * 10 <= (p - 1) * 10) by (nonlinear_arith)
            requires
                v <= p - 1,
        ;
        assert(v * 10 >= 0) by (nonlinear_arith)
            requires
                v >= 0,
        ;
    }
}

/// A string of zero digits denotes zero.
pub proof fn lemma_zeros_val(s: Seq<char>)
    requires
        forall|i: int| 0 <= i < s.len() ==> s[i] == '0',
    ensures
        digits_val(s) == 0,
    decreases s.len(),
{
    if s.len() > 0 {
        lemma_zeros_val(s.drop_last());
    }
}

/// Powers of ten are positive.
pub proof fn lemma_pow10_pos(n: nat)
    ensures
        pow10(n) >= 1,
    decreases n,
{
    if n > 0 {
        lemma_pow10_pos((n - 1) as nat);
    }
}

/// Powers of ten do not decrease.
pub proof fn lemma_pow10_mono(m: nat, n: nat)
    requires
        m <= n,
    ensures
        pow10(m) <= pow10(n),
        pow10(m) >= 1,
    decreases n,
{
    lemma_pow10_pos(m);
    if m < n {
        lemma_pow10_mono(m, (n - 1) as nat);
        lemma_pow10_pos((n - 1) as nat);
    }
}

/// The concrete powers of ten the parser reasons with.
proof fn lemma_pow10_10()
    ensures
        pow10(10) == 10000000000,
{
    reveal_with_fuel(pow10, 11);
}

/// Parses a decimal integer, as `spec_parse_i32` describes.
pub fn parse_i32(s: &str) -> (r: Option<i32>)
    ensures
        match r {
            Some(v) => spec_parse_i32(s@) == Some(v as int),
            None => spec_parse_i32(s@) is None,
        },
{
    let len = s.unicode_len();
    if len == 0 {
        return None;
    }
    let first = s.get_char(0);
    let neg = first == '-';
    let start: usize = if first == '-' || first == '+' {
        1
    } else {
        0
    };
    let ghost digits = if start == 1 {
        s@.drop_first()
    } else {
        s@
    };
    proof {
        assert(digits =~= s@.subrange(start as int, len as int));
    }
    if start == len {
        return None;
    }
    // Every character after the sign must be a digit.
    let mut i: usize = start;
    while i < len
        invariant
            start <= i <= len,
            len == s@.len(),
            len > 0,
            (start == 1) == (s@[0] == '-' || s@[0] == '+'),
            digits == if start == 1 {
                s@.drop_first()
            } else {
                s@
            },
            digits =~= s@.subrange(start as int, len as int),
            forall|k: int| start <= k < i ==> is_digit(s@[k]),
        decreases len - i,
    {
        let c = s.get_char(i);
        if !(c >= '0' && c <= '9') {
            proof {
                assert(digits[i - start] == s@[i as int]);
                assert(!is_digit(digits[i - start]));
                assert(!all_digits(digits));
            }
            return None;
        }
        i = i + 1;
    }
    assert(all_digits(digits)) by {
        assert(forall|k: int| 0 <= k < digits.len() ==> digits[k] == s@[k + start]);
    }
    // Skip leading zeros; what remains decides the magnitude.
    let mut z: usize = start;
    while z < len && s.get_char(z) == '0'
        invariant
            start <= z <= len,
            len == s@.len(),
            forall|k: int| start <= k < z ==> s@[k] == '0',
        decreases len - z,
    {
        z = z + 1;
    }
    let ghost zeros = s@.subrange(start as int, z as int);
    let ghost eff = s@.subrange(z as int, len as int);
    proof {
        assert(digits =~= zeros + eff);
        assert(forall|k: int| 0 <= k < zeros.len() ==> zeros[k] == s@[k + start] && zeros[k]
            == '0');
        lemma_zeros_val(zeros);
        lemma_digits_val_concat(zeros, eff);
        assert(digits_val(zeros) * pow10(eff.len()) == 0) by (nonlinear_arith)
            requires
                digits_val(zeros) == 0,
        ;
        assert(digits_val(digits) == digits_val(eff));
        assert(all_digits(eff)) by {
            assert(forall|k: int| 0 <= k < eff.len() ==> eff[k] == digits[k + (z - start)]);
        }
    }
    if len - z > 10 {
        // At least eleven significant digits: out of range either way.
        proof {
            lemma_digits_val_concat(eff.subrange(0, 1), eff.subrange(1, eff.len() as int));
            assert(eff =~= eff.subrange(0, 1) + eff.subrange(1, eff.len() as int));
            assert(all_digits(eff.subrange(1, eff.len() as int))) by {
                assert(forall|k: int|
                    0 <= k < eff.len() - 1 ==> eff.subrange(1, eff.len() as int)[k] == eff[k
                        + 1]);
            }
            lemma_digits_val_bounds(eff.subrange(1, eff.len() as int));
            lemma_pow10_mono(10, (eff.len() - 1) as nat);
            lemma_pow10_10();
            assert(eff[0] == s@[z as int]);
            assert(is_digit(eff[0]));
            assert(eff[0] != '0');
            let t = eff.subrange(0, 1);
            assert(t.len() == 1 && t[0] == eff[0]);
            assert(t.drop_last() =~= Seq::<char>::empty());
            assert(digits_val(t.drop_last()) == 0);
            assert(digits_val(t) == digits_val(t.drop_last()) * 10 + (t[0] as int - 48));
            assert(digits_val(t) >= 1);
            assert(digits_val(eff.subrange(0, 1)) * pow10((eff.len() - 1) as nat) >= pow10(
                (eff.len() - 1) as nat,
            )) by (nonlinear_arith)
                requires
                    digits_val(eff.subrange(0, 1)) >= 1,
                    pow10((eff.len() - 1) as nat) >= 1,
            ;
            assert(digits_val(eff) >= pow10((eff.len() - 1) as nat));
            assert(digits_val(eff) > 2147483647);
        }
        return None;
    }
    // Accumulate at most ten significant digits; the sum stays far below
    // the unsigned 64-bit bound.
    let mut acc: u64 = 0;
    let mut j: usize = z;
    while j < len
        invariant
            z <= j <= len,
            len == s@.len(),
            len - z <= 10,
            all_digits(eff),
            eff =~= s@.subrange(z as int, len as int),
            acc == digits_val(s@.subrange(z as int, j as int)),
            acc < 10000000000,
        decreases len - j,
    {
        let c = s.get_char(j);
        proof {
            assert(eff[j - z] == s@[j as int]);
        }
        let d: u64 = ((c as u32) - 48) as u64;
        proof {
            let next = s@.subrange(z as int, j + 1);
            assert(next.drop_last() =~= s@.subrange(z as int, j as int));
            assert(next[next.len() - 1] == s@[j as int]);
            assert(all_digits(next)) by {
                assert(forall|k: int| 0 <= k < next.len() ==> next[k] == eff[k]);
            }
            lemma_digits_val_bounds(next);
            lemma_pow10_mono(next.len(), 10);
            lemma_pow10_10();
        }
        acc = acc * 10 + d;
        j = j + 1;
    }
    proof {
        assert(s@.subrange(z as int, j as int) =~= eff);
    }
    if neg {
        let signed: i64 = -(acc as i64);
        if signed >= -2147483648i64 {
            Some(signed as i32)
        } else {
            None
        }
    } else {
        if acc <= 2147483647 {
            Some(acc as i32)
        } else {
            None
        }
    }
}

} // verus!
