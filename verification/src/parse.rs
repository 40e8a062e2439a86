//! Decimal parsing for stored cell payloads: a signed 64-bit integer read
//! from a string of digits, with every failure (empty input, a stray
//! character, a value out of range) reported as `None` rather than a panic.

use vstd::prelude::*;

verus! {

/// Whether `c` is one of the decimal digits `'0'` through `'9'`.
pub open spec fn is_decimal_digit(c: char) -> bool {
    '0' <= c && c <= '9'
}

/// The numeric value of a decimal digit character.
pub open spec fn digit_value(c: char) -> int {
    c as int - '0' as int
}

/// Whether every character of `s` is a decimal digit.
pub open spec fn all_decimal_digits(s: Seq<char>) -> bool {
    forall|i: int| 0 <= i < s.len() ==> is_decimal_digit(#[trigger] s[i])
}

/// The integer a sequence of decimal digits denotes, most significant first.
/// The empty sequence denotes zero.
pub open spec fn decimal_value(s: Seq<char>) -> int
    decreases s.len(),
{
    if s.len() == 0 {
        0
    } else {
        decimal_value(s.drop_last()) * 10 + digit_value(s.last())
    }
}

/// Ten to the `n`th power.
pub open spec fn pow10(n: nat) -> int
    decreases n,
{
    if n == 0 {
        1
    } else {
        10 * pow10((n - 1) as nat)
    }
}

/// The signed 64-bit integer a string denotes: an optional leading `'-'`,
/// then one or more decimal digits, with the value in `i64`'s range. Any
/// other shape denotes nothing.
pub open spec fn spec_parse_i64(s: Seq<char>) -> Option<i64> {
    if s.len() > 0 && s[0] == '-' {
        let mag = s.subrange(1, s.len() as int);
        if mag.len() > 0 && all_decimal_digits(mag) && decimal_value(mag)
            <= 0x8000_0000_0000_0000 {
            Some((0 - decimal_value(mag)) as i64)
        } else {
            None
        }
    } else if s.len() > 0 && all_decimal_digits(s) && decimal_value(s) <= i64::MAX as int {
        Some(decimal_value(s) as i64)
    } else {
        None
    }
}

pub proof fn lemma_pow10_positive(n: nat)
    ensures
        pow10(n) >= 1,
    decreases n,
{
    if n > 0 {
        lemma_pow10_positive((n - 1) as nat);
    }
}

pub proof fn lemma_pow10_monotone(a: nat, b: nat)
    requires
        a <= b,
    ensures
        pow10(a) <= pow10(b),
    decreases b,
{
    if a < b {
        lemma_pow10_monotone(a, (b - 1) as nat);
        lemma_pow10_positive((b - 1) as nat);
    }
}

/// A sequence of `n` digits denotes a value in `[0, 10^n)`.
pub proof fn lemma_decimal_value_bounds(s: Seq<char>)
    requires
        all_decimal_digits(s),
    ensures
        0 <= decimal_value(s) < pow10(s.len()),
    decreases s.len(),
{
    if s.len() > 0 {
        let p = s.drop_last();
        assert(forall|i: int| 0 <= i < p.len() ==> p[i] == s[i]);
        lemma_decimal_value_bounds(p);
        assert(is_decimal_digit(s.last()));
    }
}

/// A digit sequence that does not start with `'0'` denotes at least
/// `10^(n-1)`: its length bounds its value from below.
pub proof fn lemma_decimal_value_lower(s: Seq<char>)
    requires
        all_decimal_digits(s),
        s.len() > 0,
        s[0] != '0',
    ensures
        decimal_value(s) >= pow10((s.len() - 1) as nat),
    decreases s.len(),
{
    if s.len() == 1 {
        assert(is_decimal_digit(s[0]));
        assert(s.drop_last() =~= Seq::<char>::empty());
        assert(decimal_value(s.drop_last()) == 0);
        assert(s.last() == s[0]);
        assert(digit_value(s[0]) >= 1);
    } else {
        let p = s.drop_last();
        assert(forall|i: int| 0 <= i < p.len() ==> p[i] == s[i]);
        assert(p[0] == s[0]);
        lemma_decimal_value_lower(p);
        assert(decimal_value(p) >= pow10((s.len() - 2) as nat));
        assert(is_decimal_digit(s.last()));
        assert(digit_value(s.last()) >= 0);
        assert(pow10((s.len() - 1) as nat) == 10 * pow10((s.len() - 2) as nat));
        assert(decimal_value(s) == decimal_value(p) * 10 + digit_value(s.last()));
    }
}

/// A leading zero does not change the value a digit sequence denotes.
pub proof fn lemma_decimal_value_drop_leading_zero(s: Seq<char>)
    requires
        s.len() > 0,
        s[0] == '0',
    ensures
        decimal_value(s.drop_first()) == decimal_value(s),
    decreases s.len(),
{
    if s.len() == 1 {
        assert(s.drop_first() =~= Seq::<char>::empty());
        assert(s.drop_last() =~= Seq::<char>::empty());
    } else {
        let p = s.drop_last();
        lemma_decimal_value_drop_leading_zero(p);
        assert(s.drop_first().drop_last() =~= p.drop_first());
        assert(s.drop_first().last() == s.last());
    }
}

/// Parse a signed 64-bit integer from a string: an optional leading `'-'`,
/// then one or more decimal digits. Returns `None` for any other shape and
/// for values outside `i64`'s range, exactly as [`spec_parse_i64`] says.
#[verifier::loop_isolation(false)]
pub fn parse_i64(s: &str) -> (r: Option<i64>)
    ensures
        r == spec_parse_i64(s@),
{
    let n = s.unicode_len();
    if n == 0 {
        return None;
    }
    let neg = s.get_char(0) == '-';
    let start: usize = if neg {
        1
    } else {
        0
    };
    if start == n {
        // a bare sign with no digits
        return None;
    }
    let ghost mag = s@.subrange(start as int, n as int);

    // every remaining character must be a digit
    let mut i = start;
    while i < n
        invariant
            start <= i <= n,
            n == s@.len(),
            forall|j: int| start <= j < i ==> is_decimal_digit(#[trigger] s@[j]),
        decreases n - i,
    {
        let c = s.get_char(i);
        if c < '0' || c > '9' {
            proof {
                assert(mag[i - start as int] == s@[i as int]);
                assert(!all_decimal_digits(mag));
            }
            return None;
        }
        i += 1;
    }
    proof {
        assert(forall|j: int| 0 <= j < mag.len() ==> mag[j] == s@[j + start]);
        assert(all_decimal_digits(mag));
    }

    // skip leading zeros so that the length of what is left bounds the value
    let mut z = start;
    let mut at_nonzero = false;
    while !at_nonzero && z < n - 1
        invariant
            start <= z < n,
            forall|j: int| start <= j < z ==> s@[j] == '0',
            decimal_value(s@.subrange(z as int, n as int)) == decimal_value(mag),
            at_nonzero ==> s@[z as int] != '0',
        decreases n - z, (if at_nonzero { 0int } else { 1int }),
    {
        if s.get_char(z) == '0' {
            proof {
                let cur = s@.subrange(z as int, n as int);
                assert(cur[0] == s@[z as int]);
                lemma_decimal_value_drop_leading_zero(cur);
                assert(cur.drop_first() =~= s@.subrange(z as int + 1, n as int));
            }
            z += 1;
        } else {
            at_nonzero = true;
        }
    }
    let ghost digits = s@.subrange(z as int, n as int);
    proof {
        assert(forall|j: int| 0 <= j < digits.len() ==> digits[j] == s@[j + z]);
        assert(all_decimal_digits(digits));
    }

    if n - z > 19 {
        // too many significant digits: the value is at least 10^19, which is
        // already beyond the magnitude of any i64
        proof {
            assert(z < n - 1);
            assert(s@[z as int] != '0');
            assert(digits[0] == s@[z as int]);
            lemma_decimal_value_lower(digits);
            lemma_pow10_monotone(19, (digits.len() - 1) as nat);
            assert(pow10(19) == 10_000_000_000_000_000_000) by {
                reveal_with_fuel(pow10, 21);
            }
            assert(decimal_value(mag) >= 10_000_000_000_000_000_000);
            if neg {
                assert(mag == s@.subrange(1, n as int));
            } else {
                assert(mag =~= s@);
            }
        }
        return None;
    }

    // accumulate the value; at most 19 digits, so a u64 cannot overflow
    let mut acc: u64 = 0;
    let mut i = z;
    while i < n
        invariant
            z <= i <= n,
            n == s@.len(),
            n - z <= 19,
            all_decimal_digits(s@.subrange(z as int, n as int)),
            digits == s@.subrange(z as int, n as int),
            acc == decimal_value(s@.subrange(z as int, i as int)),
            acc < pow10((i - z) as nat),
        decreases n - i,
    {
        let c = s.get_char(i);
        proof {
            assert(digits[i - z as int] == s@[i as int]);
            assert(is_decimal_digit(s@[i as int]));
        }
        let d = (c as u32 - 48) as u64;
        proof {
            let pre = s@.subrange(z as int, i as int);
            let post = s@.subrange(z as int, i as int + 1);
            assert(post.drop_last() =~= pre);
            assert(post.last() == s@[i as int]);
            lemma_pow10_monotone((i - z + 1) as nat, 19);
            assert(pow10(19) == 10_000_000_000_000_000_000) by {
                reveal_with_fuel(pow10, 21);
            }
        }
        acc = acc * 10 + d;
        i += 1;
    }
    proof {
        assert(s@.subrange(z as int, n as int) == digits);
        assert(acc == decimal_value(digits));
        assert(decimal_value(digits) == decimal_value(mag));
        lemma_decimal_value_bounds(mag);
    }

    if neg {
        proof {
            assert(mag =~= s@.subrange(1, n as int));
        }
        if acc < 0x8000_0000_0000_0000 {
            Some(-(acc as i64))
        } else if acc == 0x8000_0000_0000_0000 {
            Some(i64::MIN)
        } else {
            None
        }
    } else {
        proof {
            assert(mag =~= s@);
            assert(s@[0] != '-');
        }
        if acc <= 0x7FFF_FFFF_FFFF_FFFF {
            Some(acc as i64)
        } else {
            None
        }
    }
}

} // verus!
