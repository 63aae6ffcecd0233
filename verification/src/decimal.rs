//! Decimal text for `i64` settings values: what `str::parse::<i64>` accepts and
//! what `i64::to_string` writes.
use vstd::prelude::*;

use crate::external::push_char;
use crate::text::is_ascii_digit;

verus! {

/// The value of an ASCII digit.
pub open spec fn digit_value(c: char) -> int {
    (c as u32) - 48
}

/// The ASCII digit for `d` in `0..10`.
pub open spec fn digit_char(d: int) -> char {
    if d == 0 {
        '0'
    } else if d == 1 {
        '1'
    } else if d == 2 {
        '2'
    } else if d == 3 {
        '3'
    } else if d == 4 {
        '4'
    } else if d == 5 {
        '5'
    } else if d == 6 {
        '6'
    } else if d == 7 {
        '7'
    } else if d == 8 {
        '8'
    } else {
        '9'
    }
}

/// The number that a string of ASCII digits spells in base 10.
pub open spec fn digits_value(s: Seq<char>) -> int
    decreases s.len(),
{
    if s.len() == 0 {
        0
    } else {
        digits_value(s.drop_last()) * 10 + digit_value(s.last())
    }
}

pub open spec fn all_digits(s: Seq<char>) -> bool {
    forall|i: int| 0 <= i < s.len() ==> is_ascii_digit(#[trigger] s[i])
}

/// `str::parse::<i64>`: an optional `+` or `-`, then one or more ASCII digits,
/// naming a value in the range of `i64`.
pub open spec fn parsed_i64(s: Seq<char>) -> Option<int> {
    let negative = s.len() > 0 && s[0] == '-';
    let signed = s.len() > 0 && (s[0] == '-' || s[0] == '+');
    let digits = if signed {
        s.drop_first()
    } else {
        s
    };
    let magnitude = digits_value(digits);
    let value = if negative {
        -magnitude
    } else {
        magnitude
    };
    if digits.len() == 0 || !all_digits(digits) || value < i64::MIN || value > i64::MAX {
        None
    } else {
        Some(value)
    }
}

/// The base-10 digits of `m`, most significant first, without leading zeros.
pub open spec fn natural_digits(m: nat) -> Seq<char>
    decreases m,
{
    if m < 10 {
        seq![digit_char(m as int)]
    } else {
        natural_digits(m / 10).push(digit_char((m % 10) as int))
    }
}

/// `i64::to_string`: a `-` for negative values, then the digits of the magnitude.
pub open spec fn decimal(n: int) -> Seq<char> {
    if n < 0 {
        seq!['-'] + natural_digits((-n) as nat)
    } else {
        natural_digits(n as nat)
    }
}

proof fn lemma_digit_char(d: int)
    requires
        0 <= d < 10,
    ensures
        is_ascii_digit(digit_char(d)),
        digit_value(digit_char(d)) == d,
{
}

proof fn lemma_natural_digits(m: nat)
    ensures
        natural_digits(m).len() > 0,
        all_digits(natural_digits(m)),
        digits_value(natural_digits(m)) == m,
        natural_digits(m)[0] != '-' && natural_digits(m)[0] != '+',
    decreases m,
{
    if m < 10 {
        lemma_digit_char(m as int);
        assert(natural_digits(m).drop_last() =~= Seq::<char>::empty());
        assert(digits_value(Seq::<char>::empty()) == 0);
        assert(natural_digits(m).last() == digit_char(m as int));
    } else {
        lemma_natural_digits(m / 10);
        lemma_digit_char((m % 10) as int);
        let s = natural_digits(m);
        assert(s.drop_last() == natural_digits(m / 10));
        assert((m / 10) * 10 + m % 10 == m);
        assert(s.last() == digit_char((m % 10) as int));
        assert(digits_value(s) == digits_value(natural_digits(m / 10)) * 10 + (m % 10));
        assert(all_digits(s)) by {
            assert forall|i: int| 0 <= i < s.len() implies is_ascii_digit(#[trigger] s[i]) by {
                if i < s.len() - 1 {
                    assert(s[i] == natural_digits(m / 10)[i]);
                }
            }
        }
    }
}

/// Every `i64` reads back from its decimal text: `s.to_string().parse() == Ok(s)`.
pub proof fn lemma_decimal_round_trip(n: i64)
    ensures
        parsed_i64(decimal(n as int)) == Some(n as int),
{
    let s = decimal(n as int);
    if n < 0 {
        let m = (-(n as int)) as nat;
        lemma_natural_digits(m);
        assert(s.drop_first() == natural_digits(m));
    } else {
        lemma_natural_digits(n as nat);
    }
}

proof fn lemma_digits_value_grows(s: Seq<char>, j: int, k: int)
    requires
        all_digits(s),
        0 <= j <= k <= s.len(),
    ensures
        digits_value(s.take(j)) <= digits_value(s.take(k)),
    decreases k - j,
{
    if j < k {
        lemma_digits_value_grows(s, j, k - 1);
        assert(s.take(k).drop_last() == s.take(k - 1));
        assert(is_ascii_digit(s[k - 1]));
        assert(digits_value(s.take(k - 1)) >= 0) by {
            lemma_digits_value_nonneg(s.take(k - 1));
        }
    }
}

proof fn lemma_digits_value_nonneg(s: Seq<char>)
    requires
        all_digits(s),
    ensures
        digits_value(s) >= 0,
    decreases s.len(),
{
    if s.len() > 0 {
        assert(all_digits(s.drop_last())) by {
            assert forall|i: int| 0 <= i < s.len() - 1 implies is_ascii_digit(
                #[trigger] s.drop_last()[i],
            ) by {
                assert(s.drop_last()[i] == s[i]);
            }
        }
        lemma_digits_value_nonneg(s.drop_last());
        assert(is_ascii_digit(s[s.len() - 1]));
    }
}

proof fn lemma_not_all_digits(digits: Seq<char>, i: int)
    requires
        0 <= i < digits.len(),
        !is_ascii_digit(digits[i]),
    ensures
        !all_digits(digits),
{
}

proof fn lemma_extend_digits(digits: Seq<char>, i: int)
    requires
        0 <= i < digits.len(),
        is_ascii_digit(digits[i]),
        all_digits(digits.take(i)),
    ensures
        all_digits(digits.take(i + 1)),
        digits_value(digits.take(i + 1)) == digits_value(digits.take(i)) * 10 + digit_value(
            digits[i],
        ),
{
    assert(digits.take(i + 1).drop_last() == digits.take(i));
    assert forall|j: int| 0 <= j < i + 1 implies is_ascii_digit(#[trigger] digits.take(i + 1)[j]) by {
        if j < i {
            assert(digits.take(i + 1)[j] == digits.take(i)[j]);
        }
    }
}

proof fn lemma_no_overflow(magnitude: u64, d: u64)
    requires
        magnitude <= (9223372036854775808 - d) / 10,
        d < 10,
    ensures
        magnitude * 10 + d <= 9223372036854775808,
{
    assert(magnitude * 10 + d <= 9223372036854775808) by (nonlinear_arith)
        requires
            magnitude <= (9223372036854775808 - d) / 10,
            d < 10,
    ;
}

proof fn lemma_overflow(digits: Seq<char>, i: int, magnitude: u64, d: u64)
    requires
        0 <= i < digits.len(),
        d < 10,
        magnitude > (9223372036854775808 - d) / 10,
        magnitude == digits_value(digits.take(i)),
        d == digit_value(digits[i]),
        digits_value(digits.take(i + 1)) == digits_value(digits.take(i)) * 10 + digit_value(
            digits[i],
        ),
    ensures
        all_digits(digits) ==> digits_value(digits) > 9223372036854775808,
{
    assert(magnitude * 10 + d > 9223372036854775808) by (nonlinear_arith)
        requires
            magnitude > (9223372036854775808 - d) / 10,
            d < 10,
    ;
    if all_digits(digits) {
        lemma_digits_value_grows(digits, i + 1, digits.len() as int);
        assert(digits.take(digits.len() as int) == digits);
    }
}

/// The ASCII digit for `d`.
fn digit_to_char(d: u64) -> (c: char)
    requires
        d < 10,
    ensures
        c == digit_char(d as int),
{
    if d == 0 {
        '0'
    } else if d == 1 {
        '1'
    } else if d == 2 {
        '2'
    } else if d == 3 {
        '3'
    } else if d == 4 {
        '4'
    } else if d == 5 {
        '5'
    } else if d == 6 {
        '6'
    } else if d == 7 {
        '7'
    } else if d == 8 {
        '8'
    } else {
        '9'
    }
}

fn push_natural(out: &mut String, m: u64)
    ensures
        final(out)@ == old(out)@ + natural_digits(m as nat),
    decreases m,
{
    if m >= 10 {
        push_natural(out, m / 10);
    }
    push_char(out, digit_to_char(m % 10));
}

/// `i64::to_string`.
pub fn format_i64(n: i64) -> (text: String)
    ensures
        text@ == decimal(n as int),
{
    let mut out = String::new();
    if n < 0 {
        push_char(&mut out, '-');
        let magnitude: u64 = ((-(n + 1)) as u64) + 1;
        push_natural(&mut out, magnitude);
    } else {
        push_natural(&mut out, n as u64);
    }
    out
}

/// `str::parse::<i64>` as an `Option`.
pub fn parse_i64(chars: &Vec<char>) -> (value: Option<i64>)
    ensures
        value matches Some(v) ==> parsed_i64(chars@) == Some(v as int),
        value is None ==> parsed_i64(chars@) is None,
{
    let n = chars.len();
    let negative = n > 0 && chars[0] == '-';
    let signed = n > 0 && (chars[0] == '-' || chars[0] == '+');
    let start: usize = if signed {
        1
    } else {
        0
    };
    let ghost digits = if signed {
        chars@.drop_first()
    } else {
        chars@
    };
    assert(digits == chars@.subrange(start as int, n as int));
    if start == n {
        return None;
    }
    let limit: u64 = 9223372036854775808;
    let mut magnitude: u64 = 0;
    let mut k: usize = start;
    while k < n
        invariant
            start <= k <= n == chars.len(),
            digits == chars@.subrange(start as int, n as int),
            digits == (if signed { chars@.drop_first() } else { chars@ }),
            signed == (n > 0 && (chars@[0] == '-' || chars@[0] == '+')),
            negative == (n > 0 && chars@[0] == '-'),
            magnitude <= limit,
            limit == 9223372036854775808,
            magnitude == digits_value(digits.take(k - start)),
            all_digits(digits.take(k - start)),
        decreases n - k,
    {
        let c = chars[k];
        if !('0' <= c && c <= '9') {
            proof {
                lemma_not_all_digits(digits, k - start);
            }
            return None;
        }
        let d: u64 = (c as u32 - 48) as u64;
        proof {
            lemma_extend_digits(digits, k - start);
        }
        if magnitude > (limit - d) / 10 {
            proof {
                lemma_overflow(digits, k - start, magnitude, d);
            }
            return None;
        }
        proof {
            lemma_no_overflow(magnitude, d);
        }
        magnitude = magnitude * 10 + d;
        k = k + 1;
    }
    assert(digits.take(n - start) == digits);
    if negative {
        if magnitude == limit {
            Some(i64::MIN)
        } else {
            Some(-(magnitude as i64))
        }
    } else {
        if magnitude == limit {
            None
        } else {
            Some(magnitude as i64)
        }
    }
}

} // verus!
