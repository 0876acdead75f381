//! Decimal text forms of the scalar extension values: formatting of signed
//! integers and booleans, and the numeric parse used when an extension
//! supplied as text is read by an integer column.

use vstd::prelude::*;
use crate::text::chars_to_string;

verus! {

/// The character for a single decimal digit.
pub open spec fn digit_char(d: int) -> char
    recommends
        0 <= d < 10,
{
    if d == 0 {
        '0'
    } else if d == 1 {
        '1'
    } else if d == 2 {
        '2'
    } else if d == 3 {
        '3'
    } else if d == 4 {
        '4'
    } else if d == 5 {
        '5'
    } else if d == 6 {
        '6'
    } else if d == 7 {
        '7'
    } else if d == 8 {
        '8'
    } else {
        '9'
    }
}

/// The decimal digits of a natural number, most significant first, with no
/// leading zero except for the number zero itself.
pub open spec fn dec_digits(n: nat) -> Seq<char>
    decreases n,
{
    if n < 10 {
        seq![digit_char(n as int)]
    } else {
        dec_digits(n / 10) + seq![digit_char((n % 10) as int)]
    }
}

/// The decimal text of a signed integer: a minus sign for negative values,
/// then the digits of the magnitude.
pub open spec fn i64_text(v: int) -> Seq<char> {
    if v < 0 {
        seq!['-'] + dec_digits((-v) as nat)
    } else {
        dec_digits(v as nat)
    }
}

/// The canonical text of a boolean.
pub open spec fn bool_text(b: bool) -> Seq<char> {
    if b {
        "true"@
    } else {
        "false"@
    }
}

pub open spec fn is_dec_digit(c: char) -> bool {
    48 <= c as u32 <= 57
}

pub open spec fn digit_val(c: char) -> int {
    c as u32 - 48
}

pub open spec fn all_digits(s: Seq<char>) -> bool {
    forall|i: int| 0 <= i < s.len() ==> is_dec_digit(#[trigger] s[i])
}

/// The value of a sequence of decimal digits, most significant first.
pub open spec fn digits_val(s: Seq<char>) -> int
    decreases s.len(),
{
    if s.len() == 0 {
        0
    } else {
        digits_val(s.drop_last()) * 10 + digit_val(s.last())
    }
}

/// The number a piece of text denotes: an optional sign, then one or more
/// decimal digits, whose value fits in an `i64`. Anything else denotes
/// nothing. This is the acceptance rule of the integer-column coercion.
pub open spec fn dec_value(s: Seq<char>) -> Option<i64> {
    if s.len() == 0 {
        None
    } else if s[0] == '-' {
        dec_magnitude(s.skip(1), true)
    } else if s[0] == '+' {
        dec_magnitude(s.skip(1), false)
    } else {
        dec_magnitude(s, false)
    }
}

pub open spec fn dec_magnitude(d: Seq<char>, neg: bool) -> Option<i64> {
    if d.len() > 0 && all_digits(d) {
        if neg {
            if -digits_val(d) >= i64::MIN as int {
                Some((-digits_val(d)) as i64)
            } else {
                None
            }
        } else {
            if digits_val(d) <= i64::MAX as int {
                Some(digits_val(d) as i64)
            } else {
                None
            }
        }
    } else {
        None
    }
}

proof fn lemma_digits_val_nonneg(s: Seq<char>)
    requires
        all_digits(s),
    ensures
        digits_val(s) >= 0,
    decreases s.len(),
{
    if s.len() > 0 {
        assert(forall|i: int| 0 <= i < s.drop_last().len() ==> is_dec_digit(
            #[trigger] s.drop_last()[i],
        ));
        lemma_digits_val_nonneg(s.drop_last());
    }
}

proof fn lemma_digits_val_prefix_le(s: Seq<char>, i: int)
    requires
        all_digits(s),
        0 <= i <= s.len(),
    ensures
        digits_val(s.subrange(0, i)) <= digits_val(s),
    decreases s.len() - i,
{
    if i == s.len() {
        assert(s.subrange(0, i) =~= s);
    } else {
        lemma_digits_val_prefix_le(s, i + 1);
        let p = s.subrange(0, i + 1);
        assert(p.drop_last() =~= s.subrange(0, i));
        assert(forall|j: int| 0 <= j < p.len() ==> is_dec_digit(#[trigger] p[j]));
        lemma_digits_val_nonneg(p.drop_last());
        assert(digits_val(p) == digits_val(p.drop_last()) * 10 + digit_val(p.last()));
        assert(digit_val(p.last()) >= 0);
        assert(digits_val(p.drop_last()) * 10 >= digits_val(p.drop_last())) by (nonlinear_arith)
            requires
                digits_val(p.drop_last()) >= 0,
        ;
    }
}

/// The digits of a natural number are digits, and they denote it.
pub proof fn lemma_dec_digits_val(n: nat)
    ensures
        all_digits(dec_digits(n)),
        digits_val(dec_digits(n)) == n,
        dec_digits(n).len() >= 1,
    decreases n,
{
    if n < 10 {
        let s = seq![digit_char(n as int)];
        assert(s.len() == 1);
        assert(s.drop_last() =~= Seq::<char>::empty());
        assert(digits_val(s) == digits_val(s.drop_last()) * 10 + digit_val(s.last()));
        assert(digits_val(s.drop_last()) == 0);
        assert(s.last() == digit_char(n as int));
        assert(digit_val(digit_char(n as int)) == n);
    } else {
        lemma_dec_digits_val(n / 10);
        let s = dec_digits(n);
        let head = dec_digits(n / 10);
        assert(s == head + seq![digit_char((n % 10) as int)]);
        assert(s.drop_last() =~= head);
        assert(s.last() == digit_char((n % 10) as int));
        assert(digits_val(s) == digits_val(head) * 10 + digit_val(digit_char((n % 10) as int)));
        assert(forall|i: int| 0 <= i < s.len() ==> is_dec_digit(#[trigger] s[i]));
    }
}

fn digit_char_of(d: u64) -> (c: char)
    requires
        d < 10,
    ensures
        c == digit_char(d as int),
{
    if d == 0 {
        '0'
    } else if d == 1 {
        '1'
    } else if d == 2 {
        '2'
    } else if d == 3 {
        '3'
    } else if d == 4 {
        '4'
    } else if d == 5 {
        '5'
    } else if d == 6 {
        '6'
    } else if d == 7 {
        '7'
    } else if d == 8 {
        '8'
    } else {
        '9'
    }
}

pub(crate) fn push_dec_digits(n: u64, out: &mut Vec<char>)
    ensures
        final(out)@ == old(out)@ + dec_digits(n as nat),
    decreases n,
{
    if n < 10 {
        out.push(digit_char_of(n));
        assert(out@ =~= old(out)@ + dec_digits(n as nat));
    } else {
        push_dec_digits(n / 10, out);
        out.push(digit_char_of(n % 10));
        assert(out@ =~= old(out)@ + dec_digits(n as nat));
    }
}

/// Append the decimal text of `v` to `out`.
pub(crate) fn push_i64_text(v: i64, out: &mut Vec<char>)
    ensures
        final(out)@ == old(out)@ + i64_text(v as int),
{
    if v < 0 {
        out.push('-');
        let m: u64 = (-(v as i128)) as u64;
        assert(m as nat == (-(v as int)) as nat);
        push_dec_digits(m, out);
        assert(out@ =~= old(out)@ + i64_text(v as int));
    } else {
        push_dec_digits(v as u64, out);
    }
}

/// The decimal text of a signed integer.
pub fn i64_to_text(v: i64) -> (r: String)
    ensures
        r@ == i64_text(v as int),
{
    let mut out: Vec<char> = Vec::new();
    push_i64_text(v, &mut out);
    chars_to_string(&out)
}

/// The canonical text of a boolean.
pub fn bool_to_text(b: bool) -> (r: String)
    ensures
        r@ == bool_text(b),
{
    if b {
        String::from_str("true")
    } else {
        String::from_str("false")
    }
}

/// Parse a piece of text as a signed decimal integer: an optional sign and
/// one or more digits, with the value in range of `i64`. Returns the denoted
/// value, or `None` for any other text.
pub fn parse_i64(s: &str) -> (r: Option<i64>)
    ensures
        r == dec_value(s@),
{
    let n: usize = s.unicode_len();
    if n == 0 {
        return None;
    }
    let c0: char = s.get_char(0);
    let neg: bool = c0 == '-';
    let start: usize = if c0 == '-' || c0 == '+' {
        1
    } else {
        0
    };
    let ghost digits: Seq<char> = s@.skip(start as int);
    proof {
        if start == 0 {
            assert(digits =~= s@);
        }
        assert(digits.len() == n - start);
    }
    if start >= n {
        // a bare sign has no digits
        return None;
    }
    let mut m: i128 = 0;
    let mut i: usize = start;
    while i < n
        invariant
            start <= i <= n,
            n == s@.len(),
            n > 0,
            start == 0 || start == 1,
            neg == (s@[0] == '-'),
            (s@[0] == '-' || s@[0] == '+') <==> start == 1,
            digits == s@.skip(start as int),
            start == 0 ==> digits == s@,
            digits.len() == n - start,
            all_digits(s@.subrange(start as int, i as int)),
            m == digits_val(s@.subrange(start as int, i as int)),
            0 <= m <= 9223372036854775808,
        decreases n - i,
    {
        let c: char = s.get_char(i);
        let u: u32 = c as u32;
        if u < 48 || u > 57 {
            proof {
                assert(digits[i - start] == s@[i as int]);
                assert(!is_dec_digit(digits[i - start]));
            }
            return None;
        }
        let d: u32 = u - 48;
        m = m * 10 + (d as i128);
        proof {
            let p = s@.subrange(start as int, i + 1);
            assert(p.drop_last() =~= s@.subrange(start as int, i as int));
            assert(p.last() == s@[i as int]);
            assert(all_digits(p)) by {
                assert(forall|j: int|
                    0 <= j < p.len() ==> is_dec_digit(#[trigger] p[j]));
            }
        }
        i = i + 1;
        if m > 9223372036854775808 {
            proof {
                if all_digits(digits) {
                    let k: int = i - start;
                    assert(digits.subrange(0, k) =~= s@.subrange(start as int, i as int));
                    lemma_digits_val_prefix_le(digits, k);
                    assert(digits_val(digits) >= m);
                }
            }
            return None;
        }
    }
    proof {
        assert(s@.subrange(start as int, n as int) =~= digits);
        if start == 0 {
            assert(digits =~= s@);
        }
    }
    if neg {
        let v: i64 = (-m) as i64;
        Some(v)
    } else {
        if m > 9223372036854775807 {
            return None;
        }
        Some(m as i64)
    }
}

} // verus!
