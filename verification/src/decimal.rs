//! Decimal text of integers, as the plain-text and JSON renderings carry it.

use vstd::prelude::*;
use vstd::string::*;

verus! {

/// The character that writes the digit `d`.
pub open spec fn digit_char(d: nat) -> char
    recommends
        d < 10,
{
    if d == 0 {
        '0'
    } else if d == 1 {
        '1'
    } else if d == 2 {
        '2'
    } else if d == 3 {
        '3'
    } else if d == 4 {
        '4'
    } else if d == 5 {
        '5'
    } else if d == 6 {
        '6'
    } else if d == 7 {
        '7'
    } else if d == 8 {
        '8'
    } else {
        '9'
    }
}

/// Whether `c` is one of the ten decimal digits.
pub open spec fn is_digit(c: char) -> bool {
    exists|d: nat| d < 10 && c == #[trigger] digit_char(d)
}

/// The positional decimal notation of a natural number: most significant
/// digit first, a single `0` for zero.
pub open spec fn digits(n: nat) -> Seq<char>
    decreases n,
{
    if n < 10 {
        seq![digit_char(n)]
    } else {
        digits(n / 10).push(digit_char(n % 10))
    }
}

/// The decimal notation of an integer: a minus sign before the digits of a
/// negative number, nothing before those of any other.
pub open spec fn decimal(v: int) -> Seq<char> {
    if v < 0 {
        seq!['-'] + digits((-v) as nat)
    } else {
        digits(v as nat)
    }
}

/// The digit written by `c`, for a digit character.
pub open spec fn digit_value(c: char) -> nat {
    choose|d: nat| d < 10 && c == #[trigger] digit_char(d)
}

/// The natural number that a sequence of digit characters denotes.
pub open spec fn digits_value(s: Seq<char>) -> nat
    decreases s.len(),
{
    if s.len() == 0 {
        0
    } else {
        digits_value(s.drop_last()) * 10 + digit_value(s.last())
    }
}

/// Distinct digits are written by distinct characters.
pub proof fn lemma_digit_value(d: nat)
    requires
        d < 10,
    ensures
        is_digit(digit_char(d)),
        digit_value(digit_char(d)) == d,
{
    let e = digit_value(digit_char(d));
    assert(e < 10 && digit_char(d) == digit_char(e));
}

/// The notation of a natural number is never empty, consists of digits
/// only, and starts with `0` only when the number is zero.
pub proof fn lemma_digits_shape(n: nat)
    ensures
        digits(n).len() >= 1,
        forall|i: int| 0 <= i < digits(n).len() ==> is_digit(#[trigger] digits(n)[i]),
        digits(n)[0] == '0' ==> n == 0,
        n == 0 ==> digits(n) == seq!['0'],
    decreases n,
{
    if n < 10 {
        lemma_digit_value(n);
    } else {
        lemma_digits_shape(n / 10);
        lemma_digit_value(n % 10);
        let head = digits(n / 10);
        assert forall|i: int| 0 <= i < digits(n).len() implies is_digit(
            #[trigger] digits(n)[i],
        ) by {
            if i < head.len() {
                assert(digits(n)[i] == head[i]);
            }
        }
        assert(digits(n)[0] == head[0]);
    }
}

/// Reading the notation of a natural number gives the number back, so two
/// different numbers never share a notation.
pub proof fn lemma_digits_value(n: nat)
    ensures
        digits_value(digits(n)) == n,
    decreases n,
{
    if n < 10 {
        lemma_digit_value(n);
        let s = digits(n);
        assert(s.drop_last() =~= Seq::<char>::empty());
        assert(digits_value(s.drop_last()) == 0);
    } else {
        lemma_digits_value(n / 10);
        lemma_digit_value(n % 10);
        let s = digits(n);
        assert(s.drop_last() =~= digits(n / 10));
        assert(s.last() == digit_char(n % 10));
    }
}

/// The notation of a non-negative integer carries no sign and no padding:
/// it is the digits of the number, without a leading zero unless the number
/// is zero itself.
pub proof fn lemma_decimal_of_non_negative(v: int)
    requires
        v >= 0,
    ensures
        decimal(v) == digits(v as nat),
        decimal(v).len() >= 1,
        forall|i: int| 0 <= i < decimal(v).len() ==> is_digit(#[trigger] decimal(v)[i]),
        decimal(v)[0] == '0' ==> v == 0,
        digits_value(decimal(v)) == v,
{
    lemma_digits_shape(v as nat);
    lemma_digits_value(v as nat);
}

/// The notation of a negative integer is a minus sign followed by the
/// notation of its magnitude.
pub proof fn lemma_decimal_of_negative(v: int)
    requires
        v < 0,
    ensures
        decimal(v).len() >= 2,
        decimal(v)[0] == '-',
        decimal(v).subrange(1, decimal(v).len() as int) == decimal(-v),
{
    lemma_digits_shape((-v) as nat);
    assert(decimal(v).subrange(1, decimal(v).len() as int) =~= digits((-v) as nat));
}

/// The minus sign is not a digit.
pub proof fn lemma_minus_is_no_digit()
    ensures
        !is_digit('-'),
{
    assert forall|d: nat| d < 10 implies '-' != #[trigger] digit_char(d) by {}
}

/// Different integers have different notations.
pub proof fn lemma_decimal_is_injective(a: int, b: int)
    requires
        decimal(a) == decimal(b),
    ensures
        a == b,
{
    lemma_minus_is_no_digit();
    if a >= 0 {
        lemma_decimal_of_non_negative(a);
        if b >= 0 {
            lemma_decimal_of_non_negative(b);
        } else {
            lemma_decimal_of_negative(b);
            assert(is_digit(decimal(a)[0]));
        }
    } else {
        lemma_decimal_of_negative(a);
        if b >= 0 {
            lemma_decimal_of_non_negative(b);
            assert(is_digit(decimal(b)[0]));
        } else {
            lemma_decimal_of_negative(b);
            lemma_decimal_of_non_negative(-a);
            lemma_decimal_of_non_negative(-b);
        }
    }
}

/// The one-character text of the digit `d`.
fn digit_text(d: u8) -> (s: &'static str)
    requires
        d < 10,
    ensures
        s@ == seq![digit_char(d as nat)],
{
    proof {
        reveal_strlit("0");
        reveal_strlit("1");
        reveal_strlit("2");
        reveal_strlit("3");
        reveal_strlit("4");
        reveal_strlit("5");
        reveal_strlit("6");
        reveal_strlit("7");
        reveal_strlit("8");
        reveal_strlit("9");
    }
    let s: &'static str = if d == 0 {
        "0"
    } else if d == 1 {
        "1"
    } else if d == 2 {
        "2"
    } else if d == 3 {
        "3"
    } else if d == 4 {
        "4"
    } else if d == 5 {
        "5"
    } else if d == 6 {
        "6"
    } else if d == 7 {
        "7"
    } else if d == 8 {
        "8"
    } else {
        "9"
    };
    assert(s@ =~= seq![digit_char(d as nat)]);
    s
}

/// Appends the decimal notation of `n` to `out`.
pub fn append_digits(out: &mut String, n: u64)
    ensures
        final(out)@ == old(out)@ + digits(n as nat),
    decreases n,
{
    if n >= 10 {
        append_digits(out, n / 10);
    }
    let d: u8 = (n % 10) as u8;
    out.append(digit_text(d));
    assert(final(out)@ =~= old(out)@ + digits(n as nat));
}

/// The decimal notation of an unsigned integer.
pub fn unsigned_text(n: u64) -> (text: String)
    ensures
        text@ == decimal(n as int),
{
    let mut text = String::new();
    append_digits(&mut text, n);
    assert(text@ =~= digits(n as nat));
    text
}

/// The magnitude of a negative integer.
fn magnitude(v: i64) -> (m: u64)
    requires
        v < 0,
    ensures
        m == -v,
{
    let above: i64 = v + 1;
    let below: u64 = (-above) as u64;
    below + 1
}

/// The decimal notation of a signed integer.
pub fn signed_text(v: i64) -> (text: String)
    ensures
        text@ == decimal(v as int),
{
    if v < 0 {
        let mut text = String::from_str("-");
        proof {
            reveal_strlit("-");
        }
        append_digits(&mut text, magnitude(v));
        assert(text@ =~= decimal(v as int));
        text
    } else {
        unsigned_text(v as u64)
    }
}

} // verus!
