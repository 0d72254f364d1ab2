//! Decimal notation of unsigned numbers.

use vstd::arithmetic::div_mod::lemma_div_denominator;
use vstd::arithmetic::power::lemma_pow_increases;
use vstd::arithmetic::power::lemma_pow_positive;
use vstd::arithmetic::power::pow;
use vstd::prelude::*;

verus! {

/// The character of the decimal digit `d`.
pub open spec fn digit_char(d: nat) -> char
    recommends
        d < 10,
{
    (('0' as nat) + d) as char
}

/// The decimal notation of `n`, without leading zeros.
pub open spec fn decimal(n: nat) -> Seq<char>
    decreases n,
{
    if n < 10 {
        seq![digit_char(n)]
    } else {
        decimal(n / 10).push(digit_char(n % 10))
    }
}

/// The one character text of a digit.
fn digit_text(d: u64) -> (text: &'static str)
    requires
        d < 10,
    ensures
        text@ == seq![digit_char(d as nat)],
{
    proof {
        reveal_strlit("0");
        reveal_strlit("1");
        reveal_strlit("2");
        reveal_strlit("3");
        reveal_strlit("4");
        reveal_strlit("5");
        reveal_strlit("6");
        reveal_strlit("7");
        reveal_strlit("8");
        reveal_strlit("9");
    }
    match d {
        0 => "0",
        1 => "1",
        2 => "2",
        3 => "3",
        4 => "4",
        5 => "5",
        6 => "6",
        7 => "7",
        8 => "8",
        _ => "9",
    }
}

/// Appends the decimal notation of `n` to `text`.
pub fn append_decimal(text: &mut String, n: u64)
    ensures
        final(text)@ == old(text)@ + decimal(n as nat),
    decreases n,
{
    if n >= 10 {
        append_decimal(text, n / 10);
    }
    text.append(digit_text(n % 10));
}

/// The last digit of a number, and the digits before it.
proof fn lemma_decimal_last(n: nat)
    ensures
        decimal(n).len() > 0,
        decimal(n).last() == digit_char(n % 10),
        n >= 10 ==> decimal(n).drop_last() == decimal(n / 10),
        n < 10 ==> decimal(n).drop_last().len() == 0,
{
    if n >= 10 {
        assert(decimal(n).drop_last() =~= decimal(n / 10));
    }
}

/// Two numbers with one decimal notation are the same number.
pub proof fn lemma_decimal_injective(a: nat, b: nat)
    requires
        decimal(a) == decimal(b),
    ensures
        a == b,
    decreases a,
{
    lemma_decimal_last(a);
    lemma_decimal_last(b);
    assert(a % 10 == b % 10);
    if a >= 10 && b >= 10 {
        lemma_decimal_injective(a / 10, b / 10);
    } else {
        lemma_decimal_last(a / 10);
        lemma_decimal_last(b / 10);
    }
}

/// A decimal notation is made of digits.
pub proof fn lemma_decimal_digits(n: nat)
    ensures
        forall|i: int| 0 <= i < decimal(n).len() ==> '0' <= #[trigger] decimal(n)[i] <= '9',
    decreases n,
{
    lemma_decimal_last(n);
    if n >= 10 {
        lemma_decimal_digits(n / 10);
        assert forall|i: int| 0 <= i < decimal(n).len() implies '0' <= #[trigger] decimal(n)[i]
            <= '9' by {
            if i < decimal(n).len() - 1 {
                assert(decimal(n)[i] == decimal(n / 10)[i]);
            }
        }
    }
}

/// These are the digits of `n` by their places, with none to spare: the digit
/// `k` places from the right counts the `k`th power of ten.
pub open spec fn are_digits_of(digits: Seq<char>, n: nat) -> bool {
    &&& digits.len() > 0
    &&& n < pow(10, digits.len())
    &&& digits.len() > 1 ==> n >= pow(10, (digits.len() - 1) as nat)
    &&& forall|i: int|
        0 <= i < digits.len() ==> #[trigger] digits[i] as int == '0' as int + (n as int / pow(
            10,
            (digits.len() - 1 - i) as nat,
        )) % 10
}

/// The decimal notation has the digits of the number.
pub proof fn lemma_decimal_has_digits(n: nat)
    ensures
        are_digits_of(decimal(n), n),
    decreases n,
{
    reveal(pow);
    let digits = decimal(n);
    lemma_decimal_last(n);
    if n < 10 {
        assert(pow(10, 1) == 10 * pow(10, 0));
        assert(n as int / pow(10, 0) == n);
    } else {
        let head = decimal(n / 10);
        let len = head.len();
        lemma_decimal_has_digits(n / 10);
        assert(digits.len() == len + 1);
        assert(pow(10, len + 1) == 10 * pow(10, len));
        assert(n < pow(10, len + 1));
        if len > 1 {
            assert(pow(10, len) == 10 * pow(10, (len - 1) as nat));
        } else {
            assert(pow(10, 1) == 10 * pow(10, 0));
        }
        assert(n >= pow(10, len));
        assert forall|i: int| 0 <= i < digits.len() implies #[trigger] digits[i] as int == '0' as int
            + (n as int / pow(10, (digits.len() - 1 - i) as nat)) % 10 by {
            if i < len {
                let place = (len - 1 - i) as nat;
                assert(digits[i] == head[i]);
                assert(pow(10, place + 1) == 10 * pow(10, place));
                lemma_pow_positive(10, place);
                lemma_div_denominator(n as int, 10, pow(10, place));
                assert((digits.len() - 1 - i) as nat == place + 1);
            } else {
                assert(n as int / pow(10, 0) == n);
            }
        }
    }
}

/// A number has one sequence of digits.
pub proof fn lemma_digits_unique(left: Seq<char>, right: Seq<char>, n: nat)
    requires
        are_digits_of(left, n),
        are_digits_of(right, n),
    ensures
        left == right,
{
    if left.len() < right.len() {
        lemma_pow_increases(10, left.len(), (right.len() - 1) as nat);
    }
    if right.len() < left.len() {
        lemma_pow_increases(10, right.len(), (left.len() - 1) as nat);
    }
    assert forall|i: int| 0 <= i < left.len() implies left[i] == right[i] by {
        assert(left[i] as int == right[i] as int);
    }
    assert(left =~= right);
}

/// Appending a number leaves the text as it was and puts the digits of the
/// number behind it, each by its place, without leading zeros.
pub proof fn law_append_decimal(text: &mut String, n: u64)
    requires
        call_ensures(append_decimal, (text, n), ()),
    ensures
        ({
            let before = old(text)@.len();
            let digits = final(text)@.skip(before as int);
            &&& final(text)@.len() > before
            &&& final(text)@.take(before as int) == old(text)@
            &&& n < pow(10, digits.len())
            &&& digits.len() > 1 ==> n >= pow(10, (digits.len() - 1) as nat)
            &&& forall|i: int|
                0 <= i < digits.len() ==> #[trigger] digits[i] as int == '0' as int + (n as int
                    / pow(10, (digits.len() - 1 - i) as nat)) % 10
        }),
{
    lemma_decimal_has_digits(n as nat);
    let before = old(text)@.len() as int;
    assert(final(text)@.take(before) =~= old(text)@);
    assert(final(text)@.skip(before) =~= decimal(n as nat));
}

} // verus!
