//! Properties of the decimal notation used in printouts.
use vstd::prelude::*;
use crate::text::{bracketed, comma_joined, decimal, digit_text, signed_decimal};

verus! {

/// `c` is one of the characters `0` to `9`.
pub open spec fn is_digit(c: char) -> bool {
    ('0' as int) <= (c as int) <= ('9' as int)
}

/// The number that a string of decimal digits denotes.
pub open spec fn digits_value(s: Seq<char>) -> int
    decreases s.len(),
{
    if s.len() == 0 {
        0
    } else {
        digits_value(s.drop_last()) * 10 + ((s.last() as int) - ('0' as int))
    }
}

/// The number that an optionally `-`-signed string of decimal digits denotes.
pub open spec fn signed_digits_value(s: Seq<char>) -> int {
    if s.len() > 0 && s[0] == '-' {
        -digits_value(s.drop_first())
    } else {
        digits_value(s)
    }
}

/// The text of a digit below ten is that single digit character.
proof fn lemma_digit_text(d: nat)
    requires
        d < 10,
    ensures
        digit_text(d).len() == 1,
        is_digit(digit_text(d)[0]),
        (digit_text(d)[0] as int) - ('0' as int) == d,
{
    reveal_strlit("0");
    reveal_strlit("1");
    reveal_strlit("2");
    reveal_strlit("3");
    reveal_strlit("4");
    reveal_strlit("5");
    reveal_strlit("6");
    reveal_strlit("7");
    reveal_strlit("8");
    reveal_strlit("9");
}

/// The decimal notation of `n` is a nonempty string of digits, without a
/// leading zero unless `n` is zero, that denotes `n`.
pub proof fn lemma_decimal_denotes(n: nat)
    ensures
        decimal(n).len() >= 1,
        forall|i: int| 0 <= i < decimal(n).len() ==> is_digit(#[trigger] decimal(n)[i]),
        digits_value(decimal(n)) == n,
        n != 0 ==> decimal(n)[0] != '0',
    decreases n,
{
    if n < 10 {
        lemma_digit_text(n);
        let t = decimal(n);
        assert(t.drop_last() =~= Seq::<char>::empty());
        assert(digits_value(t) == digits_value(t.drop_last()) * 10 + ((t.last() as int) - ('0' as int)));
        reveal_strlit("0");
    } else {
        lemma_decimal_denotes(n / 10);
        lemma_digit_text(n % 10);
        let t = decimal(n);
        let head = decimal(n / 10);
        assert(t.drop_last() =~= head);
        assert(t.last() == digit_text(n % 10)[0]);
        assert(t[0] == head[0]);
        assert(digits_value(t) == digits_value(head) * 10 + ((t.last() as int) - ('0' as int)));
        assert((n / 10) * 10 + n % 10 == n) by (nonlinear_arith);
        assert forall|i: int| 0 <= i < t.len() implies is_digit(#[trigger] t[i]) by {
            if i < head.len() {
                assert(t[i] == head[i]);
            }
        }
    }
}

/// Different numbers have different decimal notations.
pub proof fn lemma_decimal_injective(a: nat, b: nat)
    ensures
        decimal(a) == decimal(b) ==> a == b,
{
    lemma_decimal_denotes(a);
    lemma_decimal_denotes(b);
}

/// The signed decimal notation of `v` denotes `v`, and starts with `-` exactly
/// when `v` is negative (and with a digit otherwise).
pub proof fn lemma_signed_decimal_denotes(v: int)
    ensures
        signed_digits_value(signed_decimal(v)) == v,
        signed_decimal(v).len() >= 1,
        (signed_decimal(v)[0] == '-') == (v < 0),
        v >= 0 ==> is_digit(signed_decimal(v)[0]),
{
    reveal_strlit("-");
    if v < 0 {
        lemma_decimal_denotes((-v) as nat);
        assert(signed_decimal(v).drop_first() =~= decimal((-v) as nat));
    } else {
        lemma_decimal_denotes(v as nat);
    }
}

/// Joining two nonempty lists gives the join of each, separated by a comma and
/// a space; a single item is joined to itself and no items to nothing.
pub proof fn lemma_comma_joined_concat(a: Seq<Seq<char>>, b: Seq<Seq<char>>)
    requires
        a.len() > 0,
        b.len() > 0,
    ensures
        comma_joined(a + b) == comma_joined(a) + seq![',', ' '] + comma_joined(b),
        comma_joined(seq![a[0]]) == a[0],
        comma_joined(Seq::<Seq<char>>::empty()) == Seq::<char>::empty(),
    decreases b.len(),
{
    reveal_strlit(", ");
    assert(", "@ =~= seq![',', ' ']);
    assert((a + b).drop_last() =~= a + b.drop_last());
    assert((a + b).last() == b.last());
    if b.len() > 1 {
        lemma_comma_joined_concat(a, b.drop_last());
        assert(comma_joined(a + b) =~= comma_joined(a) + seq![',', ' '] + comma_joined(b));
    } else {
        assert((a + b).drop_last() =~= a);
        assert(comma_joined(a + b) =~= comma_joined(a) + seq![',', ' '] + comma_joined(b));
    }
}

/// A bracketed list is its joined items between `[` and `]`.
pub proof fn lemma_bracketed_delimiters(items: Seq<Seq<char>>)
    ensures
        bracketed(items) == seq!['['] + comma_joined(items) + seq![']'],
{
    reveal_strlit("[");
    reveal_strlit("]");
    assert("["@ =~= seq!['[']);
    assert("]"@ =~= seq![']']);
}

} // verus!
