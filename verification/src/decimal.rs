//! Decimal rendering of unsigned integers, as `u32::to_string` prints them.

use vstd::prelude::*;
use vstd::string::StringExecFns;

verus! {

/// The character of the decimal digit `d` (`0 <= d < 10`).
pub open spec fn digit_char(d: int) -> char {
    if d <= 0 {
        '0'
    } else if d == 1 {
        '1'
    } else if d == 2 {
        '2'
    } else if d == 3 {
        '3'
    } else if d == 4 {
        '4'
    } else if d == 5 {
        '5'
    } else if d == 6 {
        '6'
    } else if d == 7 {
        '7'
    } else if d == 8 {
        '8'
    } else {
        '9'
    }
}

/// The value of a decimal digit character.
pub open spec fn digit_value(c: char) -> int {
    c as int - 48
}

/// Whether `c` is one of `'0'..='9'`.
pub open spec fn is_digit(c: char) -> bool {
    48 <= c as int <= 57
}

/// The shortest decimal numeral of `n`, most significant digit first.
pub open spec fn decimal(n: nat) -> Seq<char>
    decreases n,
{
    if n < 10 {
        seq![digit_char(n as int)]
    } else {
        decimal(n / 10).push(digit_char((n % 10) as int))
    }
}

/// The number that a string of decimal digits denotes.
pub open spec fn decimal_value(s: Seq<char>) -> int
    decreases s.len(),
{
    if s.len() == 0 {
        0
    } else {
        decimal_value(s.drop_last()) * 10 + digit_value(s.last())
    }
}

/// A numeral is canonical when it is made of digits, is not empty, and starts
/// with `0` only if it is `"0"` itself.
pub open spec fn is_canonical_numeral(s: Seq<char>) -> bool {
    &&& s.len() > 0
    &&& forall|i: int| 0 <= i < s.len() ==> is_digit(#[trigger] s[i])
    &&& (s[0] == '0' ==> s.len() == 1)
}

proof fn lemma_digit_char(d: int)
    requires
        0 <= d < 10,
    ensures
        digit_value(digit_char(d)) == d,
        is_digit(digit_char(d)),
        digit_char(d) == '0' <==> d == 0,
{
}

/// Reading back the numeral of `n` gives `n`, and the numeral is canonical:
/// digits only, no leading zero.
pub proof fn lemma_decimal_roundtrip(n: nat)
    ensures
        decimal_value(decimal(n)) == n,
        is_canonical_numeral(decimal(n)),
    decreases n,
{
    let s = decimal(n);
    if n < 10 {
        lemma_digit_char(n as int);
        assert(s.drop_last() =~= Seq::<char>::empty());
        assert(decimal_value(s) == decimal_value(s.drop_last()) * 10 + digit_value(s.last()));
    } else {
        lemma_decimal_roundtrip(n / 10);
        lemma_digit_char((n % 10) as int);
        let prefix = decimal(n / 10);
        assert(s.drop_last() =~= prefix);
        assert(s.last() == digit_char((n % 10) as int));
        assert(decimal_value(s) == decimal_value(prefix) * 10 + (n % 10));
        assert(s[0] == prefix[0]);
        if prefix[0] == '0' {
            assert(prefix.drop_last() =~= Seq::<char>::empty());
            assert(decimal_value(prefix) == decimal_value(prefix.drop_last()) * 10 + digit_value(
                prefix.last(),
            ));
        }
        assert forall|i: int| 0 <= i < s.len() implies is_digit(#[trigger] s[i]) by {
            if i < prefix.len() {
                assert(s[i] == prefix[i]);
                assert(is_digit(prefix[i]));
            }
        }
    }
}

/// Two numbers with the same numeral are equal.
pub proof fn lemma_decimal_injective(m: nat, n: nat)
    requires
        decimal(m) == decimal(n),
    ensures
        m == n,
{
    lemma_decimal_roundtrip(m);
    lemma_decimal_roundtrip(n);
}

fn digit_str(d: u32) -> (s: &'static str)
    requires
        d < 10,
    ensures
        s@ == seq![digit_char(d as int)],
{
    proof {
        reveal_strlit("0");
        reveal_strlit("1");
        reveal_strlit("2");
        reveal_strlit("3");
        reveal_strlit("4");
        reveal_strlit("5");
        reveal_strlit("6");
        reveal_strlit("7");
        reveal_strlit("8");
        reveal_strlit("9");
    }
    if d == 0 {
        "0"
    } else if d == 1 {
        "1"
    } else if d == 2 {
        "2"
    } else if d == 3 {
        "3"
    } else if d == 4 {
        "4"
    } else if d == 5 {
        "5"
    } else if d == 6 {
        "6"
    } else if d == 7 {
        "7"
    } else if d == 8 {
        "8"
    } else {
        "9"
    }
}

/// Appends the decimal numeral of `n` to `out`.
pub fn push_decimal(out: &mut String, n: u32)
    ensures
        final(out)@ == old(out)@ + decimal(n as nat),
    decreases n,
{
    if n >= 10 {
        push_decimal(out, n / 10);
    }
    out.append(digit_str(n % 10));
    proof {
        if n >= 10 {
            assert(decimal(n as nat) == decimal((n / 10) as nat).push(digit_char((n % 10) as int)));
        }
    }
}

/// The decimal numeral of `n`, as `n.to_string()` writes it.
pub fn u32_to_decimal(n: u32) -> (s: String)
    ensures
        s@ == decimal(n as nat),
{
    let mut s = String::new();
    push_decimal(&mut s, n);
    assert(s@ =~= decimal(n as nat));
    s
}

} // verus!
