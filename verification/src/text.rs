//! Text that crosses into the toolkit: decimal numbers, coordinate pairs, and
//! the test that a text value can be handed over at all.

use vstd::prelude::*;
use vstd::std_specs::iter::IteratorSpec;
use vstd::string::*;

verus! {

/// The character for one decimal digit.
pub open spec fn digit_char(d: nat) -> char
    recommends
        d < 10,
{
    if d == 0 {
        '0'
    } else if d == 1 {
        '1'
    } else if d == 2 {
        '2'
    } else if d == 3 {
        '3'
    } else if d == 4 {
        '4'
    } else if d == 5 {
        '5'
    } else if d == 6 {
        '6'
    } else if d == 7 {
        '7'
    } else if d == 8 {
        '8'
    } else {
        '9'
    }
}

/// The decimal digits of `n`, most significant first, without leading zeros
/// (zero itself is the single digit `0`).
pub open spec fn decimal_digits(n: nat) -> Seq<char>
    decreases n,
{
    if n < 10 {
        seq![digit_char(n)]
    } else {
        decimal_digits(n / 10).push(digit_char(n % 10))
    }
}

/// The decimal text of an integer: a minus sign for a negative number, then
/// the digits of its magnitude.
pub open spec fn decimal(i: int) -> Seq<char> {
    if i < 0 {
        seq!['-'] + decimal_digits((-i) as nat)
    } else {
        decimal_digits(i as nat)
    }
}

/// The text of a coordinate pair: the two decimal numbers with a comma
/// between them and nothing else.
pub open spec fn pair_text(x: int, y: int) -> Seq<char> {
    decimal(x) + seq![','] + decimal(y)
}

/// A text value can be handed to the toolkit only if no character of it is
/// NUL: the toolkit reads text up to the first NUL.
pub open spec fn nul_free(s: Seq<char>) -> bool {
    forall|i: int| 0 <= i < s.len() ==> s[i] != '\0'
}

/// Every digit character is one of `0` to `9`, so none is NUL.
pub proof fn lemma_digits_are_nul_free(n: nat)
    ensures
        nul_free(decimal_digits(n)),
        decimal_digits(n).len() >= 1,
    decreases n,
{
    if n >= 10 {
        lemma_digits_are_nul_free(n / 10);
    }
}

/// Decimal text can always be handed to the toolkit.
pub proof fn lemma_decimal_is_nul_free(i: int)
    ensures
        nul_free(decimal(i)),
{
    if i < 0 {
        lemma_digits_are_nul_free((-i) as nat);
    } else {
        lemma_digits_are_nul_free(i as nat);
    }
}

/// The text of a coordinate pair can always be handed to the toolkit.
pub proof fn lemma_pair_text_is_nul_free(x: int, y: int)
    ensures
        nul_free(pair_text(x, y)),
{
    lemma_decimal_is_nul_free(x);
    lemma_decimal_is_nul_free(y);
}

fn digit_str(d: u64) -> (text: &'static str)
    requires
        d < 10,
    ensures
        text@ == seq![digit_char(d as nat)],
{
    proof {
        reveal_strlit("0");
        reveal_strlit("1");
        reveal_strlit("2");
        reveal_strlit("3");
        reveal_strlit("4");
        reveal_strlit("5");
        reveal_strlit("6");
        reveal_strlit("7");
        reveal_strlit("8");
        reveal_strlit("9");
    }
    let text = if d == 0 {
        "0"
    } else if d == 1 {
        "1"
    } else if d == 2 {
        "2"
    } else if d == 3 {
        "3"
    } else if d == 4 {
        "4"
    } else if d == 5 {
        "5"
    } else if d == 6 {
        "6"
    } else if d == 7 {
        "7"
    } else if d == 8 {
        "8"
    } else {
        "9"
    };
    assert(text@ =~= seq![digit_char(d as nat)]);
    text
}

fn append_digits(out: &mut String, n: u64)
    ensures
        final(out)@ == old(out)@ + decimal_digits(n as nat),
    decreases n,
{
    if n >= 10 {
        append_digits(out, n / 10);
    }
    out.append(digit_str(n % 10));
    assert(final(out)@ =~= old(out)@ + decimal_digits(n as nat));
}

/// Appends the decimal text of `value` to `out`.
pub fn append_decimal(out: &mut String, value: i32)
    ensures
        final(out)@ == old(out)@ + decimal(value as int),
{
    if value < 0 {
        proof {
            reveal_strlit("-");
        }
        out.append("-");
        let wide: i64 = value as i64;
        let magnitude: i64 = -wide;
        append_digits(out, magnitude as u64);
        assert(final(out)@ =~= old(out)@ + decimal(value as int));
    } else {
        append_digits(out, value as u64);
    }
}

/// The decimal text of `value`. It holds no NUL.
pub fn decimal_text(value: i32) -> (text: String)
    ensures
        text@ == decimal(value as int),
        nul_free(text@),
{
    proof {
        lemma_decimal_is_nul_free(value as int);
    }
    let mut text = String::new();
    append_decimal(&mut text, value);
    assert(text@ =~= decimal(value as int));
    text
}

/// The text the toolkit reads a position from: `x`, a comma, `y`. It holds
/// no NUL, so it can always be handed over.
pub fn position_text(x: i32, y: i32) -> (text: String)
    ensures
        text@ == pair_text(x as int, y as int),
        nul_free(text@),
{
    proof {
        lemma_pair_text_is_nul_free(x as int, y as int);
    }
    let mut text = String::new();
    append_decimal(&mut text, x);
    proof {
        reveal_strlit(",");
    }
    text.append(",");
    append_decimal(&mut text, y);
    assert(text@ =~= pair_text(x as int, y as int));
    text
}

/// Whether `value` can be handed to the toolkit as text.
pub fn is_nul_free(value: &str) -> (ok: bool)
    ensures
        ok == nul_free(value@),
{
    let mut rest = value.chars();
    let ghost mut seen: int = 0;
    loop
        invariant
            0 <= seen <= value@.len(),
            rest.remaining() == value@.subrange(seen, value@.len() as int),
            rest.obeys_prophetic_iter_laws(),
            forall|i: int| 0 <= i < seen ==> value@[i] != '\0',
        decreases value@.len() - seen,
    {
        match rest.next() {
            None => {
                return true;
            },
            Some(c) => {
                if c == '\0' {
                    assert(value@[seen] == '\0');
                    return false;
                }
                proof {
                    seen = seen + 1;
                }
            },
        }
    }
}

} // verus!
