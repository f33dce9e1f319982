//! Decimal notation for the integers that a halt message reports.

use vstd::prelude::*;

verus! {

/// The character that stands for the digit `d`.
pub open spec fn digit(d: nat) -> char
    recommends
        d < 10,
{
    ('0' as nat + d) as char
}

/// `n` in decimal notation: most significant digit first, no leading zero,
/// and `"0"` for zero.
pub open spec fn decimal(n: nat) -> Seq<char>
    decreases n,
{
    if n < 10 {
        seq![digit(n)]
    } else {
        decimal(n / 10).push(digit(n % 10))
    }
}

/// `i` in decimal notation, with a minus sign in front of a negative number.
pub open spec fn signed_decimal(i: int) -> Seq<char> {
    if i < 0 {
        seq!['-'] + decimal((-i) as nat)
    } else {
        decimal(i as nat)
    }
}

/// The number that a run of digits denotes, read from the left.
pub open spec fn denoted(digits: Seq<char>) -> nat
    decreases digits.len(),
{
    if digits.len() == 0 {
        0
    } else {
        denoted(digits.drop_last()) * 10 + (digits.last() as nat - '0' as nat) as nat
    }
}

/// Decimal notation is faithful: it holds digits only, at least one, no
/// leading zero but for zero itself, and it denotes the number written.
pub proof fn lemma_decimal_is_faithful(n: nat)
    ensures
        decimal(n).len() >= 1,
        forall|i: int| 0 <= i < decimal(n).len() ==> '0' <= #[trigger] decimal(n)[i] <= '9',
        decimal(n)[0] == '0' <==> n == 0,
        denoted(decimal(n)) == n,
    decreases n,
{
    if n < 10 {
        assert(decimal(n).drop_last() =~= Seq::<char>::empty());
        assert(denoted(decimal(n).drop_last()) == 0);
    } else {
        lemma_decimal_is_faithful(n / 10);
        assert(decimal(n).drop_last() =~= decimal(n / 10));
    }
}

/// The one-character text of a single digit.
fn digit_text(d: u64) -> (text: &'static str)
    requires
        d < 10,
    ensures
        text@ == seq![digit(d as nat)],
{
    proof {
        reveal_strlit("0");
        reveal_strlit("1");
        reveal_strlit("2");
        reveal_strlit("3");
        reveal_strlit("4");
        reveal_strlit("5");
        reveal_strlit("6");
        reveal_strlit("7");
        reveal_strlit("8");
        reveal_strlit("9");
    }
    let text = match d {
        0 => "0",
        1 => "1",
        2 => "2",
        3 => "3",
        4 => "4",
        5 => "5",
        6 => "6",
        7 => "7",
        8 => "8",
        _ => "9",
    };
    assert(text@ =~= seq![digit(d as nat)]);
    text
}

/// Appends `n` in decimal notation to `out`.
pub fn push_decimal(out: &mut String, n: u64)
    ensures
        final(out)@ == old(out)@ + decimal(n as nat),
    decreases n,
{
    if n >= 10 {
        push_decimal(out, n / 10);
    }
    out.append(digit_text(n % 10));
    assert(out@ =~= old(out)@ + decimal(n as nat));
}

/// Appends `i` in decimal notation to `out`, with its sign if it is negative.
pub fn push_signed_decimal(out: &mut String, i: i64)
    ensures
        final(out)@ == old(out)@ + signed_decimal(i as int),
{
    if i < 0 {
        proof {
            reveal_strlit("-");
        }
        out.append("-");
        let magnitude: u64 = (-(i as i128)) as u64;
        push_decimal(out, magnitude);
        assert(out@ =~= old(out)@ + signed_decimal(i as int));
    } else {
        push_decimal(out, i as u64);
    }
}

} // verus!
