//! Numbers in messages.

use vstd::prelude::*;
use vstd::string::StringExecFns;

verus! {

/// The digit for a number below 10.
pub open spec fn digit(n: int) -> char {
    (n + '0' as int) as char
}

/// A number in decimal notation.
pub open spec fn decimal(n: nat) -> Seq<char>
    decreases n,
{
    if n < 10 {
        seq![digit(n as int)]
    } else {
        decimal(n / 10).push(digit((n % 10) as int))
    }
}

/// A number in decimal notation, with a sign if it is below 0.
pub open spec fn signed_decimal(n: int) -> Seq<char> {
    if n < 0 {
        seq!['-'] + decimal((-n) as nat)
    } else {
        decimal(n as nat)
    }
}

fn digit_str(n: u64) -> (s: &'static str)
    requires
        n < 10,
    ensures
        s@ == seq![digit(n as int)],
{
    proof {
        reveal_strlit("0");
        reveal_strlit("1");
        reveal_strlit("2");
        reveal_strlit("3");
        reveal_strlit("4");
        reveal_strlit("5");
        reveal_strlit("6");
        reveal_strlit("7");
        reveal_strlit("8");
        reveal_strlit("9");
    }
    let s = match n {
        0 => "0",
        1 => "1",
        2 => "2",
        3 => "3",
        4 => "4",
        5 => "5",
        6 => "6",
        7 => "7",
        8 => "8",
        _ => "9",
    };
    assert(s@ =~= seq![digit(n as int)]);
    s
}

/// Appends a number in decimal notation.
pub fn push_decimal(out: &mut String, n: u64)
    ensures
        final(out)@ == old(out)@ + decimal(n as nat),
    decreases n,
{
    if n >= 10 {
        push_decimal(out, n / 10);
    }
    out.append(digit_str(n % 10));
    assert(out@ =~= old(out)@ + decimal(n as nat));
}

/// Appends a number in decimal notation, with a sign if it is below 0.
pub fn push_signed(out: &mut String, n: i32)
    ensures
        final(out)@ == old(out)@ + signed_decimal(n as int),
{
    if n < 0 {
        proof {
            reveal_strlit("-");
        }
        out.append("-");
        push_decimal(out, (-(n as i64)) as u64);
        assert(out@ =~= old(out)@ + signed_decimal(n as int));
    } else {
        push_decimal(out, n as u64);
    }
}

/// The number that decimal digits stand for.
pub open spec fn number(digits: Seq<char>) -> int
    decreases digits.len(),
{
    if digits.len() == 0 {
        0
    } else {
        10 * number(digits.drop_last()) + (digits.last() as int - '0' as int)
    }
}

/// Decimal notation can be read back: it consists of digits only, has no
/// leading zero unless it is a single one, and stands for the number.
pub proof fn law_decimal_reads_back(n: nat)
    ensures
        number(decimal(n)) == n,
        decimal(n).len() > 0,
        forall|i: int| 0 <= i < decimal(n).len() ==> '0' <= #[trigger] decimal(n)[i] <= '9',
        n > 0 ==> decimal(n)[0] != '0',
        n == 0 ==> decimal(n) == seq!['0'],
    decreases n,
{
    reveal_with_fuel(number, 2);
    if n >= 10 {
        law_decimal_reads_back(n / 10);
        assert(decimal(n).drop_last() =~= decimal(n / 10));
    } else {
        assert(decimal(n).drop_last() =~= Seq::<char>::empty());
        if n == 0 {
            assert(decimal(n) =~= seq!['0']);
        }
    }
}

/// A number below 0 is written as a minus and the number without its sign, any
/// other just as it is.
pub proof fn law_sign_is_written(n: int)
    ensures
        n < 0 ==> signed_decimal(n)[0] == '-' && number(signed_decimal(n).skip(1)) == -n,
        n >= 0 ==> signed_decimal(n)[0] != '-' && number(signed_decimal(n)) == n,
{
    if n < 0 {
        law_decimal_reads_back((-n) as nat);
        assert(signed_decimal(n).skip(1) =~= decimal((-n) as nat));
    } else {
        law_decimal_reads_back(n as nat);
    }
}

} // verus!
