//! Small verified text-building helpers that rendering rests on: decimal
//! notation for integers, and joining pieces with a separator.

use vstd::prelude::*;

verus! {

/// The character for one decimal digit.
pub open spec fn decimal_digit(d: nat) -> char {
    if d == 0 {
        '0'
    } else if d == 1 {
        '1'
    } else if d == 2 {
        '2'
    } else if d == 3 {
        '3'
    } else if d == 4 {
        '4'
    } else if d == 5 {
        '5'
    } else if d == 6 {
        '6'
    } else if d == 7 {
        '7'
    } else if d == 8 {
        '8'
    } else {
        '9'
    }
}

/// The usual decimal notation of a natural number, without sign and
/// without leading zeros (`0` itself is the single digit `0`).
pub open spec fn decimal_nat(n: nat) -> Seq<char>
    decreases n,
{
    if n < 10 {
        seq![decimal_digit(n)]
    } else {
        decimal_nat(n / 10).push(decimal_digit(n % 10))
    }
}

/// Decimal notation of an integer: a `-` sign ahead of the digits when the
/// value is negative.
pub open spec fn decimal_int(v: int) -> Seq<char> {
    if v < 0 {
        seq!['-'] + decimal_nat((-v) as nat)
    } else {
        decimal_nat(v as nat)
    }
}

/// Joins the pieces with `sep` between each two; no separator leads or
/// trails, and no pieces give the empty text.
pub open spec fn join_with(parts: Seq<Seq<char>>, sep: Seq<char>) -> Seq<char>
    decreases parts.len(),
{
    if parts.len() == 0 {
        Seq::empty()
    } else if parts.len() == 1 {
        parts[0]
    } else {
        join_with(parts.drop_last(), sep) + sep + parts.last()
    }
}

fn push_digit(out: &mut String, d: u64)
    requires
        d < 10,
    ensures
        final(out)@ == old(out)@ + seq![decimal_digit(d as nat)],
{
    let digit: &str = if d == 0 {
        "0"
    } else if d == 1 {
        "1"
    } else if d == 2 {
        "2"
    } else if d == 3 {
        "3"
    } else if d == 4 {
        "4"
    } else if d == 5 {
        "5"
    } else if d == 6 {
        "6"
    } else if d == 7 {
        "7"
    } else if d == 8 {
        "8"
    } else {
        "9"
    };
    proof {
        reveal_strlit("0");
        reveal_strlit("1");
        reveal_strlit("2");
        reveal_strlit("3");
        reveal_strlit("4");
        reveal_strlit("5");
        reveal_strlit("6");
        reveal_strlit("7");
        reveal_strlit("8");
        reveal_strlit("9");
        assert(digit@ =~= seq![decimal_digit(d as nat)]);
    }
    out.append(digit);
}

/// Appends the decimal notation of `n` to `out`.
pub fn append_decimal_u64(out: &mut String, n: u64)
    ensures
        final(out)@ == old(out)@ + decimal_nat(n as nat),
    decreases n,
{
    if n >= 10 {
        append_decimal_u64(out, n / 10);
    }
    push_digit(out, n % 10);
    proof {
        assert(out@ =~= old(out)@ + decimal_nat(n as nat));
    }
}

/// Appends the decimal notation of `v` to `out`, sign included.
pub fn append_decimal_i64(out: &mut String, v: i64)
    ensures
        final(out)@ == old(out)@ + decimal_int(v as int),
{
    if v < 0 {
        out.append("-");
        proof {
            reveal_strlit("-");
        }
        let m: u64 = (-(v as i128)) as u64;
        append_decimal_u64(out, m);
        proof {
            assert(out@ =~= old(out)@ + decimal_int(v as int));
        }
    } else {
        append_decimal_u64(out, v as u64);
    }
}

/// Appends the pieces to `out`, `sep` between each two.
pub fn append_joined(out: &mut String, parts: &Vec<String>, sep: &str)
    ensures
        final(out)@ == old(out)@ + join_with(parts@.map_values(|p: String| p@), sep@),
{
    let ghost all = parts@.map_values(|p: String| p@);
    let mut i: usize = 0;
    while i < parts.len()
        invariant
            i <= parts@.len(),
            all == parts@.map_values(|p: String| p@),
            out@ == old(out)@ + join_with(parts@.take(i as int).map_values(|p: String| p@), sep@),
        decreases parts@.len() - i,
    {
        if i > 0 {
            out.append(sep);
        }
        out.append(parts[i].as_str());
        proof {
            let done = parts@.take(i as int).map_values(|p: String| p@);
            let next = parts@.take(i + 1 as int).map_values(|p: String| p@);
            assert(next =~= done.push(parts@[i as int]@));
            if i > 0 {
                assert(next.drop_last() =~= done);
                assert(out@ =~= old(out)@ + join_with(next, sep@));
            } else {
                assert(out@ =~= old(out)@ + join_with(next, sep@));
            }
        }
        i += 1;
    }
    proof {
        assert(parts@.take(parts@.len() as int) =~= parts@);
    }
}

} // verus!
