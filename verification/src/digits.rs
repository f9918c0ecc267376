//! Decimal rendering of unsigned numbers.
use vstd::prelude::*;

verus! {

/// The character of the decimal digit `d` (for `0 <= d < 10`).
pub open spec fn digit_char(d: int) -> char {
    seq!['0', '1', '2', '3', '4', '5', '6', '7', '8', '9'][d]
}

/// Whether `c` is one of `0`..`9`.
pub open spec fn is_digit(c: char) -> bool {
    '0' <= c <= '9'
}

/// The last `width` decimal digits of `v`, zero-padded on the left.
pub open spec fn fixed_digits(v: nat, width: nat) -> Seq<char>
    decreases width,
{
    if width == 0 {
        seq![]
    } else {
        fixed_digits(v / 10, (width - 1) as nat).push(digit_char((v % 10) as int))
    }
}

/// The decimal text of `v`, without leading zeros (`"0"` for zero).
pub open spec fn decimal(v: nat) -> Seq<char>
    decreases v,
{
    if v < 10 {
        seq![digit_char(v as int)]
    } else {
        decimal(v / 10).push(digit_char((v % 10) as int))
    }
}

/// The number that a text of decimal digits spells, most significant digit
/// first (0 for the empty text).
pub open spec fn digits_value(s: Seq<char>) -> int
    decreases s.len(),
{
    if s.len() == 0 {
        0
    } else {
        10 * digits_value(s.drop_last()) + (s.last() as int - '0' as int)
    }
}

/// The digit character of `d` stands for `d`.
pub proof fn lemma_digit_char_value(d: int)
    requires
        0 <= d < 10,
    ensures
        digit_char(d) as int - '0' as int == d,
{
    let t = seq!['0', '1', '2', '3', '4', '5', '6', '7', '8', '9'];
    assert(t[0] == '0' && t[1] == '1' && t[2] == '2' && t[3] == '3' && t[4] == '4');
    assert(t[5] == '5' && t[6] == '6' && t[7] == '7' && t[8] == '8' && t[9] == '9');
}

/// `fixed_digits` has exactly the requested width, and only digits.
pub proof fn lemma_fixed_digits_shape(v: nat, width: nat)
    ensures
        fixed_digits(v, width).len() == width,
        forall|i: int| 0 <= i < width ==> is_digit(#[trigger] fixed_digits(v, width)[i]),
    decreases width,
{
    if width > 0 {
        lemma_fixed_digits_shape(v / 10, (width - 1) as nat);
        let d = (v % 10) as int;
        assert(is_digit(digit_char(d)));
    }
}

/// The decimal text of `v` reads back as `v`, and starts with a zero only
/// when it is `0` itself.
pub proof fn lemma_decimal_value(v: nat)
    ensures
        digits_value(decimal(v)) == v,
        decimal(v).len() >= 1,
        forall|i: int| 0 <= i < decimal(v).len() ==> is_digit(#[trigger] decimal(v)[i]),
        v > 0 ==> decimal(v)[0] != '0',
    decreases v,
{
    lemma_digit_char_value((v % 10) as int);
    assert(is_digit(digit_char((v % 10) as int)));
    if v < 10 {
        assert(decimal(v) == seq![digit_char(v as int)]);
        assert(decimal(v).drop_last() =~= Seq::<char>::empty());
        assert(digits_value(Seq::<char>::empty()) == 0);
        assert(v % 10 == v);
    } else {
        lemma_decimal_value(v / 10);
        let d = decimal(v);
        assert(d.drop_last() =~= decimal(v / 10));
        assert(d[0] == decimal(v / 10)[0]);
    }
}

/// The text of one decimal digit.
pub fn digit_str(d: u64) -> (r: &'static str)
    requires
        d < 10,
    ensures
        r@ == seq![digit_char(d as int)],
{
    proof {
        reveal_strlit("0");
        reveal_strlit("1");
        reveal_strlit("2");
        reveal_strlit("3");
        reveal_strlit("4");
        reveal_strlit("5");
        reveal_strlit("6");
        reveal_strlit("7");
        reveal_strlit("8");
        reveal_strlit("9");
    }
    if d == 0 {
        "0"
    } else if d == 1 {
        "1"
    } else if d == 2 {
        "2"
    } else if d == 3 {
        "3"
    } else if d == 4 {
        "4"
    } else if d == 5 {
        "5"
    } else if d == 6 {
        "6"
    } else if d == 7 {
        "7"
    } else if d == 8 {
        "8"
    } else {
        "9"
    }
}

/// Appends the last `width` digits of `v`, zero-padded.
pub fn push_fixed_digits(out: &mut String, v: u64, width: u32)
    ensures
        final(out)@ == old(out)@ + fixed_digits(v as nat, width as nat),
    decreases width,
{
    if width > 0 {
        push_fixed_digits(out, v / 10, width - 1);
        let d = digit_str(v % 10);
        out.append(d);
        proof {
            assert(fixed_digits(v as nat, width as nat) == fixed_digits(
                (v / 10) as nat,
                (width - 1) as nat,
            ).push(digit_char((v % 10) as int)));
            assert(final(out)@ =~= old(out)@ + fixed_digits(v as nat, width as nat));
        }
    } else {
        proof {
            assert(old(out)@ + fixed_digits(v as nat, 0) =~= old(out)@);
        }
    }
}

/// Appends the decimal text of `v`.
pub fn push_decimal(out: &mut String, v: u64)
    ensures
        final(out)@ == old(out)@ + decimal(v as nat),
    decreases v,
{
    if v >= 10 {
        push_decimal(out, v / 10);
    }
    let d = digit_str(v % 10);
    out.append(d);
    proof {
        assert(final(out)@ =~= old(out)@ + decimal(v as nat));
    }
}

} // verus!
