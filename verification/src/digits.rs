//! Decimal text of integers, zero-padded to a minimum width.

use vstd::prelude::*;

verus! {

/// The character of a single decimal digit.
pub open spec fn digit_char(d: nat) -> char
    recommends
        d < 10,
{
    if d == 0 {
        '0'
    } else if d == 1 {
        '1'
    } else if d == 2 {
        '2'
    } else if d == 3 {
        '3'
    } else if d == 4 {
        '4'
    } else if d == 5 {
        '5'
    } else if d == 6 {
        '6'
    } else if d == 7 {
        '7'
    } else if d == 8 {
        '8'
    } else {
        '9'
    }
}

/// The shortest decimal text of `n`, most significant digit first.
pub open spec fn decimal(n: nat) -> Seq<char>
    decreases n,
{
    if n < 10 {
        seq![digit_char(n)]
    } else {
        decimal(n / 10).push(digit_char(n % 10))
    }
}

/// `n` characters `'0'`.
pub open spec fn zeros(n: nat) -> Seq<char> {
    Seq::new(n, |i: int| '0')
}

/// The decimal text of `n`, with zeros in front until it is at least `width`
/// characters long. A number with more digits than `width` is not cut.
pub open spec fn padded(n: nat, width: nat) -> Seq<char> {
    if decimal(n).len() >= width {
        decimal(n)
    } else {
        zeros((width - decimal(n).len()) as nat) + decimal(n)
    }
}

/// The text of a signed number in at least `width` characters: a minus sign,
/// where there is one, counts towards the width and stands before the zeros.
pub open spec fn signed_padded(n: int, width: nat) -> Seq<char> {
    if n >= 0 {
        padded(n as nat, width)
    } else if width >= 1 {
        seq!['-'] + padded((-n) as nat, (width - 1) as nat)
    } else {
        seq!['-'] + decimal((-n) as nat)
    }
}

/// Numbers below ten thousand have as many digits as their size class says.
pub proof fn lemma_decimal_len_small(n: nat)
    requires
        n < 10000,
    ensures
        n < 10 ==> decimal(n).len() == 1,
        10 <= n < 100 ==> decimal(n).len() == 2,
        100 <= n < 1000 ==> decimal(n).len() == 3,
        1000 <= n ==> decimal(n).len() == 4,
    decreases n,
{
    if n >= 10 {
        lemma_decimal_len_small(n / 10);
    }
}

/// A string of one digit.
fn digit_str(d: u32) -> (s: &'static str)
    requires
        d < 10,
    ensures
        s@ == seq![digit_char(d as nat)],
{
    proof {
        reveal_strlit("0");
        reveal_strlit("1");
        reveal_strlit("2");
        reveal_strlit("3");
        reveal_strlit("4");
        reveal_strlit("5");
        reveal_strlit("6");
        reveal_strlit("7");
        reveal_strlit("8");
        reveal_strlit("9");
    }
    let s: &'static str = if d == 0 {
        "0"
    } else if d == 1 {
        "1"
    } else if d == 2 {
        "2"
    } else if d == 3 {
        "3"
    } else if d == 4 {
        "4"
    } else if d == 5 {
        "5"
    } else if d == 6 {
        "6"
    } else if d == 7 {
        "7"
    } else if d == 8 {
        "8"
    } else {
        "9"
    };
    assert(s@ =~= seq![digit_char(d as nat)]);
    s
}

/// Appends the shortest decimal text of `value`.
pub fn append_decimal(out: &mut String, value: u32)
    ensures
        final(out)@ == old(out)@ + decimal(value as nat),
    decreases value,
{
    if value >= 10 {
        append_decimal(out, value / 10);
    }
    out.append(digit_str(value % 10));
    assert(out@ =~= old(out)@ + decimal(value as nat));
}

/// The number of digits in the shortest decimal text of `value`.
pub fn decimal_width(value: u32) -> (width: u32)
    ensures
        width == decimal(value as nat).len(),
        1 <= width <= 10,
    decreases value,
{
    if value < 10 {
        1
    } else {
        let rest: u32 = decimal_width(value / 10);
        proof {
            lemma_decimal_digits_bound(value as nat);
        }
        rest + 1
    }
}

/// A number below 2^32 has at most ten digits.
proof fn lemma_decimal_digits_bound(n: nat)
    requires
        n <= u32::MAX,
    ensures
        decimal(n).len() <= 10,
{
    reveal_with_fuel(decimal, 11);
}

/// Appends `count` zeros.
fn append_zeros(out: &mut String, count: u32)
    ensures
        final(out)@ == old(out)@ + zeros(count as nat),
{
    let mut done: u32 = 0;
    proof {
        reveal_strlit("0");
    }
    assert(out@ =~= old(out)@ + zeros(0));
    while done < count
        invariant
            done <= count,
            out@ == old(out)@ + zeros(done as nat),
            "0"@ == seq!['0'],
        decreases count - done,
    {
        out.append("0");
        done = done + 1;
        assert(out@ =~= old(out)@ + zeros(done as nat));
    }
}

/// Appends `value` in decimal, zero-padded to at least `width` characters.
pub fn append_padded(out: &mut String, value: u32, width: u32)
    ensures
        final(out)@ == old(out)@ + padded(value as nat, width as nat),
{
    let digits: u32 = decimal_width(value);
    if digits < width {
        append_zeros(out, width - digits);
    }
    append_decimal(out, value);
    assert(out@ =~= old(out)@ + padded(value as nat, width as nat));
}

/// Appends a signed `value` in decimal, zero-padded to at least `width`
/// characters, the sign included.
pub fn append_signed_padded(out: &mut String, value: i32, width: u32)
    ensures
        final(out)@ == old(out)@ + signed_padded(value as int, width as nat),
{
    if value >= 0 {
        append_padded(out, value as u32, width);
    } else {
        let magnitude: u32 = (-(value as i64)) as u32;
        proof {
            reveal_strlit("-");
        }
        assert("-"@ =~= seq!['-']);
        out.append("-");
        if width >= 1 {
            append_padded(out, magnitude, width - 1);
        } else {
            append_decimal(out, magnitude);
        }
        assert(out@ =~= old(out)@ + signed_padded(value as int, width as nat));
    }
}

} // verus!
