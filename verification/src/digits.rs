//! Decimal rendering of unsigned integers, used to build request URLs.
use vstd::prelude::*;

verus! {

/// The character for one decimal digit.
pub open spec fn digit_char(d: int) -> char {
    if d == 0 {
        '0'
    } else if d == 1 {
        '1'
    } else if d == 2 {
        '2'
    } else if d == 3 {
        '3'
    } else if d == 4 {
        '4'
    } else if d == 5 {
        '5'
    } else if d == 6 {
        '6'
    } else if d == 7 {
        '7'
    } else if d == 8 {
        '8'
    } else {
        '9'
    }
}

/// The decimal digit string of `n`, most significant digit first, with no
/// leading zeros (and the single digit `0` for zero).
pub open spec fn decimal_of(n: nat) -> Seq<char>
    decreases n,
{
    if n < 10 {
        seq![digit_char(n as int)]
    } else {
        decimal_of(n / 10).push(digit_char((n % 10) as int))
    }
}

/// The one-character string for a single decimal digit.
fn digit_str(d: u32) -> (r: &'static str)
    requires
        d < 10,
    ensures
        r@ =~= seq![digit_char(d as int)],
{
    proof {
        reveal_strlit("0");
        reveal_strlit("1");
        reveal_strlit("2");
        reveal_strlit("3");
        reveal_strlit("4");
        reveal_strlit("5");
        reveal_strlit("6");
        reveal_strlit("7");
        reveal_strlit("8");
        reveal_strlit("9");
    }
    match d {
        0 => "0",
        1 => "1",
        2 => "2",
        3 => "3",
        4 => "4",
        5 => "5",
        6 => "6",
        7 => "7",
        8 => "8",
        _ => "9",
    }
}

/// Renders `n` in decimal.
pub fn u32_to_decimal(n: u32) -> (r: String)
    ensures
        r@ == decimal_of(n as nat),
{
    let mut low: Vec<u32> = Vec::new();
    let mut m: u32 = n;
    let ghost mut suffix: Seq<char> = Seq::empty();
    while m >= 10
        invariant
            decimal_of(n as nat) =~= decimal_of(m as nat) + suffix,
            suffix.len() == low@.len(),
            forall|i: int|
                0 <= i < suffix.len() ==> suffix[i] == digit_char(
                    low@[suffix.len() - 1 - i] as int,
                ),
            forall|i: int| 0 <= i < low@.len() ==> low@[i] < 10,
        decreases m,
    {
        let d: u32 = m % 10;
        low.push(d);
        m = m / 10;
        proof {
            suffix = seq![digit_char(d as int)] + suffix;
        }
    }
    let mut s = String::from_str(digit_str(m));
    let mut i: usize = low.len();
    while i > 0
        invariant
            i <= low@.len(),
            suffix.len() == low@.len(),
            forall|j: int|
                0 <= j < suffix.len() ==> suffix[j] == digit_char(
                    low@[suffix.len() - 1 - j] as int,
                ),
            forall|j: int| 0 <= j < low@.len() ==> low@[j] < 10,
            m < 10,
            s@ =~= seq![digit_char(m as int)] + suffix.subrange(
                0,
                low@.len() - i,
            ),
        decreases i,
    {
        i = i - 1;
        s.append(digit_str(low[i]));
    }
    proof {
        assert(s@ =~= decimal_of(n as nat));
    }
    s
}

} // verus!
