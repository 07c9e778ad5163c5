use vstd::prelude::*;

verus! {

/// The character of a decimal digit `n` (`0 <= n < 10`).
pub open spec fn digit_char(n: int) -> char {
    seq!['0', '1', '2', '3', '4', '5', '6', '7', '8', '9'][n]
}

/// `10` raised to `d`.
pub open spec fn pow10(d: nat) -> nat
    decreases d,
{
    if d == 0 {
        1
    } else {
        10 * pow10((d - 1) as nat)
    }
}

/// Decimal digits of `n`, most significant first, without leading zeros
/// (zero is written as a single `0`).
pub open spec fn digits(n: nat) -> Seq<char>
    decreases n,
{
    if n < 10 {
        seq![digit_char(n as int)]
    } else {
        digits(n / 10) + seq![digit_char((n % 10) as int)]
    }
}

/// The last `d` decimal digits of `n`, padded on the left with zeros.
pub open spec fn padded(n: nat, d: nat) -> Seq<char>
    decreases d,
{
    if d == 0 {
        Seq::empty()
    } else {
        padded(n / 10, (d - 1) as nat) + seq![digit_char((n % 10) as int)]
    }
}

/// Magnitude of an integer.
pub open spec fn magnitude(v: int) -> nat {
    if v < 0 {
        (-v) as nat
    } else {
        v as nat
    }
}

/// Text of the fixed-point amount `v / 10^d` with exactly `d` digits after
/// the point: a minus sign for a negative amount, the whole part, a point and
/// the fraction.
pub open spec fn fixed_text(v: int, d: nat) -> Seq<char> {
    let sign = if v < 0 {
        seq!['-']
    } else {
        Seq::empty()
    };
    sign + digits(magnitude(v) / pow10(d)) + seq!['.'] + padded(magnitude(v) % pow10(d), d)
}

fn digit_text(n: u64) -> (r: &'static str)
    requires
        n < 10,
    ensures
        r@ == seq![digit_char(n as int)],
{
    if n == 0 {
        proof { reveal_strlit("0"); }
        "0"
    } else if n == 1 {
        proof { reveal_strlit("1"); }
        "1"
    } else if n == 2 {
        proof { reveal_strlit("2"); }
        "2"
    } else if n == 3 {
        proof { reveal_strlit("3"); }
        "3"
    } else if n == 4 {
        proof { reveal_strlit("4"); }
        "4"
    } else if n == 5 {
        proof { reveal_strlit("5"); }
        "5"
    } else if n == 6 {
        proof { reveal_strlit("6"); }
        "6"
    } else if n == 7 {
        proof { reveal_strlit("7"); }
        "7"
    } else if n == 8 {
        proof { reveal_strlit("8"); }
        "8"
    } else {
        proof { reveal_strlit("9"); }
        "9"
    }
}

fn push_digits(out: &mut String, n: u64)
    ensures
        final(out)@ == old(out)@ + digits(n as nat),
    decreases n,
{
    if n >= 10 {
        push_digits(out, n / 10);
    }
    out.append(digit_text(n % 10));
    assert(final(out)@ =~= old(out)@ + digits(n as nat));
}

fn push_padded(out: &mut String, n: u64, d: usize)
    ensures
        final(out)@ == old(out)@ + padded(n as nat, d as nat),
    decreases d,
{
    if d > 0 {
        push_padded(out, n / 10, d - 1);
        out.append(digit_text(n % 10));
    }
    assert(final(out)@ =~= old(out)@ + padded(n as nat, d as nat));
}

proof fn lemma_pow10_monotone(i: nat, j: nat)
    requires
        i <= j,
    ensures
        pow10(i) <= pow10(j),
    decreases j,
{
    if i < j {
        lemma_pow10_monotone(i, (j - 1) as nat);
    }
}

/// `10^d` for a number of fraction digits that fits an unsigned 64-bit value.
fn scale(d: usize) -> (r: u64)
    requires
        d <= 18,
    ensures
        r as nat == pow10(d as nat),
{
    proof {
        lemma_pow10_monotone(d as nat, 18);
        reveal_with_fuel(pow10, 19);
        assert(pow10(18) == 1_000_000_000_000_000_000nat);
    }
    let mut r: u64 = 1;
    let mut i: usize = 0;
    while i < d
        invariant
            i <= d <= 18,
            r as nat == pow10(i as nat),
            pow10(d as nat) <= 1_000_000_000_000_000_000,
        decreases d - i,
    {
        proof {
            lemma_pow10_monotone((i + 1) as nat, d as nat);
        }
        r = r * 10;
        i = i + 1;
    }
    r
}

/// Appends the fixed-point amount `v / 10^d` to `out`, with `d` (at least one) digits after the point.
pub fn push_fixed(out: &mut String, v: i64, d: usize)
    requires
        1 <= d <= 18,
    ensures
        final(out)@ == old(out)@ + fixed_text(v as int, d as nat),
{
    let s = scale(d);
    proof {
        lemma_pow10_monotone(0, d as nat);
    }
    let m: u64 = if v < 0 {
        out.append("-");
        (-(v as i128)) as u64
    } else {
        v as u64
    };
    assert(m as nat == magnitude(v as int));
    push_digits(out, m / s);
    out.append(".");
    push_padded(out, m % s, d);
    proof {
        reveal_strlit("-");
        reveal_strlit(".");
    }
    assert(final(out)@ =~= old(out)@ + fixed_text(v as int, d as nat));
}

/// The fixed-point amount `v / 10^d` as text, with `d` digits after the point.
pub fn fixed(v: i64, d: usize) -> (r: String)
    requires
        1 <= d <= 18,
    ensures
        r@ == fixed_text(v as int, d as nat),
{
    let mut r = String::new();
    push_fixed(&mut r, v, d);
    assert(r@ =~= fixed_text(v as int, d as nat));
    r
}

} // verus!
