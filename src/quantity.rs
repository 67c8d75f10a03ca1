//! Fixed-point quantities and their decimal text.
//!
//! Every quantity read from the inventory backend (a stock level, a line's
//! quantity, a material's quantity per unit) is held in thousandths of a unit.
//! The product of two such quantities is held in millionths, which keeps the
//! scaling of a bill of materials exact.

use vstd::prelude::*;

verus! {

/// Thousandths in one unit.
pub const UNIT: i64 = 1000;

/// Decimal places of a quantity held in thousandths.
pub const MILLI_PLACES: u32 = 3;

/// Decimal places of a quantity held in millionths.
pub const MICRO_PLACES: u32 = 6;

pub open spec fn pow10(p: nat) -> nat
    decreases p,
{
    if p == 0 {
        1
    } else {
        10 * pow10((p - 1) as nat)
    }
}

pub open spec fn digit_char(d: nat) -> char {
    seq!['0', '1', '2', '3', '4', '5', '6', '7', '8', '9'][d as int]
}

/// The decimal digits of `n`, without leading zeros.
pub open spec fn digits(n: nat) -> Seq<char>
    decreases n,
{
    if n < 10 {
        seq![digit_char(n)]
    } else {
        digits(n / 10).push(digit_char(n % 10))
    }
}

/// The lowest `places` decimal digits of `n`, padded with leading zeros.
pub open spec fn padded(n: nat, places: nat) -> Seq<char>
    decreases places,
{
    if places == 0 {
        seq![]
    } else {
        padded(n / 10, (places - 1) as nat).push(digit_char(n % 10))
    }
}

/// The fractional digits of a fraction `f` of `places` digits, without the
/// trailing zeros.
pub open spec fn fraction_digits(f: nat, places: nat) -> Seq<char>
    decreases places,
{
    if places == 0 {
        seq![]
    } else if f % 10 == 0 {
        fraction_digits(f / 10, (places - 1) as nat)
    } else {
        padded(f, places)
    }
}

/// The text of the non-negative fixed-point value `n` with `places` decimal
/// places: the integer part, then a point and the fraction when it is not zero.
pub open spec fn unsigned_text(n: nat, places: nat) -> Seq<char> {
    let frac = fraction_digits(n % pow10(places), places);
    if frac.len() == 0 {
        digits(n / pow10(places))
    } else {
        digits(n / pow10(places)) + seq!['.'] + frac
    }
}

/// The text of the fixed-point value `v` with `places` decimal places
/// (`5000` with three places is `5`, `-1250` is `-1.25`).
pub open spec fn decimal_text(v: int, places: nat) -> Seq<char> {
    if v < 0 {
        seq!['-'] + unsigned_text((-v) as nat, places)
    } else {
        unsigned_text(v as nat, places)
    }
}

/// The text of a quantity held in thousandths.
pub open spec fn quantity_text(v: int) -> Seq<char> {
    decimal_text(v, 3)
}

/// Material needed for `target` units when one unit takes `per_unit`, in
/// millionths (both arguments in thousandths).
pub open spec fn required_amount(per_unit: int, target: int) -> int {
    per_unit * target
}

fn digit_str(d: u128) -> (r: &'static str)
    requires
        d < 10,
    ensures
        r@ == seq![digit_char(d as nat)],
{
    proof {
        reveal_strlit("0");
        reveal_strlit("1");
        reveal_strlit("2");
        reveal_strlit("3");
        reveal_strlit("4");
        reveal_strlit("5");
        reveal_strlit("6");
        reveal_strlit("7");
        reveal_strlit("8");
        reveal_strlit("9");
    }
    let r = if d == 0 {
        "0"
    } else if d == 1 {
        "1"
    } else if d == 2 {
        "2"
    } else if d == 3 {
        "3"
    } else if d == 4 {
        "4"
    } else if d == 5 {
        "5"
    } else if d == 6 {
        "6"
    } else if d == 7 {
        "7"
    } else if d == 8 {
        "8"
    } else {
        "9"
    };
    assert(r@ =~= seq![digit_char(d as nat)]);
    r
}

fn push_digits(n: u128, out: &mut String)
    ensures
        final(out)@ == old(out)@ + digits(n as nat),
    decreases n,
{
    if n >= 10 {
        push_digits(n / 10, out);
    }
    out.append(digit_str(n % 10));
    assert(final(out)@ =~= old(out)@ + digits(n as nat));
}

fn push_padded(n: u128, places: u32, out: &mut String)
    ensures
        final(out)@ == old(out)@ + padded(n as nat, places as nat),
    decreases places,
{
    if places > 0 {
        push_padded(n / 10, places - 1, out);
        out.append(digit_str(n % 10));
    }
    assert(final(out)@ =~= old(out)@ + padded(n as nat, places as nat));
}

fn push_fraction(f: u128, places: u32, out: &mut String)
    ensures
        final(out)@ == old(out)@ + fraction_digits(f as nat, places as nat),
    decreases places,
{
    if places == 0 {
        assert(final(out)@ =~= old(out)@ + fraction_digits(f as nat, places as nat));
    } else if f % 10 == 0 {
        push_fraction(f / 10, places - 1, out);
    } else {
        push_padded(f, places, out);
    }
}

proof fn lemma_fraction_len(f: nat, places: nat)
    ensures
        fraction_digits(f, places).len() == 0 <==> f % pow10(places) == 0,
    decreases places,
{
    if places > 0 {
        lemma_fraction_len(f / 10, (places - 1) as nat);
        let p = pow10((places - 1) as nat);
        assert(p > 0) by {
            lemma_pow10_positive((places - 1) as nat);
        }
        assert(padded(f, places).len() == places) by {
            lemma_padded_len(f, places);
        }
        // f % (10 p) == 0  <==>  f % 10 == 0 && (f / 10) % p == 0
        assert(f % (10 * p) == 0 <==> (f % 10 == 0 && (f / 10) % p == 0)) by (nonlinear_arith)
            requires
                p > 0,
        {
            if f % (10 * p) == 0 {
                let k = f / (10 * p);
                assert(f == 10 * p * k);
                assert(f == 10 * (p * k));
                assert(f % 10 == 0);
                assert(f / 10 == p * k);
            }
            if f % 10 == 0 && (f / 10) % p == 0 {
                let k = (f / 10) / p;
                assert(f / 10 == p * k);
                assert(f == 10 * (f / 10));
                assert(f == (10 * p) * k);
            }
        }
    }
}

proof fn lemma_pow10_positive(p: nat)
    ensures
        pow10(p) > 0,
    decreases p,
{
    if p > 0 {
        lemma_pow10_positive((p - 1) as nat);
    }
}

proof fn lemma_padded_len(n: nat, places: nat)
    ensures
        padded(n, places).len() == places,
    decreases places,
{
    if places > 0 {
        lemma_padded_len(n / 10, (places - 1) as nat);
    }
}

fn pow10_exec(p: u32) -> (r: u128)
    requires
        p <= 30,
    ensures
        r == pow10(p as nat),
    decreases p,
{
    if p == 0 {
        1
    } else {
        let q = pow10_exec(p - 1);
        assert(q <= pow10(29)) by {
            lemma_pow10_monotone((p - 1) as nat, 29);
        }
        assert(pow10(29) == 100000000000000000000000000000) by {
            reveal_with_fuel(pow10, 30);
        }
        10 * q
    }
}

proof fn lemma_pow10_monotone(a: nat, b: nat)
    requires
        a <= b,
    ensures
        pow10(a) <= pow10(b),
    decreases b,
{
    if a < b {
        lemma_pow10_monotone(a, (b - 1) as nat);
        lemma_pow10_positive((b - 1) as nat);
    }
}

/// The text of the non-negative fixed-point value `n` with `places` decimal
/// places.
fn unsigned_string(n: u128, places: u32, out: &mut String)
    requires
        places <= 30,
    ensures
        final(out)@ == old(out)@ + unsigned_text(n as nat, places as nat),
{
    let scale = pow10_exec(places);
    proof {
        lemma_pow10_positive(places as nat);
        lemma_fraction_len((n % scale) as nat, places as nat);
        assert(((n % scale) as nat) % pow10(places as nat) == (n % scale) as nat) by (nonlinear_arith)
            requires
                scale == pow10(places as nat),
                scale > 0,
        ;
    }
    push_digits(n / scale, out);
    let ghost mid = out@;
    let frac = n % scale;
    if frac != 0 {
        out.append(".");
        proof {
            reveal_strlit(".");
        }
        push_fraction(frac, places, out);
        assert(out@ =~= old(out)@ + unsigned_text(n as nat, places as nat));
    }
}

/// The decimal text of the fixed-point value `v` with `places` decimal places,
/// as the inventory backend writes numbers: no trailing zeros, no point for a
/// whole number.
pub fn decimal_string(v: i128, places: u32) -> (r: String)
    requires
        places <= 30,
    ensures
        r@ == decimal_text(v as int, places as nat),
{
    let mut out = String::new();
    if v < 0 {
        out.append("-");
        proof {
            reveal_strlit("-");
        }
        let mag: u128 = ((-(v + 1)) as u128) + 1;
        unsigned_string(mag, places, &mut out);
        assert(out@ =~= decimal_text(v as int, places as nat));
    } else {
        unsigned_string(v as u128, places, &mut out);
        assert(out@ =~= decimal_text(v as int, places as nat));
    }
    out
}

/// The decimal text of a quantity held in thousandths.
pub fn quantity_string(v: i128) -> (r: String)
    ensures
        r@ == quantity_text(v as int),
{
    decimal_string(v, MILLI_PLACES)
}

proof fn lemma_product_bound(a: int, b: int)
    requires
        -0x8000_0000_0000_0000 <= a <= 0x8000_0000_0000_0000,
        -0x8000_0000_0000_0000 <= b <= 0x8000_0000_0000_0000,
    ensures
        -0x4000_0000_0000_0000_0000_0000_0000_0000 <= a * b <= 0x4000_0000_0000_0000_0000_0000_0000_0000,
{
    let m: int = 0x8000_0000_0000_0000;
    let x = if a < 0 { -a } else { a };
    let y = if b < 0 { -b } else { b };
    assert(x * y <= m * m) by (nonlinear_arith)
        requires
            0 <= x <= m,
            0 <= y <= m,
    ;
    assert(a * b == x * y || a * b == -(x * y)) by (nonlinear_arith)
        requires
            x == a || x == -a,
            y == b || y == -b,
    ;
    assert(m * m == 0x4000_0000_0000_0000_0000_0000_0000_0000);
}

/// Material needed to produce `target` units when one unit takes `per_unit`;
/// both are in thousandths and the result is in millionths, exactly.
pub fn required_quantity(per_unit: i64, target: i64) -> (r: i128)
    ensures
        r == required_amount(per_unit as int, target as int),
        -0x4000_0000_0000_0000_0000_0000_0000_0000 <= r <= 0x4000_0000_0000_0000_0000_0000_0000_0000,
{
    let a = per_unit as i128;
    let b = target as i128;
    proof {
        lemma_product_bound(a as int, b as int);
    }
    a * b
}

} // verus!
