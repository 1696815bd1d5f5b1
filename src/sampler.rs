//! Synthetic sensor readings in hundredths of a unit, and their decimal text.
//!
//! A reading `v` stands for `v / 100`: it has at most two decimal digits by
//! construction.
use vstd::prelude::*;

verus! {

/// Temperature readings lie in [-5.00, 30.00] degrees Celsius.
pub const TEMPERATURE_MIN_CENTI: i64 = -500;

pub const TEMPERATURE_MAX_CENTI: i64 = 3000;

/// Humidity readings lie in [0.00, 100.00] percent.
pub const HUMIDITY_MIN_CENTI: i64 = 0;

pub const HUMIDITY_MAX_CENTI: i64 = 10000;

/// Two to the 64th: the draws of `u64` values scale against it.
pub open spec fn two_64() -> int {
    0x1_0000_0000_0000_0000
}

/// The reading for a draw `r` taken as the fraction `r / 2^64` of the range,
/// rounded to the nearest hundredth, a tie away from zero.
pub open spec fn scaled(min: int, max: int, r: int) -> int {
    let q = (max - min) * r;
    let base = min + q / two_64();
    let rem = q % two_64();
    if rem > two_64() / 2 || (rem == two_64() / 2 && base >= 0) {
        base + 1
    } else {
        base
    }
}

/// Relies on rand::random: a `u64` drawn from the thread-local generator. Of
/// the value nothing is promised.
#[verifier::external_body]
fn draw_u64() -> u64 {
    rand::random::<u64>()
}

/// Places a draw in the range `[min_centi, max_centi]`.
pub fn scale_sample(min_centi: i64, max_centi: i64, r: u64) -> (v: i64)
    requires
        min_centi <= max_centi,
    ensures
        v == scaled(min_centi as int, max_centi as int, r as int),
        min_centi <= v <= max_centi,
{
    let span: u128 = (max_centi as i128 - min_centi as i128) as u128;
    assert(span * (r as u128) <= 0xffff_ffff_ffff_ffffu128 * 0xffff_ffff_ffff_ffffu128) by (nonlinear_arith)
        requires
            span <= 0xffff_ffff_ffff_ffffu128,
            r <= 0xffff_ffff_ffff_ffffu64,
    ;
    let q: u128 = span * (r as u128);
    let off: u128 = q / 0x1_0000_0000_0000_0000u128;
    let rem: u128 = q % 0x1_0000_0000_0000_0000u128;
    assert(off < span || (span == 0 && off == 0 && rem == 0)) by (nonlinear_arith)
        requires
            q == span * r,
            off == q / 0x1_0000_0000_0000_0000,
            rem == q % 0x1_0000_0000_0000_0000,
            r < 0x1_0000_0000_0000_0000,
    ;
    let base: i128 = min_centi as i128 + off as i128;
    let half: u128 = 0x8000_0000_0000_0000u128;
    if rem > half || (rem == half && base >= 0) {
        (base + 1) as i64
    } else {
        base as i64
    }
}

/// A reading drawn uniformly from `[min_centi, max_centi]`.
pub fn sample(min_centi: i64, max_centi: i64) -> (v: i64)
    requires
        min_centi <= max_centi,
    ensures
        min_centi <= v <= max_centi,
{
    let r = draw_u64();
    scale_sample(min_centi, max_centi, r)
}

/// The character of a decimal digit.
pub open spec fn digit(d: nat) -> char {
    seq!['0', '1', '2', '3', '4', '5', '6', '7', '8', '9'][d as int]
}

/// The decimal digits of `n`, with no leading zeros.
pub open spec fn decimal(n: nat) -> Seq<char>
    decreases n,
{
    if n < 10 {
        seq![digit(n)]
    } else {
        decimal(n / 10).push(digit(n % 10))
    }
}

/// The text of a reading: a `-` if negative, the whole units, a point, and
/// two digits of hundredths.
pub open spec fn centi_literal(v: int) -> Seq<char> {
    let a = if v < 0 {
        -v
    } else {
        v
    };
    let sign = if v < 0 {
        seq!['-']
    } else {
        Seq::<char>::empty()
    };
    let pad = if a % 100 < 10 {
        seq!['0']
    } else {
        Seq::<char>::empty()
    };
    sign + decimal((a / 100) as nat) + seq!['.'] + pad + decimal((a % 100) as nat)
}

/// The text of one decimal digit.
fn digit_text(d: u64) -> (r: &'static str)
    requires
        d < 10,
    ensures
        r@ == seq![digit(d as nat)],
{
    proof {
        reveal_strlit("0");
        reveal_strlit("1");
        reveal_strlit("2");
        reveal_strlit("3");
        reveal_strlit("4");
        reveal_strlit("5");
        reveal_strlit("6");
        reveal_strlit("7");
        reveal_strlit("8");
        reveal_strlit("9");
    }
    match d {
        0 => "0",
        1 => "1",
        2 => "2",
        3 => "3",
        4 => "4",
        5 => "5",
        6 => "6",
        7 => "7",
        8 => "8",
        _ => "9",
    }
}

/// Appends the decimal digits of `n`.
fn append_decimal(s: &mut String, n: u64)
    ensures
        final(s)@ == old(s)@ + decimal(n as nat),
    decreases n,
{
    if n >= 10 {
        append_decimal(s, n / 10);
    }
    s.append(digit_text(n % 10));
    assert(n < 10 ==> decimal(n as nat) =~= seq![digit(n as nat)]);
    assert(s@ =~= old(s)@ + decimal(n as nat));
}

/// The decimal digits of `n`, without sign or leading zeros.
fn u64_text(n: u64) -> (r: String)
    ensures
        r@ == decimal(n as nat),
{
    let mut s = String::new();
    append_decimal(&mut s, n);
    assert(s@ =~= decimal(n as nat));
    s
}

/// Writes a reading as a decimal literal.
pub fn centi_text(v: i64) -> (r: String)
    ensures
        r@ == centi_literal(v as int),
{
    let a: u64 = if v < 0 {
        (0i128 - v as i128) as u64
    } else {
        v as u64
    };
    let mut s = String::new();
    if v < 0 {
        s.append("-");
    }
    let whole = u64_text(a / 100);
    s.append(whole.as_str());
    s.append(".");
    if a % 100 < 10 {
        s.append("0");
    }
    let frac = u64_text(a % 100);
    s.append(frac.as_str());
    proof {
        reveal_strlit("-");
        reveal_strlit(".");
        reveal_strlit("0");
        let sign = if v < 0 {
            seq!['-']
        } else {
            Seq::<char>::empty()
        };
        let pad = if a % 100 < 10 {
            seq!['0']
        } else {
            Seq::<char>::empty()
        };
        assert(s@ =~= sign + decimal((a / 100) as nat) + seq!['.'] + pad + decimal((a % 100) as nat));
    }
    s
}

} // verus!
