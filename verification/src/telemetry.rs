//! The per-frame console report: each rigid body's altitude, rendered
//! exactly from its transform. Rendering is specified to the character,
//! so the printed altitude is provably the vertical coordinate that was
//! read, in hundredths-of-a-unit fixed point.

use vstd::prelude::*;
use crate::sim::Vec2Fx;

verus! {

/// The decimal digit character for `d` in `0..10`.
pub open spec fn spec_digit(d: int) -> char {
    if d == 0 {
        '0'
    } else if d == 1 {
        '1'
    } else if d == 2 {
        '2'
    } else if d == 3 {
        '3'
    } else if d == 4 {
        '4'
    } else if d == 5 {
        '5'
    } else if d == 6 {
        '6'
    } else if d == 7 {
        '7'
    } else if d == 8 {
        '8'
    } else {
        '9'
    }
}

/// Decimal digits of `n`, most significant first, without leading zeros
/// (a single `'0'` for zero).
pub open spec fn spec_digits(n: nat) -> Seq<char>
    decreases n,
{
    if n < 10 {
        seq![spec_digit(n as int)]
    } else {
        spec_digits(n / 10).push(spec_digit((n % 10) as int))
    }
}

/// Rendering of a nonnegative count of hundredths: the whole units, a
/// point, and exactly two fraction digits.
pub open spec fn spec_fixed_mag(n: nat) -> Seq<char> {
    spec_digits(n / 100) + seq!['.', spec_digit(((n / 10) % 10) as int), spec_digit((n % 10) as int)]
}

/// Rendering of `v` hundredths of a unit: a minus sign for negative
/// values, then the magnitude as units and two fraction digits.
pub open spec fn spec_fixed(v: int) -> Seq<char> {
    if v < 0 {
        seq!['-'] + spec_fixed_mag((-v) as nat)
    } else {
        spec_fixed_mag(v as nat)
    }
}

/// The altitude report for a body whose vertical coordinate is `y`
/// hundredths.
pub open spec fn spec_altitude_line(y: int) -> Seq<char> {
    "Ball altitude: "@ + spec_fixed(y)
}

/// The report printed on a lifted frame, for the vertical coordinate
/// `y` hundredths after the nudge.
pub open spec fn spec_lift_line(y: int) -> Seq<char> {
    "Ball altitude on lift: "@ + spec_fixed(y)
}

/// The character of one decimal digit, as a one-character string.
fn digit_str(d: u64) -> (r: &'static str)
    requires
        d < 10,
    ensures
        r@ == seq![spec_digit(d as int)],
{
    proof {
        reveal_strlit("0");
        reveal_strlit("1");
        reveal_strlit("2");
        reveal_strlit("3");
        reveal_strlit("4");
        reveal_strlit("5");
        reveal_strlit("6");
        reveal_strlit("7");
        reveal_strlit("8");
        reveal_strlit("9");
        assert("0"@ =~= seq!['0']);
        assert("1"@ =~= seq!['1']);
        assert("2"@ =~= seq!['2']);
        assert("3"@ =~= seq!['3']);
        assert("4"@ =~= seq!['4']);
        assert("5"@ =~= seq!['5']);
        assert("6"@ =~= seq!['6']);
        assert("7"@ =~= seq!['7']);
        assert("8"@ =~= seq!['8']);
        assert("9"@ =~= seq!['9']);
    }
    if d == 0 {
        "0"
    } else if d == 1 {
        "1"
    } else if d == 2 {
        "2"
    } else if d == 3 {
        "3"
    } else if d == 4 {
        "4"
    } else if d == 5 {
        "5"
    } else if d == 6 {
        "6"
    } else if d == 7 {
        "7"
    } else if d == 8 {
        "8"
    } else {
        "9"
    }
}

/// The decimal digits of `n`, most significant first.
fn fmt_digits(n: u64) -> (s: String)
    ensures
        s@ == spec_digits(n as nat),
    decreases n,
{
    if n < 10 {
        String::from_str(digit_str(n))
    } else {
        let mut s = fmt_digits(n / 10);
        s.append(digit_str(n % 10));
        proof {
            assert(s@ =~= spec_digits(n as nat));
        }
        s
    }
}

/// Rendering of a nonnegative count of hundredths.
fn fmt_fixed_mag(n: u64) -> (s: String)
    ensures
        s@ == spec_fixed_mag(n as nat),
{
    let mut s = fmt_digits(n / 100);
    s.append(".");
    s.append(digit_str((n / 10) % 10));
    s.append(digit_str(n % 10));
    proof {
        reveal_strlit(".");
        assert("."@ =~= seq!['.']);
        assert(s@ =~= spec_fixed_mag(n as nat));
    }
    s
}

/// Rendering of `v` hundredths of a unit as a decimal string, such as
/// `400.00` or `-0.05`.
pub fn fmt_fixed(v: i64) -> (s: String)
    ensures
        s@ == spec_fixed(v as int),
{
    if v >= 0 {
        fmt_fixed_mag(v as u64)
    } else {
        let mag: u64 = (-(v as i128)) as u64;
        assert(mag as nat == -(v as int)) by (nonlinear_arith)
            requires
                v < 0,
                mag == (-(v as i128)) as u64,
        ;
        let mut s = String::from_str("-");
        let t = fmt_fixed_mag(mag);
        s.append(t.as_str());
        proof {
            reveal_strlit("-");
            assert("-"@ =~= seq!['-']);
            assert(s@ =~= spec_fixed(v as int));
        }
        s
    }
}

/// The altitude report for one transform's translation.
pub fn altitude_line(translation: &Vec2Fx) -> (line: String)
    ensures
        line@ == spec_altitude_line(translation.y as int),
{
    let mut s = String::from_str("Ball altitude: ");
    let t = fmt_fixed(translation.y);
    s.append(t.as_str());
    s
}

/// The report for a lifted frame, from the translation after the nudge.
pub fn lift_line(translation: &Vec2Fx) -> (line: String)
    ensures
        line@ == spec_lift_line(translation.y as int),
{
    let mut s = String::from_str("Ball altitude on lift: ");
    let t = fmt_fixed(translation.y);
    s.append(t.as_str());
    s
}

/// One frame of telemetry: the altitude report of every rigid body's
/// transform, in the order the store handed them out. Pure observation;
/// the printed altitude is exactly the vertical coordinate read.
pub fn print_ball_altitude(translations: &Vec<Vec2Fx>) -> (lines: Vec<String>)
    ensures
        lines@.len() == translations@.len(),
        forall|i: int|
            0 <= i < translations@.len() ==> lines@[i]@ == spec_altitude_line(
                translations@[i].y as int,
            ),
{
    let mut lines: Vec<String> = Vec::new();
    let mut k: usize = 0;
    while k < translations.len()
        invariant
            k <= translations@.len(),
            lines@.len() == k,
            forall|i: int|
                0 <= i < k ==> lines@[i]@ == spec_altitude_line(translations@[i].y as int),
        decreases translations@.len() - k,
    {
        let line = altitude_line(&translations[k]);
        lines.push(line);
        k = k + 1;
    }
    lines
}

} // verus!
