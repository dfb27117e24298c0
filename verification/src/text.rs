//! Verified rendering of coordinates as text.
//!
//! Every coordinate kind renders as `"<Kind> (x, y, z)"`. The decimal
//! rendering of each component is implemented and verified here, so the
//! rendered text is pinned down exactly by the specification functions.

use vstd::prelude::*;
use vstd::string::StringExecFns;

verus! {

/// The decimal digit character for `d` (`0 <= d <= 9`).
pub open spec fn digit_char(d: int) -> char {
    if d == 0 {
        '0'
    } else if d == 1 {
        '1'
    } else if d == 2 {
        '2'
    } else if d == 3 {
        '3'
    } else if d == 4 {
        '4'
    } else if d == 5 {
        '5'
    } else if d == 6 {
        '6'
    } else if d == 7 {
        '7'
    } else if d == 8 {
        '8'
    } else {
        '9'
    }
}

/// The decimal digit string of a natural number, most significant digit first,
/// with no leading zeros (except for the number zero itself).
pub open spec fn decimal_digits(n: nat) -> Seq<char>
    decreases n,
{
    if n < 10 {
        seq![digit_char(n as int)]
    } else {
        decimal_digits(n / 10) + seq![digit_char((n % 10) as int)]
    }
}

/// The decimal rendering of a (possibly negative) integer.
pub open spec fn decimal_int(n: int) -> Seq<char> {
    if n < 0 {
        seq!['-'] + decimal_digits((-n) as nat)
    } else {
        decimal_digits(n as nat)
    }
}

/// The rendering of a coordinate: the kind's name, then the three components
/// in decimal, as `"<kind> (x, y, z)"`.
pub open spec fn point_text(kind: Seq<char>, x: int, y: int, z: int) -> Seq<char> {
    kind + " ("@ + decimal_int(x) + ", "@ + decimal_int(y) + ", "@ + decimal_int(z) + ")"@
}

fn digit_string(d: u32) -> (s: String)
    requires
        d < 10,
    ensures
        s@ == seq![digit_char(d as int)],
{
    let lit: &str = if d == 0 {
        "0"
    } else if d == 1 {
        "1"
    } else if d == 2 {
        "2"
    } else if d == 3 {
        "3"
    } else if d == 4 {
        "4"
    } else if d == 5 {
        "5"
    } else if d == 6 {
        "6"
    } else if d == 7 {
        "7"
    } else if d == 8 {
        "8"
    } else {
        "9"
    };
    proof {
        reveal_strlit("0");
        reveal_strlit("1");
        reveal_strlit("2");
        reveal_strlit("3");
        reveal_strlit("4");
        reveal_strlit("5");
        reveal_strlit("6");
        reveal_strlit("7");
        reveal_strlit("8");
        reveal_strlit("9");
        assert(lit@ =~= seq![digit_char(d as int)]);
    }
    lit.to_owned()
}

fn u32_decimal(n: u32) -> (s: String)
    ensures
        s@ == decimal_digits(n as nat),
    decreases n,
{
    if n < 10 {
        digit_string(n)
    } else {
        let q: u32 = n / 10;
        let r: u32 = n % 10;
        assert(q < n && q >= 1 && r < 10) by (nonlinear_arith)
            requires
                n >= 10,
                q == n / 10,
                r == n % 10,
        ;
        let mut s = u32_decimal(q);
        let d = digit_string(r);
        s.append(d.as_str());
        s
    }
}

/// Renders `n` in decimal, with a leading `'-'` when `n` is negative.
pub fn i32_decimal(n: i32) -> (s: String)
    ensures
        s@ == decimal_int(n as int),
{
    if n >= 0 {
        u32_decimal(n as u32)
    } else {
        let magnitude: u32 = if n == i32::MIN {
            0x8000_0000u32
        } else {
            (-n) as u32
        };
        assert(magnitude as int == -(n as int));
        let mut s = "-".to_owned();
        proof {
            reveal_strlit("-");
            assert(s@ =~= seq!['-']);
        }
        let digits = u32_decimal(magnitude);
        s.append(digits.as_str());
        s
    }
}

/// Renders a coordinate of the given kind as `"<kind> (x, y, z)"`.
pub fn render_point(kind: &str, x: i32, y: i32, z: i32) -> (s: String)
    ensures
        s@ == point_text(kind@, x as int, y as int, z as int),
{
    let mut s = kind.to_owned();
    s.append(" (");
    let dx = i32_decimal(x);
    s.append(dx.as_str());
    s.append(", ");
    let dy = i32_decimal(y);
    s.append(dy.as_str());
    s.append(", ");
    let dz = i32_decimal(z);
    s.append(dz.as_str());
    s.append(")");
    s
}

} // verus!
