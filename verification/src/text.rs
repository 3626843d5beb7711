//! The textual form of a vector: `"Vec2(x, y)"`, with each component in
//! its decimal rendering. The rendering is specified character by character
//! and the executable builder is proved against that specification.

use vstd::prelude::*;
use vstd::string::StringExecFns;

use crate::scalar::Scalar;
use crate::vec2::Vec2;

verus! {

/// The character of one decimal digit.
pub open spec fn digit_char(d: int) -> char {
    if d == 0 {
        '0'
    } else if d == 1 {
        '1'
    } else if d == 2 {
        '2'
    } else if d == 3 {
        '3'
    } else if d == 4 {
        '4'
    } else if d == 5 {
        '5'
    } else if d == 6 {
        '6'
    } else if d == 7 {
        '7'
    } else if d == 8 {
        '8'
    } else {
        '9'
    }
}

/// The decimal rendering of a natural number: most significant digit first,
/// no sign, no leading zero except for zero itself.
pub open spec fn dec_seq(n: nat) -> Seq<char>
    decreases n,
{
    if n < 10 {
        seq![digit_char(n as int)]
    } else {
        dec_seq(n / 10) + seq![digit_char((n % 10) as int)]
    }
}

/// The decimal rendering of a mathematical integer: a leading minus sign on
/// a negative value, then the rendering of the magnitude.
pub open spec fn int_seq(v: int) -> Seq<char> {
    if v < 0 {
        seq!['-'] + dec_seq((-v) as nat)
    } else {
        dec_seq(v as nat)
    }
}

/// A one-character string for one decimal digit.
fn digit_string(d: u128) -> (s: String)
    requires
        d < 10,
    ensures
        s@ == seq![digit_char(d as int)],
{
    proof {
        reveal_strlit("0");
        reveal_strlit("1");
        reveal_strlit("2");
        reveal_strlit("3");
        reveal_strlit("4");
        reveal_strlit("5");
        reveal_strlit("6");
        reveal_strlit("7");
        reveal_strlit("8");
        reveal_strlit("9");
    }
    let c: &str = if d == 0 {
        "0"
    } else if d == 1 {
        "1"
    } else if d == 2 {
        "2"
    } else if d == 3 {
        "3"
    } else if d == 4 {
        "4"
    } else if d == 5 {
        "5"
    } else if d == 6 {
        "6"
    } else if d == 7 {
        "7"
    } else if d == 8 {
        "8"
    } else {
        "9"
    };
    c.to_owned()
}

/// The decimal rendering of an unsigned value, built digit by digit.
pub fn dec_string(n: u128) -> (s: String)
    ensures
        s@ == dec_seq(n as nat),
    decreases n,
{
    if n < 10 {
        digit_string(n)
    } else {
        let mut s = dec_string(n / 10);
        let d = digit_string(n % 10);
        s.append(d.as_str());
        s
    }
}

/// The decimal rendering of a value with an explicit sign: the magnitude is
/// given as an unsigned value so that the least value of a signed domain
/// needs no special care at the call site.
pub fn signed_dec_string(negative: bool, magnitude: u128) -> (s: String)
    ensures
        negative ==> s@ == seq!['-'] + dec_seq(magnitude as nat),
        !negative ==> s@ == dec_seq(magnitude as nat),
{
    proof {
        reveal_strlit("-");
    }
    let mag = dec_string(magnitude);
    if negative {
        let mut s: String = "-".to_owned();
        s.append(mag.as_str());
        s
    } else {
        mag
    }
}

/// A scalar domain with a decimal rendering, the domain's own default
/// textual form.
pub trait TextScalar: Scalar {
    /// The decimal rendering of this value.
    fn to_decimal(self) -> (s: String)
        ensures
            s@ == int_seq(self.as_int()),
    ;
}

impl TextScalar for u8 {
    fn to_decimal(self) -> (s: String) {
        dec_string(self as u128)
    }
}

impl TextScalar for u16 {
    fn to_decimal(self) -> (s: String) {
        dec_string(self as u128)
    }
}

impl TextScalar for u32 {
    fn to_decimal(self) -> (s: String) {
        dec_string(self as u128)
    }
}

impl TextScalar for u64 {
    fn to_decimal(self) -> (s: String) {
        dec_string(self as u128)
    }
}

impl TextScalar for u128 {
    fn to_decimal(self) -> (s: String) {
        dec_string(self as u128)
    }
}

impl TextScalar for usize {
    fn to_decimal(self) -> (s: String) {
        dec_string(self as u128)
    }
}

impl TextScalar for i8 {
    fn to_decimal(self) -> (s: String) {
        let wide = self as i128;
        if wide < 0 {
            signed_dec_string(true, (-wide) as u128)
        } else {
            signed_dec_string(false, wide as u128)
        }
    }
}

impl TextScalar for i16 {
    fn to_decimal(self) -> (s: String) {
        let wide = self as i128;
        if wide < 0 {
            signed_dec_string(true, (-wide) as u128)
        } else {
            signed_dec_string(false, wide as u128)
        }
    }
}

impl TextScalar for i32 {
    fn to_decimal(self) -> (s: String) {
        let wide = self as i128;
        if wide < 0 {
            signed_dec_string(true, (-wide) as u128)
        } else {
            signed_dec_string(false, wide as u128)
        }
    }
}

impl TextScalar for i64 {
    fn to_decimal(self) -> (s: String) {
        let wide = self as i128;
        if wide < 0 {
            signed_dec_string(true, (-wide) as u128)
        } else {
            signed_dec_string(false, wide as u128)
        }
    }
}

impl TextScalar for isize {
    fn to_decimal(self) -> (s: String) {
        let wide = self as i128;
        if wide < 0 {
            signed_dec_string(true, (-wide) as u128)
        } else {
            signed_dec_string(false, wide as u128)
        }
    }
}

impl TextScalar for i128 {
    fn to_decimal(self) -> (s: String) {
        if self < 0 {
            let mag: u128 = if self == i128::MIN {
                170141183460469231731687303715884105728u128
            } else {
                (-self) as u128
            };
            signed_dec_string(true, mag)
        } else {
            signed_dec_string(false, self as u128)
        }
    }
}

/// The textual form of a vector with the given component models.
pub open spec fn vec2_text(x: int, y: int) -> Seq<char> {
    "Vec2("@ + int_seq(x) + ", "@ + int_seq(y) + ")"@
}

impl<T: TextScalar> Vec2<T> {
    /// The committed textual form `"Vec2(x, y)"`: no surrounding whitespace,
    /// a comma and a space between the components, each component in its
    /// domain's decimal rendering.
    pub fn to_string(&self) -> (s: String)
        ensures
            s@ == vec2_text(self.x.as_int(), self.y.as_int()),
    {
        let mut s: String = "Vec2(".to_owned();
        let x = self.x.to_decimal();
        let y = self.y.to_decimal();
        s.append(x.as_str());
        s.append(", ");
        s.append(y.as_str());
        s.append(")");
        s
    }
}

} // verus!
