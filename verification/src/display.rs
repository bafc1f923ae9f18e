//! Human-readable formatting of quaternions.
//!
//! Each nonzero component is rendered as an explicit sign (`+` or `-`),
//! the decimal text of its absolute value, and a unit suffix: none for the
//! real component, `i`, `j`, `k` for the three imaginary ones.  A component
//! equal to zero is omitted, and the parts are concatenated in component
//! order with no separators.  When all four components are zero the result
//! is the literal string `"0"`.  A leading `+` is never suppressed.

use crate::algebra::Quat;
use crate::algebra::Quaternion;
use vstd::math::abs;
use vstd::prelude::*;

verus! {

/// The sign class of a scalar component: strictly negative, exactly zero,
/// or strictly positive.
#[derive(Clone, Copy, PartialEq, Eq, Structural, Debug)]
pub enum Sign {
    Negative,
    Zero,
    Positive,
}

/// One component of a quaternion, prepared for formatting: its sign class
/// and the decimal text of its absolute value.  When `sign` is
/// `Sign::Zero` the magnitude is ignored.
pub struct ComponentText {
    pub sign: Sign,
    pub magnitude: String,
}

/// The character for one decimal digit.
pub open spec fn digit_char(d: int) -> char
    recommends
        0 <= d < 10,
{
    if d == 0 {
        '0'
    } else if d == 1 {
        '1'
    } else if d == 2 {
        '2'
    } else if d == 3 {
        '3'
    } else if d == 4 {
        '4'
    } else if d == 5 {
        '5'
    } else if d == 6 {
        '6'
    } else if d == 7 {
        '7'
    } else if d == 8 {
        '8'
    } else {
        '9'
    }
}

/// The decimal digit characters of `n`, most significant first, with no
/// sign and no leading zeros (except for `n == 0`, which is `"0"`).
pub open spec fn dec_digits(n: nat) -> Seq<char>
    decreases n,
{
    if n < 10 {
        seq![digit_char(n as int)]
    } else {
        dec_digits((n / 10) as nat).push(digit_char((n % 10) as int))
    }
}

/// The sign class of an integer.
pub open spec fn sign_of(c: int) -> Sign {
    if c > 0 {
        Sign::Positive
    } else if c == 0 {
        Sign::Zero
    } else {
        Sign::Negative
    }
}

/// The text of one formatted component: empty when the sign class is
/// zero, otherwise the sign character followed by the magnitude and the
/// unit suffix.
pub open spec fn part_text(sign: Sign, magnitude: Seq<char>, suffix: Seq<char>) -> Seq<char> {
    match sign {
        Sign::Zero => Seq::empty(),
        Sign::Positive => seq!['+'] + magnitude + suffix,
        Sign::Negative => seq!['-'] + magnitude + suffix,
    }
}

/// The display text assembled from four prepared components.
pub open spec fn parts_text(
    x: ComponentText,
    y: ComponentText,
    z: ComponentText,
    w: ComponentText,
) -> Seq<char> {
    let s = part_text(x.sign, x.magnitude@, Seq::empty()) + part_text(
        y.sign,
        y.magnitude@,
        seq!['i'],
    ) + part_text(z.sign, z.magnitude@, seq!['j']) + part_text(w.sign, w.magnitude@, seq!['k']);
    if s.len() == 0 {
        seq!['0']
    } else {
        s
    }
}

/// The display text of a quaternion.
pub open spec fn display_text(q: Quat) -> Seq<char> {
    let s = part_text(sign_of(q.x), dec_digits(abs(q.x)), Seq::empty()) + part_text(
        sign_of(q.y),
        dec_digits(abs(q.y)),
        seq!['i'],
    ) + part_text(sign_of(q.z), dec_digits(abs(q.z)), seq!['j']) + part_text(
        sign_of(q.w),
        dec_digits(abs(q.w)),
        seq!['k'],
    );
    if s.len() == 0 {
        seq!['0']
    } else {
        s
    }
}

/// The sequence a suffix contributes: nothing, or one character.
pub open spec fn suffix_text(suffix: Option<char>) -> Seq<char> {
    match suffix {
        Option::None => Seq::empty(),
        Option::Some(c) => seq![c],
    }
}

/// Relies on `String::push`: it appends exactly the given character to
/// the end of the string.
#[verifier::external_body]
fn push_char(s: &mut String, c: char)
    ensures
        final(s)@ == old(s)@.push(c),
{
    s.push(c);
}

/// Relies on `String::push_str`: it appends exactly the contents of the
/// given slice to the end of the string.
#[verifier::external_body]
fn push_chars(s: &mut String, t: &str)
    ensures
        final(s)@ == old(s)@ + t@,
{
    s.push_str(t);
}

/// The character for one decimal digit.
fn digit_char_of(d: u32) -> (c: char)
    requires
        d < 10,
    ensures
        c == digit_char(d as int),
{
    match d {
        0 => '0',
        1 => '1',
        2 => '2',
        3 => '3',
        4 => '4',
        5 => '5',
        6 => '6',
        7 => '7',
        8 => '8',
        _ => '9',
    }
}

/// Appends the decimal digits of `n`, most significant first.
fn push_decimal(s: &mut String, n: u32)
    ensures
        final(s)@ == old(s)@ + dec_digits(n as nat),
    decreases n,
{
    if n < 10 {
        let c = digit_char_of(n);
        push_char(s, c);
        proof {
            assert(s@ =~= old(s)@ + dec_digits(n as nat));
        }
    } else {
        push_decimal(s, n / 10);
        let c = digit_char_of(n % 10);
        push_char(s, c);
        proof {
            assert(s@ =~= old(s)@ + dec_digits(n as nat));
        }
    }
}

/// The decimal text of the absolute value of `c`.
fn magnitude_digits(c: i32) -> (r: String)
    ensures
        r@ == dec_digits(abs(c as int)),
{
    let m: u32 = if c < 0 {
        (-(c as i64)) as u32
    } else {
        c as u32
    };
    let mut s = String::new();
    push_decimal(&mut s, m);
    proof {
        assert(s@ =~= dec_digits(abs(c as int)));
    }
    s
}

/// Prepares one scalar component for formatting: classifies its sign and
/// renders the decimal text of its absolute value.
pub fn component_text(c: i32) -> (t: ComponentText)
    ensures
        t.sign == sign_of(c as int),
        t.sign != Sign::Zero ==> t.magnitude@ == dec_digits(abs(c as int)),
{
    if c > 0 {
        ComponentText { sign: Sign::Positive, magnitude: magnitude_digits(c) }
    } else if c == 0 {
        ComponentText { sign: Sign::Zero, magnitude: String::new() }
    } else {
        ComponentText { sign: Sign::Negative, magnitude: magnitude_digits(c) }
    }
}

/// Appends the text of one prepared component: nothing when its sign
/// class is zero, otherwise the sign character, the magnitude, and the
/// unit suffix.
fn append_part(s: &mut String, p: &ComponentText, suffix: Option<char>)
    ensures
        final(s)@ == old(s)@ + part_text(p.sign, p.magnitude@, suffix_text(suffix)),
{
    match p.sign {
        Sign::Zero => {
            proof {
                assert(s@ =~= old(s)@ + part_text(p.sign, p.magnitude@, suffix_text(suffix)));
            }
        },
        Sign::Positive => {
            push_char(s, '+');
            push_chars(s, p.magnitude.as_str());
            if let Some(c) = suffix {
                push_char(s, c);
            }
            proof {
                assert(s@ =~= old(s)@ + part_text(p.sign, p.magnitude@, suffix_text(suffix)));
            }
        },
        Sign::Negative => {
            push_char(s, '-');
            push_chars(s, p.magnitude.as_str());
            if let Some(c) = suffix {
                push_char(s, c);
            }
            proof {
                assert(s@ =~= old(s)@ + part_text(p.sign, p.magnitude@, suffix_text(suffix)));
            }
        },
    }
}

/// Assembles the display string from four prepared components, in
/// component order, with the suffixes `i`, `j`, `k` on the imaginary
/// parts and `"0"` when every component is zero.
pub fn format_parts(
    x: &ComponentText,
    y: &ComponentText,
    z: &ComponentText,
    w: &ComponentText,
) -> (r: String)
    ensures
        r@ == parts_text(*x, *y, *z, *w),
{
    let mut s = String::new();
    append_part(&mut s, x, None);
    append_part(&mut s, y, Some('i'));
    append_part(&mut s, z, Some('j'));
    append_part(&mut s, w, Some('k'));
    if s.as_str().is_empty() {
        push_char(&mut s, '0');
        proof {
            assert(s@ =~= parts_text(*x, *y, *z, *w));
        }
    } else {
        proof {
            assert(s@ =~= parts_text(*x, *y, *z, *w));
        }
    }
    s
}

impl Quaternion {
    /// The display string of this quaternion: each nonzero component as
    /// an explicit sign, the decimal text of its absolute value, and its
    /// unit suffix, concatenated in component order; `"0"` when all four
    /// components are zero.
    pub fn to_display_string(&self) -> (r: String)
        ensures
            r@ == display_text(self@),
    {
        let tx = component_text(self.x);
        let ty = component_text(self.y);
        let tz = component_text(self.z);
        let tw = component_text(self.w);
        let r = format_parts(&tx, &ty, &tz, &tw);
        proof {
            assert(part_text(tx.sign, tx.magnitude@, Seq::empty()) == part_text(
                sign_of(self@.x),
                dec_digits(abs(self@.x)),
                Seq::empty(),
            ));
            assert(part_text(ty.sign, ty.magnitude@, seq!['i']) == part_text(
                sign_of(self@.y),
                dec_digits(abs(self@.y)),
                seq!['i'],
            ));
            assert(part_text(tz.sign, tz.magnitude@, seq!['j']) == part_text(
                sign_of(self@.z),
                dec_digits(abs(self@.z)),
                seq!['j'],
            ));
            assert(part_text(tw.sign, tw.magnitude@, seq!['k']) == part_text(
                sign_of(self@.w),
                dec_digits(abs(self@.w)),
                seq!['k'],
            ));
        }
        r
    }
}

} // verus!
