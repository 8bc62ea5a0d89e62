//! Small text helpers shared by both screens: decimal rendering of a byte
//! value, string concatenation, and the per-line character-capacity gate of
//! the log screen.

use vstd::prelude::*;
use vstd::std_specs::iter::IteratorSpec;

verus! {

/// The character a single decimal digit prints as.
pub open spec fn digit_char(d: int) -> char {
    if d == 0 {
        '0'
    } else if d == 1 {
        '1'
    } else if d == 2 {
        '2'
    } else if d == 3 {
        '3'
    } else if d == 4 {
        '4'
    } else if d == 5 {
        '5'
    } else if d == 6 {
        '6'
    } else if d == 7 {
        '7'
    } else if d == 8 {
        '8'
    } else {
        '9'
    }
}

/// The decimal digits of a byte value, most significant first, with no sign
/// and no leading zeros.
pub open spec fn decimal_spec(n: int) -> Seq<char> {
    if n < 10 {
        seq![digit_char(n)]
    } else if n < 100 {
        seq![digit_char(n / 10), digit_char(n % 10)]
    } else {
        seq![digit_char(n / 100), digit_char((n / 10) % 10), digit_char(n % 10)]
    }
}

/// Relies on itoa::Buffer::format: it prints an unsigned integer as its
/// shortest decimal digit string.
#[verifier::external_body]
pub(crate) fn decimal_str(n: u8) -> (r: String)
    ensures
        r@ == decimal_spec(n as int),
{
    let mut buffer = itoa::Buffer::new();
    buffer.format(n).to_owned()
}

/// Relies on std's String::push_str: it appends the slice onto the end of
/// the string.
#[verifier::external_body]
pub(crate) fn push_str(s: &mut String, t: &str)
    ensures
        final(s)@ == old(s)@ + t@,
{
    s.push_str(t)
}

/// Decides whether a line is within the given character capacity, counting
/// at most `cap + 1` characters before giving up.
pub fn fits_within(s: &str, cap: usize) -> (r: bool)
    requires
        cap < usize::MAX,
    ensures
        r == (s@.len() <= cap),
{
    let mut it = s.chars();
    proof {
        vstd::string::axiom_spec_iter(s);
    }
    let mut n: usize = 0;
    loop
        invariant
            cap < usize::MAX,
            n <= cap + 1,
            it.obeys_prophetic_iter_laws(),
            n + it.remaining().len() == s@.len(),
        decreases cap + 2 - n,
    {
        if n > cap {
            return false;
        }
        match it.next() {
            Option::Some(_) => {
                n = n + 1;
            },
            Option::None => {
                return n <= cap;
            },
        }
    }
}

} // verus!
