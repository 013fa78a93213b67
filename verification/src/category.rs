//! Category helpers: deriving an abbreviation from a category name, and
//! producing a colour when the caller supplies none.

use vstd::prelude::*;

use crate::text::{str_chars, string_from_chars};

verus! {

/// Whether Unicode classes a character as an uppercase letter, as
/// `char::is_uppercase` decides it.
pub uninterp spec fn is_uppercase_char(c: char) -> bool;

/// Relies on `char::is_uppercase`: whether the character is in Unicode's
/// uppercase-letter category. The result depends on the character alone.
#[verifier::external_body]
fn char_is_uppercase(c: char) -> (r: bool)
    ensures
        r == is_uppercase_char(c),
{
    c.is_uppercase()
}

/// The Unicode uppercase mapping of a string, as `str::to_uppercase`
/// computes it.
pub uninterp spec fn uppercased(s: Seq<char>) -> Seq<char>;

/// Relies on `str::to_uppercase`: the Unicode uppercase mapping of the
/// string. The result depends on the characters alone.
#[verifier::external_body]
fn to_uppercase_str(s: &str) -> (r: String)
    ensures
        r@ == uppercased(s@),
{
    s.to_uppercase()
}

/// The uppercase letters of a sequence, in order.
pub open spec fn upper_filter(s: Seq<char>) -> Seq<char> {
    s.filter(|c: char| is_uppercase_char(c))
}

/// The derived abbreviation of a category name: its uppercase letters in
/// order if it has any; otherwise its first three characters upper-cased
/// if it is at least three characters long; otherwise the whole name
/// upper-cased.
pub open spec fn spec_short_name(name: Seq<char>) -> Seq<char> {
    let ups = upper_filter(name);
    if ups.len() > 0 {
        ups
    } else if name.len() >= 3 {
        uppercased(name.take(3))
    } else {
        uppercased(name)
    }
}

/// Derives the abbreviation for a category name.
pub fn derive_category_short_name(name: &str) -> (r: String)
    ensures
        r@ == spec_short_name(name@),
{
    let chars = str_chars(name);
    let mut ups: Vec<char> = Vec::new();
    let mut i: usize = 0;
    proof {
        reveal(Seq::filter);
        assert(name@.take(0) =~= Seq::<char>::empty());
        assert(upper_filter(name@.take(0)) =~= ups@);
    }
    while i < chars.len()
        invariant
            i <= chars@.len(),
            chars@ == name@,
            ups@ == upper_filter(name@.take(i as int)),
        decreases chars@.len() - i,
    {
        let c = chars[i];
        let ghost t = name@.take(i + 1);
        if char_is_uppercase(c) {
            ups.push(c);
        }
        proof {
            reveal(Seq::filter);
            assert(t.drop_last() =~= name@.take(i as int));
            assert(t.last() == name@[i as int]);
            assert(upper_filter(t) == (if is_uppercase_char(name@[i as int]) {
                upper_filter(name@.take(i as int)).push(name@[i as int])
            } else {
                upper_filter(name@.take(i as int))
            }));
            assert(ups@ == upper_filter(t));
        }
        i = i + 1;
    }
    proof {
        assert(name@.take(chars@.len() as int) =~= name@);
    }
    if ups.len() > 0 {
        string_from_chars(&ups)
    } else if chars.len() >= 3 {
        let head = name.substring_char(0, 3);
        proof {
            assert(head@ =~= name@.take(3));
        }
        to_uppercase_str(head)
    } else {
        to_uppercase_str(name)
    }
}

/// The character for one hexadecimal digit, lower case.
pub open spec fn spec_hex_digit(d: int) -> char {
    if d < 10 {
        crate::text::spec_digit(d)
    } else if d == 10 {
        'a'
    } else if d == 11 {
        'b'
    } else if d == 12 {
        'c'
    } else if d == 13 {
        'd'
    } else if d == 14 {
        'e'
    } else {
        'f'
    }
}

fn hex_digit(d: u8) -> (c: char)
    requires
        d < 16,
    ensures
        c == spec_hex_digit(d as int),
{
    if d == 10 {
        'a'
    } else if d == 11 {
        'b'
    } else if d == 12 {
        'c'
    } else if d == 13 {
        'd'
    } else if d == 14 {
        'e'
    } else if d == 15 {
        'f'
    } else {
        crate::text::digit_char(d as u64)
    }
}

/// A byte as two lower-case, zero-padded hex digits.
pub open spec fn spec_byte_hex(v: u8) -> Seq<char> {
    seq![spec_hex_digit(v as int / 16), spec_hex_digit(v as int % 16)]
}

/// A 24-bit RGB colour in the usual `#rrggbb` form: lower-case hex, each
/// channel zero-padded to two digits.
pub open spec fn spec_color_hex(r: u8, g: u8, b: u8) -> Seq<char> {
    seq!['#'] + spec_byte_hex(r) + spec_byte_hex(g) + spec_byte_hex(b)
}

/// Formats an RGB colour as `#rrggbb`.
pub fn color_hex(r: u8, g: u8, b: u8) -> (s: String)
    ensures
        s@ == spec_color_hex(r, g, b),
{
    let mut cs: Vec<char> = Vec::new();
    cs.push('#');
    cs.push(hex_digit(r / 16));
    cs.push(hex_digit(r % 16));
    cs.push(hex_digit(g / 16));
    cs.push(hex_digit(g % 16));
    cs.push(hex_digit(b / 16));
    cs.push(hex_digit(b % 16));
    proof {
        assert(cs@ =~= spec_color_hex(r, g, b));
    }
    string_from_chars(&cs)
}

/// Relies on `rand::random`: a uniformly random byte. Nothing can be
/// promised of a random value.
#[verifier::external_body]
fn random_byte() -> u8 {
    rand::random::<u8>()
}

/// A random 24-bit RGB colour, formatted as `#rrggbb`.
pub fn random_color() -> (s: String)
    ensures
        exists|r: u8, g: u8, b: u8| #![auto] s@ == spec_color_hex(r, g, b),
        s@.len() == 7,
{
    let r = random_byte();
    let g = random_byte();
    let b = random_byte();
    let s = color_hex(r, g, b);
    proof {
        assert(s@ == spec_color_hex(r, g, b));
    }
    s
}

} // verus!
