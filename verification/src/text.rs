//! Plain-text helpers: characters of a string, decimal and fixed-point
//! formatting, left-padding, and parsing of 1-based indexes.

use vstd::prelude::*;

verus! {

/// Relies on `String::from_iter` over `char`: collecting characters
/// yields the string of exactly those characters, in order.
#[verifier::external_body]
pub fn string_from_chars(cs: &Vec<char>) -> (r: String)
    ensures
        r@ == cs@,
{
    cs.iter().collect()
}

/// The characters of a string slice, as a vector.
pub fn str_chars(s: &str) -> (r: Vec<char>)
    ensures
        r@ == s@,
{
    let n = s.unicode_len();
    let mut r: Vec<char> = Vec::new();
    let mut i: usize = 0;
    while i < n
        invariant
            i <= n,
            n == s@.len(),
            r@ == s@.subrange(0, i as int),
        decreases n - i,
    {
        r.push(s.get_char(i));
        proof {
            assert(r@ =~= s@.subrange(0, i + 1));
        }
        i = i + 1;
    }
    proof {
        assert(r@ =~= s@);
    }
    r
}

/// The character for one decimal digit.
pub open spec fn spec_digit(d: int) -> char {
    if d == 0 {
        '0'
    } else if d == 1 {
        '1'
    } else if d == 2 {
        '2'
    } else if d == 3 {
        '3'
    } else if d == 4 {
        '4'
    } else if d == 5 {
        '5'
    } else if d == 6 {
        '6'
    } else if d == 7 {
        '7'
    } else if d == 8 {
        '8'
    } else {
        '9'
    }
}

pub(crate) fn digit_char(d: u64) -> (c: char)
    requires
        d < 10,
    ensures
        c == spec_digit(d as int),
{
    if d == 0 {
        '0'
    } else if d == 1 {
        '1'
    } else if d == 2 {
        '2'
    } else if d == 3 {
        '3'
    } else if d == 4 {
        '4'
    } else if d == 5 {
        '5'
    } else if d == 6 {
        '6'
    } else if d == 7 {
        '7'
    } else if d == 8 {
        '8'
    } else {
        '9'
    }
}

/// The usual decimal rendering of a natural number, without sign or
/// leading zeroes (`0` renders as `"0"`).
pub open spec fn spec_dec(n: nat) -> Seq<char>
    decreases n,
{
    if n < 10 {
        seq![spec_digit(n as int)]
    } else {
        spec_dec(n / 10) + seq![spec_digit((n % 10) as int)]
    }
}

/// Writes a number in decimal onto the end of a character vector.
pub fn push_dec(out: &mut Vec<char>, n: u64)
    ensures
        final(out)@ == old(out)@ + spec_dec(n as nat),
    decreases n,
{
    if n < 10 {
        out.push(digit_char(n));
        proof {
            assert(out@ =~= old(out)@ + spec_dec(n as nat));
        }
    } else {
        assert(n / 10 < n && n / 10 >= 1) by (nonlinear_arith)
            requires
                n >= 10,
        ;
        push_dec(out, n / 10);
        out.push(digit_char(n % 10));
        proof {
            assert(out@ =~= old(out)@ + spec_dec(n as nat));
        }
    }
}

/// The fixed-point rendering of a number of hundredths: optional minus
/// sign, integer part, a dot, and exactly two decimal places.
pub open spec fn spec_fixed2(h: int) -> Seq<char> {
    if h < 0 {
        seq!['-'] + spec_fixed2_nn((-h) as nat)
    } else {
        spec_fixed2_nn(h as nat)
    }
}

/// Fixed-point rendering of a non-negative number of hundredths.
pub open spec fn spec_fixed2_nn(h: nat) -> Seq<char> {
    spec_dec(h / 100) + seq!['.', spec_digit(((h / 10) % 10) as int), spec_digit((h % 10) as int)]
}

/// Writes a number of hundredths in fixed-point form onto the end of a
/// character vector.
pub fn push_fixed2(out: &mut Vec<char>, h: i64)
    ensures
        final(out)@ == old(out)@ + spec_fixed2(h as int),
{
    let abs: u64 = if h < 0 {
        out.push('-');
        ((-(h + 1)) as u64) + 1
    } else {
        h as u64
    };
    let ghost mid = out@;
    push_dec(out, abs / 100);
    out.push('.');
    out.push(digit_char((abs / 10) % 10));
    out.push(digit_char(abs % 10));
    proof {
        assert(out@ =~= mid + spec_fixed2_nn(abs as nat));
        if h < 0 {
            assert(mid =~= old(out)@ + seq!['-']);
            assert(out@ =~= old(out)@ + spec_fixed2(h as int));
        } else {
            assert(out@ =~= old(out)@ + spec_fixed2(h as int));
        }
    }
}

/// A sequence left-padded with spaces up to the given width; anything
/// already that wide stays as it is.
pub open spec fn spec_pad_left(s: Seq<char>, w: nat) -> Seq<char> {
    if s.len() >= w {
        s
    } else {
        Seq::new((w - s.len()) as nat, |i: int| ' ') + s
    }
}

/// Writes a number in decimal, left-padded with spaces to the given
/// width, onto the end of a character vector.
pub fn push_dec_padded(out: &mut Vec<char>, n: u64, w: usize)
    ensures
        final(out)@ == old(out)@ + spec_pad_left(spec_dec(n as nat), w as nat),
{
    let mut digits: Vec<char> = Vec::new();
    push_dec(&mut digits, n);
    proof {
        assert(digits@ =~= spec_dec(n as nat));
    }
    let mut pad: usize = 0;
    if digits.len() < w {
        let total = w - digits.len();
        while pad < total
            invariant
                pad <= total,
                total == w - digits@.len(),
                digits@.len() < w,
                out@ == old(out)@ + Seq::new(pad as nat, |i: int| ' '),
            decreases total - pad,
        {
            out.push(' ');
            proof {
                assert(out@ =~= old(out)@ + Seq::new((pad + 1) as nat, |i: int| ' '));
            }
            pad = pad + 1;
        }
    }
    let mut i: usize = 0;
    let ghost before_digits = out@;
    while i < digits.len()
        invariant
            i <= digits@.len(),
            out@ == before_digits + digits@.subrange(0, i as int),
        decreases digits@.len() - i,
    {
        out.push(digits[i]);
        proof {
            assert(out@ =~= before_digits + digits@.subrange(0, i + 1));
        }
        i = i + 1;
    }
    proof {
        assert(digits@.subrange(0, digits@.len() as int) =~= digits@);
        assert(out@ =~= old(out)@ + spec_pad_left(spec_dec(n as nat), w as nat));
    }
}

/// Whether a character is a decimal digit.
pub open spec fn spec_is_digit(c: char) -> bool {
    48 <= c as u32 <= 57
}

/// The numeric value of a digit character.
pub open spec fn spec_digit_val(c: char) -> int {
    c as u32 - 48
}

/// The value of a digit string read in base ten.
pub open spec fn spec_digits_val(s: Seq<char>) -> int
    decreases s.len(),
{
    if s.len() == 0 {
        0
    } else {
        spec_digits_val(s.drop_last()) * 10 + spec_digit_val(s.last())
    }
}

/// Whether every character of a sequence is a decimal digit.
pub open spec fn spec_all_digits(s: Seq<char>) -> bool {
    forall|i: int| 0 <= i < s.len() ==> spec_is_digit(s[i])
}

/// What parsing a 1-based index yields: the zero-based index for a
/// non-empty, all-digit string whose value is at least one and fits a
/// `usize`; nothing for anything else (empty, non-digit characters, a
/// zero index, or a value out of range).
pub open spec fn spec_parse_index(s: Seq<char>) -> Option<int> {
    if s.len() > 0 && spec_all_digits(s) && 1 <= spec_digits_val(s) <= usize::MAX {
        Some(spec_digits_val(s) - 1)
    } else {
        None
    }
}

proof fn lemma_digits_val_nonneg(s: Seq<char>)
    requires
        spec_all_digits(s),
    ensures
        spec_digits_val(s) >= 0,
    decreases s.len(),
{
    if s.len() > 0 {
        assert(spec_all_digits(s.drop_last()));
        lemma_digits_val_nonneg(s.drop_last());
    }
}

proof fn lemma_digits_val_prefix_le(s: Seq<char>, i: int)
    requires
        spec_all_digits(s),
        0 <= i <= s.len(),
    ensures
        spec_digits_val(s.take(i)) <= spec_digits_val(s),
    decreases s.len() - i,
{
    if i == s.len() {
        assert(s.take(i) =~= s);
    } else {
        let t = s.take(i + 1);
        assert(t.drop_last() =~= s.take(i));
        assert(spec_all_digits(s.take(i)));
        lemma_digits_val_nonneg(s.take(i));
        assert(spec_digits_val(t) == spec_digits_val(s.take(i)) * 10 + spec_digit_val(t.last()));
        assert(spec_digits_val(s.take(i)) * 10 >= spec_digits_val(s.take(i))) by (nonlinear_arith)
            requires
                spec_digits_val(s.take(i)) >= 0,
        ;
        lemma_digits_val_prefix_le(s, i + 1);
    }
}

/// Turns a 1-based decimal index, as typed by the user, into a zero-based
/// index. Zero, an empty string, stray characters and out-of-range
/// values all yield `None`.
pub fn parse_index(s: &str) -> (r: Option<usize>)
    ensures
        match r {
            Some(k) => spec_parse_index(s@) == Some(k as int),
            None => spec_parse_index(s@) is None,
        },
{
    let chars = str_chars(s);
    if chars.len() == 0 {
        return None;
    }
    let mut acc: usize = 0;
    let mut i: usize = 0;
    while i < chars.len()
        invariant
            i <= chars@.len(),
            chars@ == s@,
            spec_all_digits(s@.take(i as int)),
            acc as int == spec_digits_val(s@.take(i as int)),
        decreases chars@.len() - i,
    {
        let c = chars[i];
        let cv = c as u32;
        if cv < 48 || cv > 57 {
            proof {
                assert(!spec_is_digit(s@[i as int]));
            }
            return None;
        }
        let d = (cv - 48) as usize;
        let wide: u128 = (acc as u128) * 10 + (d as u128);
        if wide > usize::MAX as u128 {
            proof {
                let t = s@.take(i + 1);
                assert(t.drop_last() =~= s@.take(i as int));
                assert(t.last() == s@[i as int]);
                assert(spec_digits_val(t) == acc as int * 10 + d);
                assert(spec_digits_val(t) > usize::MAX);
                if spec_all_digits(s@) {
                    lemma_digits_val_prefix_le(s@, i + 1);
                    assert(spec_digits_val(s@) > usize::MAX);
                }
            }
            return None;
        }
        acc = wide as usize;
        proof {
            let t = s@.take(i + 1);
            assert(t.drop_last() =~= s@.take(i as int));
            assert(t.last() == s@[i as int]);
        }
        i = i + 1;
    }
    proof {
        assert(s@.take(chars@.len() as int) =~= s@);
    }
    if acc == 0 {
        None
    } else {
        Some(acc - 1)
    }
}

/// Resolves a user-given 1-based index to a zero-based one. Anything
/// that is not a positive, in-range decimal number — zero, a sign, junk,
/// an empty string — fails with `InvalidIndex`, before any other work.
pub fn resolve_index(s: &str) -> (r: Result<usize, crate::error::ShopError>)
    ensures
        match r {
            Ok(k) => spec_parse_index(s@) == Some(k as int),
            Err(e) => spec_parse_index(s@) is None && e == crate::error::ShopError::InvalidIndex,
        },
{
    match parse_index(s) {
        Some(k) => Ok(k),
        None => Err(crate::error::ShopError::InvalidIndex),
    }
}

} // verus!
